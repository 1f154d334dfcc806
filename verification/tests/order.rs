use cw721_base::order::{str_equal, str_less};

#[test]
fn identifiers_are_ordered_by_their_bytes() {
    assert!(str_less("1", "2"));
    assert!(str_less("10", "2"));
    assert!(str_less("", "a"));
    assert!(!str_less("a", "a"));
    assert!(!str_less("b", "a"));
    assert!(str_less("a", "ab"));
    assert!(str_equal("abc", "abc"));
    assert!(!str_equal("abc", "abd"));
}
