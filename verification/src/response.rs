//! The outcome that a mutating operation hands back: a list of attributes
//! for observers.

use vstd::prelude::*;

verus! {

/// `cosmwasm_std::Empty`, the custom message of a response that has none.
/// Nothing is claimed of its values.
#[verifier::external_type_specification]
#[verifier::external_body]
pub struct ExEmpty(cosmwasm_std::Empty);

/// `cosmwasm_std::Response`, which the operations hand to the chain. Its
/// values are carried through; of what they hold only the attributes are
/// spoken of, under the name `response_attributes`.
#[verifier::external_type_specification]
#[verifier::external_body]
#[verifier::reject_recursive_types(T)]
pub struct ExResponse<T>(cosmwasm_std::Response<T>);

/// The attributes of a response (the field `attributes` of
/// `cosmwasm_std::Response`), in the order in which they were added, each as
/// its key and its value.
pub uninterp spec fn response_attributes(response: cosmwasm_std::Response<cosmwasm_std::Empty>) -> Seq<(Seq<char>, Seq<char>)>;

/// Whether `key` may name an attribute: keys that start with an underscore
/// are reserved.
pub open spec fn attribute_key_allowed(key: Seq<char>) -> bool {
    key.len() == 0 || key[0] != '_'
}

/// Calls `cosmwasm_std::Response::new`, which gives a response without
/// attributes.
#[verifier::external_body]
pub(crate) fn new_response() -> (r: cosmwasm_std::Response<cosmwasm_std::Empty>)
    ensures
        response_attributes(r) == Seq::<(Seq<char>, Seq<char>)>::empty(),
{
    cosmwasm_std::Response::new()
}

/// Calls `cosmwasm_std::Response::add_attribute`, which appends one
/// attribute made of `key` and `value` and leaves the earlier ones as they
/// are. A debug build panics on a key that starts with an underscore.
#[verifier::external_body]
pub(crate) fn add_attribute(
    response: cosmwasm_std::Response<cosmwasm_std::Empty>,
    key: &str,
    value: &str,
) -> (r: cosmwasm_std::Response<cosmwasm_std::Empty>)
    requires
        attribute_key_allowed(key@),
    ensures
        response_attributes(r) == response_attributes(response).push((key@, value@)),
{
    response.add_attribute(key, value)
}

} // verus!
