//! The holder of a role, and the two-step handing over of the role to
//! another identity.

use vstd::prelude::*;
use crate::error::{fails_with, ContractError, ErrorKind};
use crate::expiration::{BlockInfo, Expiration};
use crate::order::str_equal;
use crate::state::{copy_opt_text, opt_text};

verus! {

/// What an `Ownership` stands for.
pub struct OwnershipView {
    pub owner: Option<Seq<char>>,
    pub pending_owner: Option<Seq<char>>,
    pub pending_expiry: Option<Expiration>,
}

impl OwnershipView {
    /// The record of a role that `owner` holds, or that nobody holds, with
    /// no transfer pending.
    pub open spec fn held_by(owner: Option<Seq<char>>) -> OwnershipView {
        OwnershipView { owner, pending_owner: None, pending_expiry: None }
    }

    /// The record after the holder proposed `new_owner`, who may accept
    /// until `expiry`.
    pub open spec fn propose(self, new_owner: Seq<char>, expiry: Option<Expiration>) -> OwnershipView {
        OwnershipView { pending_owner: Some(new_owner), pending_expiry: expiry, ..self }
    }

    /// The record after the proposed identity accepted.
    pub open spec fn accept(self) -> OwnershipView {
        Self::held_by(self.pending_owner)
    }

    /// Whether the pending transfer has reached its expiry in a block of the
    /// given height and time.
    pub open spec fn pending_expired(self, height: u64, time: u64) -> bool {
        match self.pending_expiry {
            Some(e) => e.expired_at(height, time),
            None => false,
        }
    }
}

/// The record of a role.
#[derive(Debug, PartialEq, Eq)]
pub struct Ownership {
    /// The identity that holds the role. `None` after the role was given up.
    pub owner: Option<String>,
    /// The identity that the role was proposed to, if a transfer is pending.
    pub pending_owner: Option<String>,
    /// Until when the proposed identity may accept. `None` if no transfer
    /// is pending or the pending one has no deadline.
    pub pending_expiry: Option<Expiration>,
}

impl View for Ownership {
    type V = OwnershipView;

    open spec fn view(&self) -> OwnershipView {
        OwnershipView {
            owner: opt_text(self.owner),
            pending_owner: opt_text(self.pending_owner),
            pending_expiry: self.pending_expiry,
        }
    }
}

impl Clone for Ownership {
    fn clone(&self) -> (r: Self)
        ensures
            r@ == self@,
    {
        Ownership {
            owner: copy_opt_text(&self.owner),
            pending_owner: copy_opt_text(&self.pending_owner),
            pending_expiry: self.pending_expiry,
        }
    }
}

/// What optional ownership stands for.
pub open spec fn opt_ownership(o: Option<Ownership>) -> Option<OwnershipView> {
    match o {
        Some(x) => Some(x@),
        None => None,
    }
}

/// What can be done to the record of a role.
#[derive(Debug, PartialEq, Eq)]
pub enum Action {
    /// The holder proposes the role to `new_owner`, who may accept until
    /// `expiry`. A transfer that was pending is overwritten.
    TransferOwnership { new_owner: String, expiry: Option<Expiration> },
    /// The proposed identity accepts the role.
    AcceptOwnership,
    /// The holder gives the role up. Nobody holds it afterwards.
    RenounceOwnership,
}

/// What an `Action` stands for.
pub enum ActionView {
    TransferOwnership { new_owner: Seq<char>, expiry: Option<Expiration> },
    AcceptOwnership,
    RenounceOwnership,
}

impl View for Action {
    type V = ActionView;

    open spec fn view(&self) -> ActionView {
        match self {
            Action::TransferOwnership { new_owner, expiry } => ActionView::TransferOwnership {
                new_owner: new_owner@,
                expiry: *expiry,
            },
            Action::AcceptOwnership => ActionView::AcceptOwnership,
            Action::RenounceOwnership => ActionView::RenounceOwnership,
        }
    }
}

/// What happens when `sender` proposes the role to `new_owner`: the next
/// record, or the kind of the failure.
pub open spec fn propose_outcome(
    state: Option<OwnershipView>,
    sender: Seq<char>,
    new_owner: Seq<char>,
    expiry: Option<Expiration>,
) -> Result<OwnershipView, ErrorKind> {
    match state {
        None => Err(ErrorKind::Uninitialized),
        Some(o) => if o.owner == Some(sender) {
            Ok(o.propose(new_owner, expiry))
        } else {
            Err(ErrorKind::Unauthorized)
        },
    }
}

/// What happens when `sender` accepts the role in a block of the given
/// height and time: the next record, or the kind of the failure.
pub open spec fn accept_outcome(
    state: Option<OwnershipView>,
    sender: Seq<char>,
    height: u64,
    time: u64,
) -> Result<OwnershipView, ErrorKind> {
    match state {
        None => Err(ErrorKind::Uninitialized),
        Some(o) => if o.pending_owner is None {
            Err(ErrorKind::NoPendingTransfer)
        } else if o.pending_owner != Some(sender) {
            Err(ErrorKind::Unauthorized)
        } else if o.pending_expired(height, time) {
            Err(ErrorKind::TransferExpired)
        } else {
            Ok(o.accept())
        },
    }
}

/// What happens when `sender` gives the role up: the next record, or the
/// kind of the failure.
pub open spec fn renounce_outcome(state: Option<OwnershipView>, sender: Seq<char>) -> Result<
    OwnershipView,
    ErrorKind,
> {
    match state {
        None => Err(ErrorKind::Uninitialized),
        Some(o) => if o.owner == Some(sender) {
            Ok(OwnershipView::held_by(None))
        } else {
            Err(ErrorKind::Unauthorized)
        },
    }
}

/// What happens when `sender` takes `action` in a block of the given height
/// and time.
pub open spec fn action_outcome(
    state: Option<OwnershipView>,
    sender: Seq<char>,
    action: ActionView,
    height: u64,
    time: u64,
) -> Result<OwnershipView, ErrorKind> {
    match action {
        ActionView::TransferOwnership { new_owner, expiry } => propose_outcome(
            state,
            sender,
            new_owner,
            expiry,
        ),
        ActionView::AcceptOwnership => accept_outcome(state, sender, height, time),
        ActionView::RenounceOwnership => renounce_outcome(state, sender),
    }
}

/// The store of one role's record, under the role's name.
pub struct OwnershipStore {
    key: String,
    item: Option<Ownership>,
}

impl View for OwnershipStore {
    type V = Option<OwnershipView>;

    closed spec fn view(&self) -> Option<OwnershipView> {
        opt_ownership(self.item)
    }
}

impl OwnershipStore {
    /// The name of the role.
    pub closed spec fn role(&self) -> Seq<char> {
        self.key@
    }

    /// Whether the store moved from `old` to this one as `outcome` says:
    /// to the next record, or not at all together with the failure `r`.
    pub open spec fn follows(
        &self,
        old: &OwnershipStore,
        outcome: Result<OwnershipView, ErrorKind>,
        r: Result<Ownership, ContractError>,
    ) -> bool {
        &&& self.role() == old.role()
        &&& match outcome {
            Ok(next) => self@ == Some(next) && (r matches Ok(o) && o@ == next),
            Err(kind) => self@ == old@ && fails_with(r, kind, old.role()),
        }
    }

    /// The store of the role `key`, before the record was ever set.
    pub fn new(key: &str) -> (r: Self)
        ensures
            r.role() == key@,
            r@ is None,
    {
        OwnershipStore { key: key.to_owned(), item: None }
    }

    /// The store of the role `key` with the record `record`, or without
    /// one.
    pub fn with_record(key: &str, record: Option<Ownership>) -> (r: Self)
        ensures
            r.role() == key@,
            r@ == opt_ownership(record),
    {
        OwnershipStore { key: key.to_owned(), item: record }
    }

    /// The name of the role.
    pub fn key(&self) -> (k: &str)
        ensures
            k@ == self.role(),
    {
        self.key.as_str()
    }

    /// Whether the record was ever set.
    pub fn is_initialized(&self) -> (r: bool)
        ensures
            r == (self@ is Some),
    {
        self.item.is_some()
    }

    /// The record, if it was ever set.
    pub fn may_load(&self) -> (r: Option<&Ownership>)
        ensures
            match r {
                Some(o) => self@ == Some(o@),
                None => self@ is None,
            },
    {
        self.item.as_ref()
    }

    /// Sets the record for the first time: `owner` holds the role, or nobody
    /// does, and no transfer is pending. Fails if the record was set before.
    pub fn initialize(&mut self, owner: Option<&str>) -> (r: Result<Ownership, ContractError>)
        ensures
            final(self).follows(
                old(self),
                if old(self)@ is None {
                    Ok(OwnershipView::held_by(opt_str(owner)))
                } else {
                    Err(ErrorKind::AlreadyInitialized)
                },
                r,
            ),
    {
        if self.item.is_some() {
            return Err(ContractError::new(ErrorKind::AlreadyInitialized, self.key.as_str()));
        }
        Ok(self.initialize_owner(owner))
    }

    /// Sets the record whatever it was before: `owner` holds the role, or
    /// nobody does, and no transfer is pending.
    pub fn initialize_owner(&mut self, owner: Option<&str>) -> (r: Ownership)
        ensures
            final(self).role() == old(self).role(),
            final(self)@ == Some(OwnershipView::held_by(opt_str(owner))),
            r@ == OwnershipView::held_by(opt_str(owner)),
    {
        let owner = match owner {
            Some(o) => Some(o.to_owned()),
            None => None,
        };
        let ownership = Ownership { owner, pending_owner: None, pending_expiry: None };
        let r = ownership.clone();
        self.item = Some(ownership);
        r
    }

    /// The record. Fails if it was never set.
    pub fn get_ownership(&self) -> (r: Result<Ownership, ContractError>)
        ensures
            match self@ {
                Some(o) => r matches Ok(x) && x@ == o,
                None => fails_with(r, ErrorKind::Uninitialized, self.role()),
            },
    {
        match &self.item {
            Some(o) => Ok(o.clone()),
            None => Err(ContractError::new(ErrorKind::Uninitialized, self.key.as_str())),
        }
    }

    /// Whether `addr` holds the role. Fails if the record was never set.
    pub fn is_owner(&self, addr: &str) -> (r: Result<bool, ContractError>)
        ensures
            match self@ {
                Some(o) => r == Ok::<bool, ContractError>(o.owner == Some(addr@)),
                None => fails_with(r, ErrorKind::Uninitialized, self.role()),
            },
    {
        match &self.item {
            Some(o) => Ok(holds(&o.owner, addr)),
            None => Err(ContractError::new(ErrorKind::Uninitialized, self.key.as_str())),
        }
    }

    /// Succeeds if `sender` holds the role. Fails if the record was never
    /// set, or if somebody else or nobody holds the role.
    pub fn assert_owner(&self, sender: &str) -> (r: Result<(), ContractError>)
        ensures
            match self@ {
                Some(o) => if o.owner == Some(sender@) {
                    r is Ok
                } else {
                    fails_with(r, ErrorKind::Unauthorized, self.role())
                },
                None => fails_with(r, ErrorKind::Uninitialized, self.role()),
            },
    {
        match &self.item {
            Some(o) => if holds(&o.owner, sender) {
                Ok(())
            } else {
                Err(ContractError::new(ErrorKind::Unauthorized, self.key.as_str()))
            },
            None => Err(ContractError::new(ErrorKind::Uninitialized, self.key.as_str())),
        }
    }

    /// The holder `sender` proposes the role to `new_owner`, who may accept
    /// until `expiry`.
    pub fn propose_transfer(&mut self, sender: &str, new_owner: &str, expiry: Option<Expiration>) -> (r:
        Result<Ownership, ContractError>)
        ensures
            final(self).follows(old(self), propose_outcome(old(self)@, sender@, new_owner@, expiry), r),
    {
        let next = match &self.item {
            None => {
                return Err(ContractError::new(ErrorKind::Uninitialized, self.key.as_str()));
            },
            Some(o) => {
                if !holds(&o.owner, sender) {
                    return Err(ContractError::new(ErrorKind::Unauthorized, self.key.as_str()));
                }
                Ownership {
                    owner: copy_opt_text(&o.owner),
                    pending_owner: Some(new_owner.to_owned()),
                    pending_expiry: expiry,
                }
            },
        };
        let r = next.clone();
        self.item = Some(next);
        Ok(r)
    }

    /// The proposed identity `sender` accepts the role in `block`.
    pub fn accept_transfer(&mut self, sender: &str, block: &BlockInfo) -> (r: Result<
        Ownership,
        ContractError,
    >)
        ensures
            final(self).follows(
                old(self),
                accept_outcome(old(self)@, sender@, block.height, block.time),
                r,
            ),
    {
        let next = match &self.item {
            None => {
                return Err(ContractError::new(ErrorKind::Uninitialized, self.key.as_str()));
            },
            Some(o) => {
                if o.pending_owner.is_none() {
                    return Err(
                        ContractError::new(ErrorKind::NoPendingTransfer, self.key.as_str()),
                    );
                }
                if !holds(&o.pending_owner, sender) {
                    return Err(ContractError::new(ErrorKind::Unauthorized, self.key.as_str()));
                }
                let expired = match &o.pending_expiry {
                    Some(e) => e.is_expired(block),
                    None => false,
                };
                if expired {
                    return Err(ContractError::new(ErrorKind::TransferExpired, self.key.as_str()));
                }
                Ownership {
                    owner: copy_opt_text(&o.pending_owner),
                    pending_owner: None,
                    pending_expiry: None,
                }
            },
        };
        let r = next.clone();
        self.item = Some(next);
        Ok(r)
    }

    /// The holder `sender` gives the role up.
    pub fn renounce(&mut self, sender: &str) -> (r: Result<Ownership, ContractError>)
        ensures
            final(self).follows(old(self), renounce_outcome(old(self)@, sender@), r),
    {
        match &self.item {
            None => {
                return Err(ContractError::new(ErrorKind::Uninitialized, self.key.as_str()));
            },
            Some(o) => {
                if !holds(&o.owner, sender) {
                    return Err(ContractError::new(ErrorKind::Unauthorized, self.key.as_str()));
                }
            },
        }
        let next = Ownership { owner: None, pending_owner: None, pending_expiry: None };
        let r = next.clone();
        self.item = Some(next);
        Ok(r)
    }

    /// `sender` takes `action` on the record in `block`.
    pub fn update_ownership(&mut self, block: &BlockInfo, sender: &str, action: Action) -> (r:
        Result<Ownership, ContractError>)
        ensures
            final(self).follows(
                old(self),
                action_outcome(old(self)@, sender@, action@, block.height, block.time),
                r,
            ),
    {
        match action {
            Action::TransferOwnership { new_owner, expiry } => self.propose_transfer(
                sender,
                new_owner.as_str(),
                expiry,
            ),
            Action::AcceptOwnership => self.accept_transfer(sender, block),
            Action::RenounceOwnership => self.renounce(sender),
        }
    }
}

/// What an optional text slice stands for.
pub open spec fn opt_str(o: Option<&str>) -> Option<Seq<char>> {
    match o {
        Some(s) => Some(s@),
        None => None,
    }
}

/// Whether `holder` is `who`.
fn holds(holder: &Option<String>, who: &str) -> (r: bool)
    ensures
        r == (opt_text(*holder) == Some(who@)),
{
    match holder {
        Some(h) => str_equal(h.as_str(), who),
        None => false,
    }
}

/// "none", or the text.
pub open spec fn none_or_text(o: Option<Seq<char>>) -> Seq<char> {
    match o {
        Some(s) => s,
        None => "none"@,
    }
}

/// The text, or "none" where there is none.
pub fn none_or(or: Option<&String>) -> (r: String)
    ensures
        r@ == none_or_text(
            match or {
                Some(s) => Some(s@),
                None => None,
            },
        ),
{
    match or {
        Some(s) => s.clone(),
        None => "none".to_owned(),
    }
}

} // verus!
