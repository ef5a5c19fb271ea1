//! The protection state machine of the page behind a secret.
//!
//! The machine decides; it performs nothing. For a state and a request it gives
//! the next state and the page operations, in order, that take the page there.
//! Whoever drives the machine carries the operations out and reports how each
//! one went. A failed operation is never recovered from.

use vstd::prelude::*;
use crate::protection::Protection;

verus! {

/// Where the page behind a secret stands in its life.
#[derive(Clone, Copy, Debug, PartialEq, Eq, Structural)]
pub enum PageState {
    /// Allocated, but neither pinned nor protected yet.
    Fresh,
    /// Pinned against swapping, at the given protection level.
    Locked(Protection),
    /// Zeroed, unpinned and given back to the allocator.
    Released,
}

/// What the owner of a secret asks of its page.
#[derive(Clone, Copy, Debug, PartialEq, Eq, Structural)]
pub enum Request {
    /// Take a fresh page into protection.
    Construct,
    /// Make the secret readable.
    Read,
    /// Make the secret readable and writable.
    Write,
    /// Withdraw all access.
    EndAccess,
    /// Erase the secret and give the page up.
    Destroy,
}

/// One operation on the page, to be carried out by the driver of the machine.
#[derive(Clone, Copy, Debug, PartialEq, Eq, Structural)]
pub enum PageOp {
    /// Pin the page so that it is never written to swap.
    Pin,
    /// Set the page's protection to the given level.
    Protect(Protection),
    /// Overwrite every byte of the secret with zero.
    Wipe,
    /// Undo the pin.
    Unpin,
    /// Return the allocation.
    Free,
}

/// A page operation that the operating system refused.
#[derive(Clone, Copy, Debug, PartialEq, Eq, Structural)]
pub enum IntegrityError {
    /// The page could not be pinned.
    PinFailed,
    /// The page's protection could not be set to the given level.
    ProtectFailed(Protection),
    /// The pin could not be undone.
    UnpinFailed,
}

/// The outcome of an accepted request.
pub struct Transition {
    /// The state after the request.
    pub next: PageState,
    /// The operations that lead there, first to last.
    pub ops: Vec<PageOp>,
}

/// Whether `request` may be made in `state`: a fresh page can only be
/// constructed, a locked page takes every other request, a released page none.
pub open spec fn accepts(state: PageState, request: Request) -> bool {
    match state {
        PageState::Fresh => request == Request::Construct,
        PageState::Locked(_) => request != Request::Construct,
        PageState::Released => false,
    }
}

/// The protection level that a request leaves the page at, or `ReadWrite` for
/// `Destroy`, which needs it to erase the secret.
pub open spec fn target_level(request: Request) -> Protection {
    match request {
        Request::Construct => Protection::NoAccess,
        Request::Read => Protection::ReadOnly,
        Request::Write => Protection::ReadWrite,
        Request::EndAccess => Protection::NoAccess,
        Request::Destroy => Protection::ReadWrite,
    }
}

/// The state that follows `state` on `request`; a request that is not accepted
/// leaves the state as it is.
pub open spec fn next_state(state: PageState, request: Request) -> PageState {
    if !accepts(state, request) {
        state
    } else if request == Request::Destroy {
        PageState::Released
    } else {
        PageState::Locked(target_level(request))
    }
}

/// The operations that move the page's protection from `from` to `to`: none
/// where it is there already.
pub open spec fn reprotect(from: Protection, to: Protection) -> Seq<PageOp> {
    if from == to {
        Seq::empty()
    } else {
        Seq::empty().push(PageOp::Protect(to))
    }
}

/// The page operations, in order, that `request` calls for in `state`.
pub open spec fn page_ops(state: PageState, request: Request) -> Seq<PageOp> {
    match state {
        PageState::Fresh => {
            if request == Request::Construct {
                Seq::empty().push(PageOp::Pin).push(PageOp::Protect(Protection::NoAccess))
            } else {
                Seq::empty()
            }
        },
        PageState::Locked(level) => {
            match request {
                Request::Construct => Seq::empty(),
                Request::Destroy => reprotect(level, Protection::ReadWrite).push(PageOp::Wipe).push(
                    PageOp::Unpin,
                ).push(PageOp::Free),
                _ => reprotect(level, target_level(request)),
            }
        },
        PageState::Released => Seq::empty(),
    }
}

/// Decides `request` in `state`.
///
/// Returns `None` exactly for a request that the state does not accept, and
/// otherwise the next state with the operations that the driver owes the page.
pub fn transition(state: PageState, request: Request) -> (r: Option<Transition>)
    ensures
        r is Some <==> accepts(state, request),
        r matches Some(t) ==> t.next == next_state(state, request) && t.ops@ == page_ops(
            state,
            request,
        ),
{
    match state {
        PageState::Fresh => {
            match request {
                Request::Construct => {
                    let mut ops: Vec<PageOp> = Vec::new();
                    ops.push(PageOp::Pin);
                    ops.push(PageOp::Protect(Protection::NoAccess));
                    Some(Transition { next: PageState::Locked(Protection::NoAccess), ops })
                },
                _ => None,
            }
        },
        PageState::Locked(level) => {
            match request {
                Request::Construct => None,
                Request::Read => Some(settle(level, Protection::ReadOnly)),
                Request::Write => Some(settle(level, Protection::ReadWrite)),
                Request::EndAccess => Some(settle(level, Protection::NoAccess)),
                Request::Destroy => {
                    let mut ops = settle(level, Protection::ReadWrite).ops;
                    ops.push(PageOp::Wipe);
                    ops.push(PageOp::Unpin);
                    ops.push(PageOp::Free);
                    Some(Transition { next: PageState::Released, ops })
                },
            }
        },
        PageState::Released => None,
    }
}

/// Moves a locked page from `from` to `to`.
fn settle(from: Protection, to: Protection) -> (t: Transition)
    ensures
        t.next == PageState::Locked(to),
        t.ops@ == reprotect(from, to),
{
    let mut ops: Vec<PageOp> = Vec::new();
    if from != to {
        ops.push(PageOp::Protect(to));
    }
    Transition { next: PageState::Locked(to), ops }
}

impl PageOp {
    /// The error that a refusal of this operation amounts to. Erasing and
    /// freeing are not requests to the operating system and cannot be refused.
    pub open spec fn failure(self) -> Option<IntegrityError> {
        match self {
            PageOp::Pin => Some(IntegrityError::PinFailed),
            PageOp::Protect(level) => Some(IntegrityError::ProtectFailed(level)),
            PageOp::Unpin => Some(IntegrityError::UnpinFailed),
            PageOp::Wipe => None,
            PageOp::Free => None,
        }
    }

    /// Judges the report `succeeded` that the driver brings back for this
    /// operation.
    ///
    /// A refused pin, unpin or change of protection is an error, always: the
    /// secret must not stay in a page that is weaker than promised.
    pub fn verdict(self, succeeded: bool) -> (r: Result<(), IntegrityError>)
        ensures
            r is Err <==> !succeeded && self.failure() is Some,
            r matches Err(e) ==> self.failure() == Some(e),
    {
        if succeeded {
            Ok(())
        } else {
            match self {
                PageOp::Pin => Err(IntegrityError::PinFailed),
                PageOp::Protect(level) => Err(IntegrityError::ProtectFailed(level)),
                PageOp::Unpin => Err(IntegrityError::UnpinFailed),
                PageOp::Wipe => Ok(()),
                PageOp::Free => Ok(()),
            }
        }
    }
}

impl IntegrityError {
    /// The text that names this error.
    pub open spec fn message_text(self) -> Seq<char> {
        match self {
            IntegrityError::PinFailed => "Unable to mlock variable "@,
            IntegrityError::ProtectFailed(_) => "Unable to mprotect variable"@,
            IntegrityError::UnpinFailed => "Unable to munlock variable"@,
        }
    }

    /// The text to abort with when this error occurs.
    pub fn message(&self) -> (text: &'static str)
        ensures
            text@ == self.message_text(),
    {
        match self {
            IntegrityError::PinFailed => "Unable to mlock variable ",
            IntegrityError::ProtectFailed(_) => "Unable to mprotect variable",
            IntegrityError::UnpinFailed => "Unable to munlock variable",
        }
    }
}

} // verus!
