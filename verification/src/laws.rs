//! What holds of the protection state machine in every state.

use vstd::prelude::*;
use crate::container::SecretBox;
use crate::erase::Zeroize;
use crate::page::{accepts, next_state, page_ops, target_level, PageOp, PageState, Request};
use crate::protection::Protection;

verus! {

/// Whether `request` asks for access or withdraws it, and so leaves the page
/// alive.
pub open spec fn keeps_alive(request: Request) -> bool {
    request == Request::Read || request == Request::Write || request == Request::EndAccess
}

/// A container's page is locked at every moment of the container's life, and
/// so takes every request but `Construct`.
pub proof fn lemma_container_is_locked<S: Zeroize>(secret: SecretBox<S>, request: Request)
    ensures
        secret.page_state() is Locked,
        accepts(secret.page_state(), request) <==> request != Request::Construct,
{
}

/// A locked page stays locked, hence pinned, under every request but
/// `Destroy`, and all that is done to it is to set its protection: it is never
/// pinned twice, unpinned, erased or freed on the way.
pub proof fn lemma_access_keeps_page_pinned(level: Protection, request: Request)
    requires
        keeps_alive(request),
    ensures
        next_state(PageState::Locked(level), request) == PageState::Locked(target_level(request)),
        forall|i: int|
            0 <= i < page_ops(PageState::Locked(level), request).len() ==> page_ops(
                PageState::Locked(level),
                request,
            )[i] == PageOp::Protect(target_level(request)),
{
}

/// While a grant is in force the page permits what the grant allows: reading
/// after `Read`, reading and writing after `Write`. After `EndAccess` it
/// permits neither.
pub proof fn lemma_grant_is_covered(level: Protection, request: Request)
    requires
        keeps_alive(request),
    ensures
        next_state(PageState::Locked(level), request) matches PageState::Locked(after) && {
            &&& request == Request::Read ==> after.permits_read() && !after.permits_write()
            &&& request == Request::Write ==> after.permits_read() && after.permits_write()
            &&& request == Request::EndAccess ==> !after.permits_read() && !after.permits_write()
        },
{
}

/// Asking twice for the same thing is asking once: the second request changes
/// neither the state nor the page. In particular a second `Read` does not
/// widen the protection beyond `ReadOnly`.
pub proof fn lemma_repeated_request_is_noop(level: Protection, request: Request)
    requires
        keeps_alive(request),
    ensures
        ({
            let once = next_state(PageState::Locked(level), request);
            next_state(once, request) == once && page_ops(once, request) == Seq::<PageOp>::empty()
        }),
{
}

/// A page is destroyed from whatever level it is at. The last three operations
/// are to erase, to unpin and to free, in this order, and before them comes at
/// most the widening to `ReadWrite` that erasing needs.
pub proof fn lemma_destroy_from_any_level(level: Protection)
    ensures
        accepts(PageState::Locked(level), Request::Destroy),
        next_state(PageState::Locked(level), Request::Destroy) == PageState::Released,
        ({
            let ops = page_ops(PageState::Locked(level), Request::Destroy);
            let n = ops.len() as int;
            &&& n == if level == Protection::ReadWrite { 3int } else { 4int }
            &&& ops[n - 3] == PageOp::Wipe
            &&& ops[n - 2] == PageOp::Unpin
            &&& ops[n - 1] == PageOp::Free
            &&& n == 4 ==> ops[0] == PageOp::Protect(Protection::ReadWrite)
        }),
{
}

/// `Released` is final: a released page takes no request and is left as it is
/// by all of them.
pub proof fn lemma_released_is_final(request: Request)
    ensures
        !accepts(PageState::Released, request),
        next_state(PageState::Released, request) == PageState::Released,
        page_ops(PageState::Released, request) == Seq::<PageOp>::empty(),
{
}

/// Construction is the only way out of `Fresh`, and it leads to a pinned page
/// without access: pinning comes first, then the protection.
pub proof fn lemma_construct_locks_without_access(request: Request)
    ensures
        accepts(PageState::Fresh, request) <==> request == Request::Construct,
        next_state(PageState::Fresh, Request::Construct) == PageState::Locked(Protection::NoAccess),
        page_ops(PageState::Fresh, Request::Construct) == seq![
            PageOp::Pin,
            PageOp::Protect(Protection::NoAccess),
        ],
{
}

} // verus!
