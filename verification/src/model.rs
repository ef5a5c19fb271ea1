//! A model of the page itself, and the proof that the machine's operations do
//! to it what the machine's states say.

use vstd::prelude::*;
use crate::page::{
    accepts, next_state, page_ops, reprotect, target_level, PageOp, PageState, Request,
};
use crate::protection::Protection;

verus! {

/// What the operating system and the allocator know of a page.
pub struct Page {
    /// Whether the page is pinned against swapping.
    pub pinned: bool,
    /// The page's protection level.
    pub protection: Protection,
    /// Whether every byte of the secret has been zeroed and none written since.
    pub zeroed: bool,
    /// Whether the allocation has been returned.
    pub freed: bool,
}

impl PageOp {
    /// Whether the operation is safe to carry out on `page`.
    ///
    /// Nothing is done to a freed page. Only a pinned page is unpinned, and
    /// only once it holds no secret any more. Erasing needs write access.
    /// A page is freed only zeroed and unpinned.
    pub open spec fn enabled(self, page: Page) -> bool {
        !page.freed && match self {
            PageOp::Pin => true,
            PageOp::Protect(_) => true,
            PageOp::Wipe => page.protection == Protection::ReadWrite,
            PageOp::Unpin => page.pinned && page.zeroed,
            PageOp::Free => !page.pinned && page.zeroed,
        }
    }

    /// The page after the operation.
    pub open spec fn apply(self, page: Page) -> Page {
        match self {
            PageOp::Pin => Page { pinned: true, ..page },
            PageOp::Protect(level) => Page { protection: level, ..page },
            PageOp::Wipe => Page { zeroed: true, ..page },
            PageOp::Unpin => Page { pinned: false, ..page },
            PageOp::Free => Page { freed: true, ..page },
        }
    }
}

/// The page after `ops` have been carried out on `page` in order, or `None`
/// where one of them is reached in a page on which it is not enabled.
pub open spec fn run(ops: Seq<PageOp>, page: Page) -> Option<Page>
    decreases ops.len(),
{
    if ops.len() == 0 {
        Some(page)
    } else {
        match run(ops.drop_last(), page) {
            Some(before) => if ops.last().enabled(before) {
                Some(ops.last().apply(before))
            } else {
                None
            },
            None => None,
        }
    }
}

/// Whether `page` is what `state` says it is.
pub open spec fn models(page: Page, state: PageState) -> bool {
    match state {
        PageState::Fresh => !page.pinned && page.protection == Protection::ReadWrite
            && !page.freed,
        PageState::Locked(level) => page.pinned && page.protection == level && !page.freed,
        PageState::Released => !page.pinned && page.zeroed && page.freed,
    }
}

/// Running one more operation after `ops` is running `ops` and then that one.
pub proof fn lemma_run_push(ops: Seq<PageOp>, op: PageOp, page: Page)
    ensures
        run(ops.push(op), page) == match run(ops, page) {
            Some(before) => if op.enabled(before) {
                Some(op.apply(before))
            } else {
                None
            },
            None => None,
        },
{
    assert(ops.push(op).drop_last() =~= ops);
}

/// Changing a live page's protection always goes through and changes nothing
/// else.
pub proof fn lemma_reprotect_runs(from: Protection, to: Protection, page: Page)
    requires
        !page.freed,
        page.protection == from,
    ensures
        run(reprotect(from, to), page) == Some(Page { protection: to, ..page }),
{
    if from != to {
        lemma_run_push(Seq::empty(), PageOp::Protect(to), page);
    }
}

/// The machine is sound for the page: in a page that is what the state says,
/// the operations of an accepted request can all be carried out, in their
/// order, and leave the page as the next state says.
pub proof fn lemma_transition_refines(page: Page, state: PageState, request: Request)
    requires
        accepts(state, request),
        models(page, state),
    ensures
        run(page_ops(state, request), page) matches Some(after) && models(
            after,
            next_state(state, request),
        ),
{
    match state {
        PageState::Fresh => {
            let pin = Seq::<PageOp>::empty().push(PageOp::Pin);
            lemma_run_push(Seq::empty(), PageOp::Pin, page);
            lemma_run_push(pin, PageOp::Protect(Protection::NoAccess), page);
        },
        PageState::Locked(level) => {
            if request == Request::Destroy {
                let widen = reprotect(level, Protection::ReadWrite);
                lemma_reprotect_runs(level, Protection::ReadWrite, page);
                lemma_run_push(widen, PageOp::Wipe, page);
                lemma_run_push(widen.push(PageOp::Wipe), PageOp::Unpin, page);
                lemma_run_push(widen.push(PageOp::Wipe).push(PageOp::Unpin), PageOp::Free, page);
            } else {
                lemma_reprotect_runs(level, target_level(request), page);
            }
        },
        PageState::Released => {},
    }
}

} // verus!
