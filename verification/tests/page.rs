use secret_box::page::transition;
use secret_box::{IntegrityError, PageOp, PageState, Protection, Request};

const LEVELS: [Protection; 3] = [Protection::NoAccess, Protection::ReadOnly, Protection::ReadWrite];

const REQUESTS: [Request; 5] =
    [Request::Construct, Request::Read, Request::Write, Request::EndAccess, Request::Destroy];

#[test]
fn levels_permit_in_order() {
    assert!(!Protection::NoAccess.can_read());
    assert!(!Protection::NoAccess.can_write());
    assert!(Protection::ReadOnly.can_read());
    assert!(!Protection::ReadOnly.can_write());
    assert!(Protection::ReadWrite.can_read());
    assert!(Protection::ReadWrite.can_write());
}

#[test]
fn construct_pins_then_protects() {
    let step = transition(PageState::Fresh, Request::Construct).unwrap();
    assert_eq!(step.next, PageState::Locked(Protection::NoAccess));
    assert_eq!(step.ops, vec![PageOp::Pin, PageOp::Protect(Protection::NoAccess)]);
}

#[test]
fn fresh_page_takes_nothing_but_construct() {
    for request in REQUESTS {
        let step = transition(PageState::Fresh, request);
        assert_eq!(step.is_some(), request == Request::Construct);
    }
}

#[test]
fn locked_page_takes_all_but_construct() {
    for level in LEVELS {
        for request in REQUESTS {
            let step = transition(PageState::Locked(level), request);
            assert_eq!(step.is_some(), request != Request::Construct);
        }
    }
}

#[test]
fn released_page_takes_nothing() {
    for request in REQUESTS {
        assert!(transition(PageState::Released, request).is_none());
    }
}

#[test]
fn read_goes_to_read_only_from_every_level() {
    let step = transition(PageState::Locked(Protection::NoAccess), Request::Read).unwrap();
    assert_eq!(step.next, PageState::Locked(Protection::ReadOnly));
    assert_eq!(step.ops, vec![PageOp::Protect(Protection::ReadOnly)]);

    let step = transition(PageState::Locked(Protection::ReadWrite), Request::Read).unwrap();
    assert_eq!(step.next, PageState::Locked(Protection::ReadOnly));
    assert_eq!(step.ops, vec![PageOp::Protect(Protection::ReadOnly)]);

    let step = transition(PageState::Locked(Protection::ReadOnly), Request::Read).unwrap();
    assert_eq!(step.next, PageState::Locked(Protection::ReadOnly));
    assert_eq!(step.ops, Vec::<PageOp>::new());
}

#[test]
fn write_goes_to_read_write_from_every_level() {
    let step = transition(PageState::Locked(Protection::NoAccess), Request::Write).unwrap();
    assert_eq!(step.next, PageState::Locked(Protection::ReadWrite));
    assert_eq!(step.ops, vec![PageOp::Protect(Protection::ReadWrite)]);

    let step = transition(PageState::Locked(Protection::ReadOnly), Request::Write).unwrap();
    assert_eq!(step.next, PageState::Locked(Protection::ReadWrite));
    assert_eq!(step.ops, vec![PageOp::Protect(Protection::ReadWrite)]);

    let step = transition(PageState::Locked(Protection::ReadWrite), Request::Write).unwrap();
    assert_eq!(step.next, PageState::Locked(Protection::ReadWrite));
    assert_eq!(step.ops, Vec::<PageOp>::new());
}

#[test]
fn end_access_goes_back_to_no_access() {
    let step = transition(PageState::Locked(Protection::ReadWrite), Request::EndAccess).unwrap();
    assert_eq!(step.next, PageState::Locked(Protection::NoAccess));
    assert_eq!(step.ops, vec![PageOp::Protect(Protection::NoAccess)]);

    let step = transition(PageState::Locked(Protection::ReadOnly), Request::EndAccess).unwrap();
    assert_eq!(step.next, PageState::Locked(Protection::NoAccess));
    assert_eq!(step.ops, vec![PageOp::Protect(Protection::NoAccess)]);

    let step = transition(PageState::Locked(Protection::NoAccess), Request::EndAccess).unwrap();
    assert_eq!(step.next, PageState::Locked(Protection::NoAccess));
    assert_eq!(step.ops, Vec::<PageOp>::new());
}

#[test]
fn repeated_request_owes_the_page_nothing() {
    for level in LEVELS {
        for request in [Request::Read, Request::Write, Request::EndAccess] {
            let once = transition(PageState::Locked(level), request).unwrap();
            let twice = transition(once.next, request).unwrap();
            assert_eq!(twice.next, once.next);
            assert!(twice.ops.is_empty());
        }
    }
}

#[test]
fn destroy_erases_unpins_and_frees() {
    let step = transition(PageState::Locked(Protection::ReadWrite), Request::Destroy).unwrap();
    assert_eq!(step.next, PageState::Released);
    assert_eq!(step.ops, vec![PageOp::Wipe, PageOp::Unpin, PageOp::Free]);
}

#[test]
fn destroy_widens_before_it_erases() {
    for level in [Protection::NoAccess, Protection::ReadOnly] {
        let step = transition(PageState::Locked(level), Request::Destroy).unwrap();
        assert_eq!(step.next, PageState::Released);
        assert_eq!(
            step.ops,
            vec![
                PageOp::Protect(Protection::ReadWrite),
                PageOp::Wipe,
                PageOp::Unpin,
                PageOp::Free
            ]
        );
    }
}

#[test]
fn success_is_never_an_error() {
    for op in [
        PageOp::Pin,
        PageOp::Protect(Protection::NoAccess),
        PageOp::Protect(Protection::ReadOnly),
        PageOp::Protect(Protection::ReadWrite),
        PageOp::Wipe,
        PageOp::Unpin,
        PageOp::Free,
    ] {
        assert_eq!(op.verdict(true), Ok(()));
    }
}

#[test]
fn refused_pin_is_fatal() {
    assert_eq!(PageOp::Pin.verdict(false), Err(IntegrityError::PinFailed));
}

#[test]
fn refused_unpin_is_fatal() {
    assert_eq!(PageOp::Unpin.verdict(false), Err(IntegrityError::UnpinFailed));
}

#[test]
fn refused_protection_is_fatal() {
    for level in LEVELS {
        assert_eq!(
            PageOp::Protect(level).verdict(false),
            Err(IntegrityError::ProtectFailed(level))
        );
    }
}

#[test]
fn erasing_and_freeing_cannot_be_refused() {
    assert_eq!(PageOp::Wipe.verdict(false), Ok(()));
    assert_eq!(PageOp::Free.verdict(false), Ok(()));
}

#[test]
fn errors_name_themselves() {
    assert_eq!(IntegrityError::PinFailed.message(), "Unable to mlock variable ");
    assert_eq!(IntegrityError::UnpinFailed.message(), "Unable to munlock variable");
    assert_eq!(
        IntegrityError::ProtectFailed(Protection::NoAccess).message(),
        "Unable to mprotect variable"
    );
}
