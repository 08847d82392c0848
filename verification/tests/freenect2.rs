use libfreenect2_rs::error::{NativeError, NativeOp};
use libfreenect2_rs::freenect2::{ContextGuard, ContextStep, Freenect2};
use libfreenect2_rs::freenect2_device::NativeOutcome;

fn take(guard: &mut ContextGuard) -> Freenect2 {
    match Freenect2::new(guard) {
        ContextStep::Shared(handle) => handle,
        ContextStep::Create => Freenect2::created(guard, NativeOutcome::Completed).unwrap(),
    }
}

#[test]
fn test_create_freenect2() {
    let mut guard = ContextGuard::new();
    assert!(matches!(Freenect2::new(&mut guard), ContextStep::Create));
    assert!(Freenect2::created(&mut guard, NativeOutcome::Completed).is_ok());
}

#[test]
fn test_multiple() {
    let mut guard = ContextGuard::new();
    {
        let first = take(&mut guard);
        let second = take(&mut guard);

        assert_eq!(first.context_number(), second.context_number());
        assert_eq!(guard.handle_count(), 2);

        assert!(!first.release(&mut guard));
        assert!(Freenect2::has_instance(&guard));

        let third = take(&mut guard);
        assert_eq!(third.context_number(), second.context_number());

        assert!(!second.release(&mut guard));
        assert!(third.release(&mut guard));
    }

    assert!(!Freenect2::has_instance(&guard));

    let fourth = take(&mut guard);
    assert_eq!(fourth.context_number(), 2);
    assert_eq!(guard.contexts_made(), 2);
    assert!(Freenect2::has_instance(&guard));
}

#[test]
fn context_that_cannot_be_made_leaves_no_instance() {
    let mut guard = ContextGuard::new();
    assert_eq!(
        Freenect2::created(&mut guard, NativeOutcome::Raised).unwrap_err(),
        NativeError::NativeCallFailed(NativeOp::CreateContext)
    );
    assert_eq!(
        Freenect2::created(&mut guard, NativeOutcome::Refused).unwrap_err(),
        NativeError::NativeCallFailed(NativeOp::CreateContext)
    );
    assert!(!Freenect2::has_instance(&guard));
    assert_eq!(guard.contexts_made(), 0);
}

#[test]
fn no_second_context_while_one_is_alive() {
    let mut guard = ContextGuard::new();
    let first = take(&mut guard);
    assert_eq!(
        Freenect2::created(&mut guard, NativeOutcome::Completed).unwrap_err(),
        NativeError::InvalidState
    );
    assert_eq!(guard.handle_count(), 1);
    assert_eq!(guard.contexts_made(), 1);
    assert!(first.release(&mut guard));
}

#[test]
fn stale_handle_changes_nothing() {
    let mut guard = ContextGuard::new();
    let mut other = ContextGuard::new();
    let first = take(&mut guard);
    let _one = take(&mut other);
    let _two = take(&mut other);
    assert!(first.release(&mut guard));
    let second = take(&mut guard);
    let stale = take(&mut other);
    assert_eq!(stale.context_number(), 1);
    assert_eq!(second.context_number(), 2);
    assert!(!stale.release(&mut guard));
    assert_eq!(guard.handle_count(), 1);
    assert!(second.release(&mut guard));
    assert!(!Freenect2::has_instance(&guard));
}
