use scoped_ref::{
    Backend, ConfigError, Policy, RetireAction, Selection, Teardown, Unwind,
};

fn none() -> Selection {
    Selection {
        runtime_none: false,
        runtime_tokio: false,
        drop_does_block: false,
        drop_does_abort: false,
        unsafe_drop_does_panic: false,
        unsafe_drop_does_nothing: false,
        unwind_does_abort: false,
        unsafe_ignore_unwind: false,
    }
}

fn defaults() -> Selection {
    Selection { runtime_tokio: true, drop_does_block: true, unwind_does_abort: true, ..none() }
}

#[test]
fn default_selection_is_the_default_policy() {
    let policy = Policy::from_selection(&defaults());
    assert_eq!(
        policy,
        Ok(Policy {
            backend: Backend::Cooperative,
            teardown: Teardown::Block,
            unwind: Unwind::Abort
        })
    );
    assert_eq!(policy, Ok(Policy::default()));
    assert_eq!(Policy::default().to_selection(), defaults());
}

#[test]
fn every_policy_is_selected_by_its_own_flags() {
    for backend in [Backend::Blocking, Backend::Cooperative] {
        for teardown in [Teardown::Block, Teardown::Abort, Teardown::Panic, Teardown::Ignore] {
            for unwind in [Unwind::Abort, Unwind::Ignore] {
                let policy = Policy { backend, teardown, unwind };
                let selection = policy.to_selection();
                assert_eq!(selection.runtime_none, backend == Backend::Blocking);
                assert_eq!(selection.runtime_tokio, backend == Backend::Cooperative);
                assert_eq!(selection.drop_does_block, teardown == Teardown::Block);
                assert_eq!(selection.drop_does_abort, teardown == Teardown::Abort);
                assert_eq!(selection.unsafe_drop_does_panic, teardown == Teardown::Panic);
                assert_eq!(selection.unsafe_drop_does_nothing, teardown == Teardown::Ignore);
                assert_eq!(selection.unwind_does_abort, unwind == Unwind::Abort);
                assert_eq!(selection.unsafe_ignore_unwind, unwind == Unwind::Ignore);
                assert_eq!(Policy::from_selection(&selection), Ok(policy));
            }
        }
    }
}

#[test]
fn a_group_without_a_flag_is_refused() {
    assert_eq!(Policy::from_selection(&none()), Err(ConfigError::NoBackend));
    assert_eq!(
        Policy::from_selection(&Selection { runtime_tokio: false, ..defaults() }),
        Err(ConfigError::NoBackend)
    );
    assert_eq!(
        Policy::from_selection(&Selection { drop_does_block: false, ..defaults() }),
        Err(ConfigError::NoTeardown)
    );
    assert_eq!(
        Policy::from_selection(&Selection { unwind_does_abort: false, ..defaults() }),
        Err(ConfigError::NoUnwind)
    );
    assert_eq!(
        Policy::from_selection(&Selection { runtime_none: true, ..none() }),
        Err(ConfigError::NoTeardown)
    );
}

#[test]
fn a_group_with_two_flags_is_refused() {
    assert_eq!(
        Policy::from_selection(&Selection { runtime_none: true, ..defaults() }),
        Err(ConfigError::ConflictingBackends)
    );
    assert_eq!(
        Policy::from_selection(&Selection { drop_does_abort: true, ..defaults() }),
        Err(ConfigError::ConflictingTeardowns)
    );
    assert_eq!(
        Policy::from_selection(&Selection {
            unsafe_drop_does_panic: true,
            unsafe_drop_does_nothing: true,
            drop_does_block: false,
            ..defaults()
        }),
        Err(ConfigError::ConflictingTeardowns)
    );
    assert_eq!(
        Policy::from_selection(&Selection { unsafe_ignore_unwind: true, ..defaults() }),
        Err(ConfigError::ConflictingUnwinds)
    );
}

#[test]
fn the_first_bad_group_names_the_error() {
    let all = Selection {
        runtime_none: true,
        runtime_tokio: true,
        drop_does_block: true,
        drop_does_abort: true,
        unsafe_drop_does_panic: true,
        unsafe_drop_does_nothing: true,
        unwind_does_abort: true,
        unsafe_ignore_unwind: true,
    };
    assert_eq!(Policy::from_selection(&all), Err(ConfigError::ConflictingBackends));
    assert_eq!(
        Policy::from_selection(&Selection { runtime_none: false, ..all }),
        Err(ConfigError::ConflictingTeardowns)
    );
    assert_eq!(
        Policy::from_selection(&Selection {
            runtime_none: false,
            drop_does_block: false,
            drop_does_abort: false,
            unsafe_drop_does_panic: false,
            unsafe_drop_does_nothing: false,
            ..all
        }),
        Err(ConfigError::NoTeardown)
    );
    assert_eq!(
        Policy::from_selection(&Selection {
            runtime_tokio: false,
            drop_does_abort: false,
            unsafe_drop_does_panic: false,
            unsafe_drop_does_nothing: false,
            ..all
        }),
        Err(ConfigError::ConflictingUnwinds)
    );
}

#[test]
fn config_errors_are_put_into_words() {
    assert_eq!(
        ConfigError::NoBackend.message(),
        "At least one of these features must be enabled in the `scoped-ref` crate: \"runtime-none\" or \"runtime-tokio\""
    );
    assert_eq!(
        ConfigError::ConflictingBackends.message(),
        "Only one of these features may be enabled in the `scoped-ref` crate: \"runtime-none\" or \"runtime-tokio\" (be sure to check default features)"
    );
    assert_eq!(
        ConfigError::NoTeardown.message(),
        "At least one of these features must be enabled in the `scoped-ref` crate: \"drop-does-block\", \"drop-does-abort\", \"unsafe-drop-does-panic\", or \"unsafe-drop-does-nothing\""
    );
    assert_eq!(
        ConfigError::ConflictingTeardowns.message(),
        "Only one of these features may be enabled in the `scoped-ref` crate: \"drop-does-block\", \"drop-does-abort\", \"unsafe-drop-does-panic\", or \"unsafe-drop-does-nothing\" (be sure to check default features)"
    );
    assert_eq!(
        ConfigError::NoUnwind.message(),
        "At least one of these features must be enabled in the `scoped-ref` crate: \"unwind-does-abort\" or \"unsafe-ignore-unwind\""
    );
    assert_eq!(
        ConfigError::ConflictingUnwinds.message(),
        "Only one of these features may be enabled in the `scoped-ref` crate: \"unwind-does-abort\" or \"unsafe-ignore-unwind\" (be sure to check default features)"
    );
}

#[test]
fn teardown_decides_only_while_guards_are_out() {
    for backend in [Backend::Blocking, Backend::Cooperative] {
        for unwind in [Unwind::Abort, Unwind::Ignore] {
            let cases = [
                (Teardown::Block, RetireAction::Wait),
                (Teardown::Abort, RetireAction::AbortOutstanding),
                (Teardown::Panic, RetireAction::PanicOutstanding),
                (Teardown::Ignore, RetireAction::Proceed),
            ];
            for (teardown, with_guards) in cases {
                let policy = Policy { backend, teardown, unwind };
                assert_eq!(policy.on_retire(false, false), RetireAction::Proceed);
                assert_eq!(policy.on_retire(false, true), with_guards);
            }
        }
    }
}

#[test]
fn unwinding_aborts_unless_it_is_ignored() {
    for teardown in [Teardown::Block, Teardown::Abort, Teardown::Panic, Teardown::Ignore] {
        let strict = Policy { backend: Backend::Blocking, teardown, unwind: Unwind::Abort };
        assert_eq!(strict.on_retire(true, false), RetireAction::AbortUnwinding);
        assert_eq!(strict.on_retire(true, true), RetireAction::AbortUnwinding);
        let lenient = Policy { backend: Backend::Blocking, teardown, unwind: Unwind::Ignore };
        assert_eq!(lenient.on_retire(true, false), lenient.on_retire(false, false));
        assert_eq!(lenient.on_retire(true, true), lenient.on_retire(false, true));
    }
}

#[test]
fn fatal_actions_are_put_into_words() {
    assert_eq!(RetireAction::Proceed.message(), None);
    assert_eq!(RetireAction::Wait.message(), None);
    assert_eq!(
        RetireAction::AbortUnwinding.message(),
        Some("Program must be aborted due to a `ScopedRef` being dropped on unwind.")
    );
    assert_eq!(
        RetireAction::AbortOutstanding.message(),
        Some("Attempting to drop a `ScopedRef` while it still has active guards")
    );
    assert_eq!(
        RetireAction::PanicOutstanding.message(),
        Some("Attempting to drop a `ScopedRef` while it still has active guards")
    );
}

#[test]
fn only_the_cooperative_backend_needs_a_runtime() {
    assert!(Backend::Blocking.runtime_suffices(false));
    assert!(Backend::Blocking.runtime_suffices(true));
    assert!(!Backend::Cooperative.runtime_suffices(false));
    assert!(Backend::Cooperative.runtime_suffices(true));
}
