use katex_gdef::protocol::{finish_render, EngineOutput, Error, MacroEnv};
use katex_gdef::worker::{setup_step, EngineSetup, SetupAction, SetupEvent, WorkerGuard};

fn env(pairs: &[(&str, &str)]) -> MacroEnv {
    MacroEnv {
        entries: pairs.iter().map(|(k, v)| (k.to_string(), v.to_string())).collect(),
    }
}

#[test]
fn success_updates_macros_and_yields_markup() {
    let mut macros = env(&[("\\old", "o")]);
    let returned = env(&[("\\old", "o"), ("\\new", "n")]);
    let out = EngineOutput::Success { html: "<span>ok</span>".to_string(), macros: returned };
    let r = finish_render("\\new", out, &mut macros);
    assert_eq!(r.unwrap(), "<span>ok</span>");
    assert_eq!(macros.entries.len(), 2);
    assert_eq!(macros.entries[1], ("\\new".to_string(), "n".to_string()));
}

#[test]
fn failure_updates_macros_and_carries_context() {
    let mut macros = env(&[]);
    let returned = env(&[("\\gdefd", "kept")]);
    let out =
        EngineOutput::Failure { error: "ParseError: boom".to_string(), macros: returned };
    let r = finish_render("\\frac{", out, &mut macros);
    // the macro state at failure time reaches the caller in both places
    assert_eq!(macros.entries, vec![("\\gdefd".to_string(), "kept".to_string())]);
    match r {
        Err(Error::KaTeXError { message, latex, macros: snapshot }) => {
            assert_eq!(message, "ParseError: boom");
            assert_eq!(latex, "\\frac{");
            assert_eq!(snapshot.entries, vec![("\\gdefd".to_string(), "kept".to_string())]);
        },
        _ => panic!("a rejected expression must end in the engine's own error"),
    }
}

#[test]
fn macro_env_duplicate_copies_the_mapping() {
    let original = env(&[("\\a", "1"), ("\\b", "2")]);
    let copy = original.duplicate();
    assert_eq!(copy.entries, original.entries);
}

#[test]
fn only_the_first_claim_wins() {
    let mut guard = WorkerGuard::new();
    assert!(guard.try_claim());
    assert!(!guard.try_claim());
    assert!(!guard.try_claim());
}

#[test]
fn setup_restores_when_a_cache_file_exists() {
    let (s, a) = setup_step(
        EngineSetup::Idle,
        SetupEvent::Begin { cache: true, file_exists: true },
    );
    assert_eq!(s, EngineSetup::Restoring);
    assert_eq!(a, SetupAction::TryRestore);
    let (s, a) = setup_step(s, SetupEvent::RestoreFinished { ok: true });
    assert_eq!(s, EngineSetup::Ready);
    assert_eq!(a, SetupAction::NoAction);
}

#[test]
fn setup_restore_failure_falls_back_to_cold_start() {
    let (s, a) = setup_step(EngineSetup::Restoring, SetupEvent::RestoreFinished { ok: false });
    assert_eq!(s, EngineSetup::ColdStarting { persist: false });
    assert_eq!(a, SetupAction::ColdStart);
    // the fallback cold start does not rewrite the existing file
    let (s, a) = setup_step(s, SetupEvent::ColdFinished { ok: true });
    assert_eq!(s, EngineSetup::Ready);
    assert_eq!(a, SetupAction::NoAction);
}

#[test]
fn setup_persists_a_snapshot_only_when_no_file_existed() {
    let (s, a) = setup_step(
        EngineSetup::Idle,
        SetupEvent::Begin { cache: true, file_exists: false },
    );
    assert_eq!(s, EngineSetup::ColdStarting { persist: true });
    assert_eq!(a, SetupAction::ColdStart);
    let (s, a) = setup_step(s, SetupEvent::ColdFinished { ok: true });
    assert_eq!(s, EngineSetup::Ready);
    assert_eq!(a, SetupAction::PersistSnapshot);
}

#[test]
fn setup_without_cache_never_persists() {
    let (s, a) = setup_step(
        EngineSetup::Idle,
        SetupEvent::Begin { cache: false, file_exists: false },
    );
    assert_eq!(s, EngineSetup::ColdStarting { persist: false });
    assert_eq!(a, SetupAction::ColdStart);
    let (s, a) = setup_step(s, SetupEvent::ColdFinished { ok: true });
    assert_eq!(s, EngineSetup::Ready);
    assert_eq!(a, SetupAction::NoAction);
}

#[test]
fn setup_cold_start_failure_is_reported() {
    let (s, a) = setup_step(
        EngineSetup::ColdStarting { persist: false },
        SetupEvent::ColdFinished { ok: false },
    );
    assert_eq!(s, EngineSetup::Failed);
    assert_eq!(a, SetupAction::ReportFailure);
}
