use golem::promise::{PromiseFutureWrapper, PromiseState};
use golem::console::{console_form, to_console_string, ConsoleForm};
use golem::golem_isolate::{
    kept_snapshot, plan_startup, AsyncArgs, GolemIsolate, IsolateOrigin, GolemSnapshot, IsolateCreationError, OwnedScript,
    Script, StartupData,
};
use golem::isolate_core::IsolateCore;

type Isolate = GolemIsolate<u8, String, &'static str>;

#[test]
fn script_without_main_is_refused() {
    let r: Result<Isolate, _> =
        GolemIsolate::try_new(IsolateOrigin::Snapshot, Ok::<(), ()>(()), IsolateCore::new(), None, Some("cache"));
    assert!(matches!(r, Err(IsolateCreationError::NoMain)));
}

#[test]
fn script_that_fails_to_run_is_refused() {
    let r: Result<Isolate, _> =
        GolemIsolate::try_new(IsolateOrigin::Snapshot, Err("SyntaxError"), IsolateCore::new(), Some("main"), None);
    assert!(matches!(r, Err(IsolateCreationError::FailedToCompileCode)));
}

#[test]
fn script_with_main_makes_an_isolate() {
    let snapshot = GolemSnapshot::new(vec![1, 2, 3]);
    let mut g: Isolate = GolemIsolate::try_new(
        IsolateOrigin::Script(snapshot),
        Ok::<(), ()>(()),
        IsolateCore::new(),
        Some("main"),
        None,
    )
    .unwrap();
    assert_eq!(*g.main_handle(), "main");
    assert!(g.cache_handle().is_none());
    let taken = g.take_snapshot().unwrap();
    assert_eq!(taken.as_bytes(), &[1, 2, 3]);
    assert!(g.take_snapshot().is_none());
}

#[test]
fn restored_isolate_keeps_no_snapshot() {
    let mut g: Isolate = GolemIsolate::try_new(
        IsolateOrigin::Snapshot,
        Ok::<(), ()>(()),
        IsolateCore::new(),
        Some("main"),
        Some("cache"),
    )
    .unwrap();
    assert_eq!(g.cache_handle(), Some(&"cache"));
    assert!(g.take_snapshot().is_none());
    assert!(kept_snapshot(IsolateOrigin::Snapshot).is_none());
    let kept = kept_snapshot(IsolateOrigin::Script(GolemSnapshot::new(vec![4]))).unwrap();
    assert_eq!(kept.as_bytes(), &[4]);
}

#[test]
fn isolate_from_snapshot_keeps_handles() {
    let mut g: Isolate = GolemIsolate::new(IsolateCore::new(), "main", Some("cache"));
    assert_eq!(*g.main_handle(), "main");
    assert_eq!(g.cache_handle(), Some(&"cache"));
    assert!(g.take_snapshot().is_none());
    assert_eq!(g.register_op("echo", 1), Ok(1));
    assert_eq!(g.register_json_op("json", 2), Ok(2));
    assert!(g.register_op("echo", 3).is_err());
    assert_eq!(g.core_isolate().op_id_of("json"), Some(2));
    assert!(g.core_isolate_mut().set_recv_callback().is_ok());
}

#[test]
fn snapshot_is_reused_for_many_restores() {
    let snapshot = GolemSnapshot::from_startup_data(&[7, 8, 9, 10]);
    for _ in 0..1000 {
        let copy = snapshot.duplicate();
        assert_eq!(copy.as_bytes(), snapshot.as_bytes());
        let g: Isolate = GolemIsolate::new(IsolateCore::new(), "main", None);
        assert_eq!(*g.main_handle(), "main");
    }
    assert_eq!(snapshot.clone().as_bytes(), &[7, 8, 9, 10]);
}

#[test]
fn snapshot_size_fits_the_engine() {
    let snapshot = GolemSnapshot::new(vec![0; 5]);
    assert_eq!(snapshot.startup_size(), Ok(5));
    assert_eq!(GolemSnapshot::new(Vec::new()).startup_size(), Ok(0));
}

#[test]
fn startup_plans() {
    let script = Script { source: "function main(s, m) { return s + m; }", filename: "test.js" };
    let plan = plan_startup(StartupData::Script(script));
    assert!(plan.record_snapshot && plan.install_bindings && plan.snapshot.is_none());
    assert_eq!(plan.script.unwrap().filename, "test.js");

    let blob: [u8; 3] = [1, 2, 3];
    let plan = plan_startup(StartupData::Snapshot(&blob));
    assert!(!plan.record_snapshot && !plan.install_bindings && plan.script.is_none());
    assert_eq!(plan.snapshot, Some(&blob[..]));

    let plan = plan_startup(StartupData::Empty);
    assert!(!plan.record_snapshot && plan.install_bindings);
    assert!(plan.script.is_none() && plan.snapshot.is_none());
}

#[test]
fn owned_script_copies_text() {
    let script = Script { source: "main", filename: "a.js" };
    let owned = OwnedScript::from_script(&script);
    assert_eq!(owned.source, "main");
    assert_eq!(owned.filename, "a.js");
}

#[test]
fn async_args_without_promise_are_sync() {
    assert!(AsyncArgs::new(None).is_sync());
    let args = AsyncArgs::new(Some(4));
    assert!(!args.is_sync());
    assert_eq!(args.promise_id, Some(4));
}

#[test]
fn console_line_joins_with_spaces() {
    let parts = vec![Some("hello".to_string()), Some("{\"a\":1}".to_string()), Some("3".to_string())];
    assert_eq!(to_console_string(&parts), "hello {\"a\":1} 3");
    assert_eq!(to_console_string(&Vec::new()), "");
    assert_eq!(to_console_string(&vec![Some("one".to_string())]), "one");
    assert_eq!(to_console_string(&vec![Some("a".to_string()), None, Some("b".to_string())]), "a  b");
}

#[test]
fn objects_and_arrays_are_written_as_json() {
    assert_eq!(console_form(true, false), ConsoleForm::Json);
    assert_eq!(console_form(false, true), ConsoleForm::Json);
    assert_eq!(console_form(true, true), ConsoleForm::Json);
    assert_eq!(console_form(false, false), ConsoleForm::Plain);
}

#[test]
fn promise_wrapper_settles_with_the_promise() {
    let w = PromiseFutureWrapper::new(42u32);
    assert_eq!(w.poll(PromiseState::Pending), None);
    assert_eq!(w.poll(PromiseState::Fulfilled), Some(Ok(42)));
    assert_eq!(w.poll(PromiseState::Rejected), Some(Err(42)));
}
