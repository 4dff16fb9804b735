use ejsr::loader::bootstrap_source;
use ejsr::loader::console_source;
use ejsr::loader::crypto_source;
use ejsr::loader::fetch_source;
use ejsr::loader::finish_file_load;
use ejsr::loader::fs_source;
use ejsr::loader::load_internal;
use ejsr::loader::plan_load;
use ejsr::loader::timer_source;
use ejsr::loader::LoadError;
use ejsr::loader::LoadPlan;
use ejsr::loader::ModuleKind;

#[test]
fn every_compiled_in_module_loads() {
    assert_eq!(load_internal("index.js").unwrap(), bootstrap_source());
    assert_eq!(load_internal("modules/console.js").unwrap(), console_source());
    assert_eq!(load_internal("modules/fetch.js").unwrap(), fetch_source());
    assert_eq!(load_internal("modules/fs.js").unwrap(), fs_source());
    assert_eq!(load_internal("modules/timer.js").unwrap(), timer_source());
    assert_eq!(load_internal("modules/crypto.js").unwrap(), crypto_source());
}

#[test]
fn unknown_internal_path_is_not_found_and_named() {
    let e = load_internal("modules/evil.js").unwrap_err();
    assert_eq!(e, LoadError::NotFound(String::from("modules/evil.js")));
}

#[test]
fn near_miss_internal_path_is_not_found() {
    let e = load_internal("modules/console").unwrap_err();
    assert_eq!(e, LoadError::NotFound(String::from("modules/console")));
    let e = load_internal("index.js/").unwrap_err();
    assert_eq!(e, LoadError::NotFound(String::from("index.js/")));
}

#[test]
fn internal_specifier_is_answered_from_the_compiled_in_set() {
    match plan_load("ejsr:runtime/modules/fs.js") {
        LoadPlan::Loaded(m) => {
            assert_eq!(m.specifier, "ejsr:runtime/modules/fs.js");
            assert_eq!(m.source, fs_source());
            assert_eq!(m.kind, ModuleKind::Script);
        }
        other => panic!("expected a compiled-in module, got {:?}", other),
    }
}

#[test]
fn internal_specifier_off_the_set_is_refused() {
    match plan_load("ejsr:runtime/modules/evil.js") {
        LoadPlan::Refused(LoadError::NotFound(p)) => assert_eq!(p, "modules/evil.js"),
        other => panic!("expected a not-found refusal, got {:?}", other),
    }
}

#[test]
fn file_specifier_is_planned_as_a_read() {
    match plan_load("file:///tmp/app/main.js") {
        LoadPlan::ReadFile(p) => assert_eq!(p, "/tmp/app/main.js"),
        other => panic!("expected a filesystem read, got {:?}", other),
    }
}

#[test]
fn remote_specifier_cannot_denote_a_local_path() {
    match plan_load("https://example.com/lib.js") {
        LoadPlan::Refused(LoadError::InvalidPath(s)) => {
            assert_eq!(s, "https://example.com/lib.js")
        }
        other => panic!("expected an invalid-path refusal, got {:?}", other),
    }
}

#[test]
fn finished_read_becomes_the_module_source() {
    let m = finish_file_load("file:///tmp/a.js", Ok(String::from("export {};\n"))).unwrap();
    assert_eq!(m.specifier, "file:///tmp/a.js");
    assert_eq!(m.source, "export {};\n");
    assert_eq!(m.kind, ModuleKind::Script);
}

#[test]
fn failed_read_surfaces_the_os_message() {
    let e = finish_file_load("file:///tmp/a.js", Err(String::from("No such file or directory")))
        .unwrap_err();
    assert_eq!(e, LoadError::Io(String::from("No such file or directory")));
}

#[test]
fn loading_is_idempotent() {
    assert_eq!(load_internal("modules/timer.js"), load_internal("modules/timer.js"));
    let a = plan_load("ejsr:runtime/index.js");
    let b = plan_load("ejsr:runtime/index.js");
    assert_eq!(a, b);
}

#[test]
fn load_failures_render_their_messages() {
    let e = LoadError::NotFound(String::from("modules/evil.js"));
    assert_eq!(e.message(), "internal module 'modules/evil.js' does not exist");
    let e = LoadError::InvalidPath(String::from("https://example.com/x.js"));
    assert_eq!(e.message(), "cannot turn 'https://example.com/x.js' into a file path");
    let e = LoadError::Io(String::from("Permission denied"));
    assert_eq!(e.message(), "Permission denied");
}
