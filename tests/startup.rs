use todo_app::scope::FsScope;
use todo_app::shell::{Builder, Capability, Command, SetupError};

fn standard() -> Builder {
    Builder::new()
        .plugin(Capability::FsScope)
        .plugin(Capability::Opener)
        .invoke_handler(vec![Command::Greet])
}

#[test]
fn setup_permits_only_the_data_directory() {
    let app = standard().setup().ok().expect("setup succeeds");
    let allowed = app.fs_scope().allowed();
    assert_eq!(allowed.len(), 1);
    assert_eq!(allowed[0].path, "tauri-todo/data");
    assert!(!allowed[0].recursive);
    assert!(app.fs_scope().is_allowed("tauri-todo/data", false));
    assert!(!app.fs_scope().is_allowed("tauri-todo/data", true));
    assert!(!app.fs_scope().is_allowed("tauri-todo", false));
}

#[test]
fn setup_fails_without_fs_scope() {
    let b = Builder::new()
        .plugin(Capability::Opener)
        .invoke_handler(vec![Command::Greet]);
    assert_eq!(b.setup().err(), Some(SetupError::FsScopeUnavailable));
}

#[test]
fn setup_fails_with_nothing_registered() {
    assert_eq!(Builder::new().setup().err(), Some(SetupError::FsScopeUnavailable));
}

#[test]
fn setup_rejects_duplicate_command_names() {
    let b = Builder::new()
        .plugin(Capability::FsScope)
        .invoke_handler(vec![Command::Greet, Command::Greet]);
    assert_eq!(b.setup().err(), Some(SetupError::DuplicateCommand));
}

#[test]
fn builder_keeps_registration_order() {
    let b = standard();
    assert_eq!(b.plugins, vec![Capability::FsScope, Capability::Opener]);
    assert_eq!(b.commands, vec![Command::Greet]);
}

#[test]
fn invoke_dispatches_greet() {
    let app = standard().setup().ok().expect("setup succeeds");
    assert_eq!(
        app.invoke("greet", "World"),
        Some("Hello, World! You've been greeted from Rust!".to_string())
    );
}

#[test]
fn invoke_unknown_command_answers_nothing() {
    let app = standard().setup().ok().expect("setup succeeds");
    assert_eq!(app.invoke("Greet", "World"), None);
    assert_eq!(app.invoke("", "World"), None);
}

#[test]
fn invoke_without_commands_answers_nothing() {
    let app = Builder::new().plugin(Capability::FsScope).setup().ok().expect("setup succeeds");
    assert_eq!(app.invoke("greet", "World"), None);
}

#[test]
fn command_name_and_run() {
    assert_eq!(Command::Greet.name(), "greet");
    assert_eq!(Command::Greet.run("x"), "Hello, x! You've been greeted from Rust!");
}

#[test]
fn scope_grants_each_permission_once() {
    let mut s = FsScope::new();
    assert!(s.allowed().is_empty());
    s.allow_directory("a/b", false);
    s.allow_directory("a/b", false);
    s.allow_directory("a/b", true);
    let allowed = s.allowed();
    assert_eq!(allowed.len(), 2);
    assert_eq!(allowed[0].path, "a/b");
    assert!(!allowed[0].recursive);
    assert_eq!(allowed[1].path, "a/b");
    assert!(allowed[1].recursive);
    assert!(s.is_allowed("a/b", true));
    assert!(!s.is_allowed("a", true));
}

#[test]
fn scope_entry_duplicate_copies() {
    let mut s = FsScope::new();
    s.allow_directory("x", true);
    let e = s.allowed()[0].duplicate();
    assert_eq!(e.path, "x");
    assert!(e.recursive);
}
