use ollama_chat::bootstrap::Bootstrap;
use ollama_chat::bootstrap::PLUGIN_COUNT;
use ollama_chat::bootstrap::Phase;
use ollama_chat::bootstrap::bootstrap;
use ollama_chat::bootstrap::fatal_message;
use ollama_chat::get_migrations;
use ollama_chat::greet;
use ollama_chat::migrations::MigrationKind;
use ollama_chat::migrations::database_url;

#[test]
fn greet_world() {
    assert_eq!(greet("World"), "Hello, World! You've been greeted from Rust!");
}

#[test]
fn greet_empty_name() {
    assert_eq!(greet(""), "Hello, ! You've been greeted from Rust!");
}

#[test]
fn greet_arbitrary_names() {
    assert_eq!(greet("Alice"), "Hello, Alice! You've been greeted from Rust!");
    assert_eq!(
        greet("two words"),
        "Hello, two words! You've been greeted from Rust!"
    );
    assert_eq!(
        greet("punctuation!?"),
        "Hello, punctuation!?! You've been greeted from Rust!"
    );
}

#[test]
fn registry_has_exactly_the_initial_migration() {
    let ms = get_migrations();
    assert_eq!(ms.len(), 1);
    assert_eq!(ms[0].version, 1);
    assert_eq!(ms[0].description, "Initial migration");
    assert!(!ms[0].description.is_empty());
    assert!(!ms[0].sql.is_empty());
    assert!(ms[0].kind == MigrationKind::Up);
}

#[test]
fn registry_schema_mentions_both_tables() {
    let ms = get_migrations();
    assert!(ms[0].sql.contains("CREATE TABLE IF NOT EXISTS chats"));
    assert!(ms[0].sql.contains("CREATE TABLE IF NOT EXISTS messages"));
}

#[test]
fn database_url_names_the_store() {
    assert_eq!(database_url(), "sqlite:ollama-chat.db");
}

#[test]
fn bootstrap_all_plugins_ok_reaches_running() {
    let outcomes = vec![true, true, true];
    let b = bootstrap(&outcomes);
    assert_eq!(b.current_phase(), Phase::Running);
    assert!(!b.has_failed());
    assert_eq!(b.registered_count(), PLUGIN_COUNT);
}

#[test]
fn bootstrap_failed_plugin_reaches_fatal_path() {
    let cases = vec![
        vec![false, true, true],
        vec![true, false, true],
        vec![true, true, false],
        vec![false, false, false],
    ];
    for outcomes in cases {
        let b = bootstrap(&outcomes);
        assert_eq!(b.current_phase(), Phase::Stopped);
        assert!(b.has_failed());
        assert_ne!(b.current_phase(), Phase::Running);
    }
}

#[test]
fn fresh_bootstrap_is_initializing() {
    let b = Bootstrap::new();
    assert_eq!(b.current_phase(), Phase::Initializing);
    assert_eq!(b.registered_count(), 0);
    assert!(!b.has_failed());
}

#[test]
fn stepwise_registration_then_start() {
    let mut b = Bootstrap::new();
    b.plugin_registered(true);
    b.plugin_registered(true);
    b.plugin_registered(true);
    assert_eq!(b.registered_count(), 3);
    assert_eq!(b.current_phase(), Phase::Initializing);
    b.start();
    assert_eq!(b.current_phase(), Phase::Running);
    assert!(!b.has_failed());
}

#[test]
fn registration_failure_is_fatal_at_once() {
    let mut b = Bootstrap::new();
    b.plugin_registered(true);
    b.plugin_registered(false);
    assert_eq!(b.current_phase(), Phase::Stopped);
    assert!(b.has_failed());
    assert_eq!(b.registered_count(), 1);
}

#[test]
fn normal_shutdown_is_not_fatal() {
    let outcomes = vec![true, true, true];
    let mut b = bootstrap(&outcomes);
    b.stop(true);
    assert_eq!(b.current_phase(), Phase::Stopped);
    assert!(!b.has_failed());
}

#[test]
fn run_loop_error_is_fatal() {
    let outcomes = vec![true, true, true];
    let mut b = bootstrap(&outcomes);
    b.stop(false);
    assert_eq!(b.current_phase(), Phase::Stopped);
    assert!(b.has_failed());
}

#[test]
fn fatal_message_is_descriptive() {
    assert_eq!(fatal_message(), "error while running tauri application");
}
