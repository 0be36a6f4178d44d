use boop::actor::{
    after_construct, read_reply, worker_action, ActorState, CallError, ExecutorJob, WorkerAction,
};
use boop::config::{Config, EditorConfig};
use boop::edit::{join_fragments, plan_edit, status_notification, BufferEdit};
use boop::executor::{ExecutionStatus, ExecutorError, TextReplacement};
use boop::module::{
    module_outcome, require_source, resolve_module, wrap_module, LoadError, Lookup, ModuleLocation,
};
use boop::text::{text_less, StringExt};

#[test]
fn internal_module_path() {
    let r = resolve_module("@boop/non-existant");
    assert_eq!(r.path, "@boop/non-existant.js");
    assert_eq!(r.location, ModuleLocation::Internal("lib/non-existant.js".to_string()));
    assert_eq!(
        LoadError::NoInternalScript(r.path).message(),
        "No internal script with path \"@boop/non-existant.js\""
    );
}

#[test]
fn external_module_path() {
    let r = resolve_module("this-script-does-not-exist.js");
    assert_eq!(r.path, "this-script-does-not-exist.js");
    assert_eq!(
        r.location,
        ModuleLocation::External("this-script-does-not-exist.js".to_string())
    );
    assert_eq!(
        LoadError::CouldNotOpen(r.path).message(),
        "Could not open \"this-script-does-not-exist.js\""
    );
    let r = resolve_module("lib/boop");
    assert_eq!(r.location, ModuleLocation::External("lib/boop.js".to_string()));
    let r = resolve_module("@boo/x");
    assert_eq!(r.location, ModuleLocation::External("@boo/x.js".to_string()));
}

#[test]
fn module_is_wrapped() {
    let w = wrap_module("module.exports = 1;");
    assert!(w.contains("(function (exports, module) {"));
    assert!(w.contains("module.exports = 1;"));
    assert!(w.trim_end().ends_with("*/"));
    assert_eq!(require_source(Ok("x".to_string())), Ok(wrap_module("x")));
    assert_eq!(
        require_source(Err(LoadError::BadEncoding)),
        Err("Problem with file encoding".to_string())
    );
    assert_eq!(
        require_source(Err(LoadError::ReadFailed)),
        Err("Problem reading file".to_string())
    );
}

#[test]
fn actor_spawns_once_until_killed() {
    let s = ActorState::Uninitialized;
    let a = s.execute_step();
    assert!(a.spawn);
    let b = a.next.execute_step();
    assert!(!b.spawn);
    let k = b.next.kill_step();
    assert!(k.send_kill);
    assert_eq!(k.next, ActorState::Uninitialized);
    assert!(k.next.execute_step().spawn);
    assert!(!ActorState::Uninitialized.kill_step().send_kill);
}

#[test]
fn worker_decisions() {
    let req = ExecutorJob::Request(("t".to_string(), None));
    assert_eq!(worker_action(false, &req), WorkerAction::Construct);
    assert_eq!(worker_action(true, &req), WorkerAction::Run);
    assert_eq!(worker_action(true, &ExecutorJob::Kill), WorkerAction::Exit);
    let resp = ExecutorJob::Responce(Err(ExecutorError::NoMain));
    assert_eq!(worker_action(true, &resp), WorkerAction::Ignore);
    let (ok, reply) = after_construct(Err(ExecutorError::NoMain));
    assert!(!ok);
    assert!(matches!(reply, Some(Err(ExecutorError::NoMain))));
    let (ok, reply) = after_construct(Ok(()));
    assert!(ok);
    assert!(reply.is_none());
}

#[test]
fn replies_are_read() {
    assert!(matches!(read_reply(None), Err(CallError::Disconnected)));
    assert!(matches!(
        read_reply(Some(ExecutorJob::Kill)),
        Err(CallError::UnexpectedMessage)
    ));
    assert!(matches!(
        read_reply(Some(ExecutorJob::Responce(Err(ExecutorError::NoMain)))),
        Err(CallError::Script(ExecutorError::NoMain))
    ));
    let status = ExecutionStatus::begin("a", None);
    let r = read_reply(Some(ExecutorJob::Responce(Ok(status)))).unwrap();
    assert_eq!(r.full_text(), "a");
}

#[test]
fn null_bytes_are_removed() {
    assert_eq!("a\0b\0\0c".to_string().remove_null_bytes().unwrap(), "abc");
    assert_eq!("".to_string().remove_null_bytes().unwrap(), "");
    assert_eq!("\0".to_string().remove_null_bytes().unwrap(), "");
}

#[test]
fn edits_from_replacements() {
    assert_eq!(
        plan_edit(TextReplacement::Full("a\0b".to_string()), false),
        Some(BufferEdit::SetText("ab".to_string()))
    );
    assert_eq!(plan_edit(TextReplacement::Selection("s".to_string()), false), None);
    assert_eq!(
        plan_edit(TextReplacement::Selection("s".to_string()), true),
        Some(BufferEdit::ReplaceSelection("s".to_string()))
    );
    let ins = TextReplacement::Insert(vec!["x".to_string(), "\0y".to_string()]);
    assert_eq!(plan_edit(ins, false), Some(BufferEdit::InsertAtCursor("xy".to_string())));
    let ins = TextReplacement::Insert(vec!["1".to_string(), "2".to_string()]);
    assert_eq!(plan_edit(ins, true), Some(BufferEdit::ReplaceSelection("12".to_string())));
    assert_eq!(plan_edit(TextReplacement::Unchanged, true), None);
    assert_eq!(join_fragments(&vec![]), "");
}

#[test]
fn notifications_prefer_errors() {
    let mut status = ExecutionStatus::begin("a", None);
    assert_eq!(status_notification(&status), None);
    status.post_info("hello".to_string());
    assert_eq!(status_notification(&status), Some("hello".to_string()));
    status.post_error("bad".to_string());
    assert_eq!(
        status_notification(&status),
        Some(r#"<span foreground="red" weight="bold">ERROR:</span> bad"#.to_string())
    );
}

#[test]
fn config_defaults_and_setters() {
    let mut c = Config::default();
    assert!(!c.show_shortcuts_on_open);
    assert_eq!(c.editor.colour_scheme_id, "classic");
    c.set_show_shortcuts_on_open(true);
    assert!(c.show_shortcuts_on_open);
    c.editor.set_colour_scheme_id("oblivion");
    assert_eq!(c.editor.colour_scheme_id, "oblivion");
    assert_eq!(EditorConfig::default().colour_scheme_id, "classic");
}

#[test]
fn module_lookup_outcomes() {
    let internal = resolve_module("@boop/non-existant");
    assert_eq!(
        module_outcome(&internal, Lookup::Absent),
        Err(LoadError::NoInternalScript("@boop/non-existant.js".to_string()))
    );
    assert_eq!(module_outcome(&internal, Lookup::Unreadable), Err(LoadError::BadEncoding));
    assert_eq!(
        module_outcome(&internal, Lookup::Found("x".to_string())),
        Ok("x".to_string())
    );
    let external = resolve_module("this-script-does-not-exist");
    assert_eq!(
        module_outcome(&external, Lookup::Absent),
        Err(LoadError::CouldNotOpen("this-script-does-not-exist.js".to_string()))
    );
    assert_eq!(module_outcome(&external, Lookup::Unreadable), Err(LoadError::ReadFailed));
}

#[test]
fn text_order_is_code_point_order() {
    assert!(text_less("Add", "Base64"));
    assert!(!text_less("b", "B"));
    assert!(text_less("ab", "abc"));
    assert!(!text_less("abc", "abc"));
    assert!(text_less("", "a"));
    assert!(text_less("z", "é"));
}
