use std::cell::Cell;

use project_terminals::env::Environment;
use project_terminals::path::join;
use project_terminals::registry::Terminals;
use project_terminals::remote::{handle_response, open_remote_session, Flow, RemoteForwarder, SessionError};
use project_terminals::session::{
    build_session_spec, create_terminal, on_local_spawned, resolve_settings_location, AlternateScroll, Hosting,
    SettingsLocation, Shell, TaskDescriptor, TaskStatus, TerminalBlink, TerminalPlan, TerminalSettings,
};
use project_terminals::venv::{
    build_activation_command, find_activate_script_path, find_venv_root, get_activate_command, prepend_path,
    set_python_venv_path_for_tasks, ActivateScript, VenvSettings,
};

type SessionRegistryOfSenders = Terminals<futures::channel::mpsc::UnboundedSender<Vec<u8>>>;

fn b(s: &str) -> Vec<u8> {
    s.as_bytes().to_vec()
}

fn venv(dirs: &[&str], kind: ActivateScript) -> VenvSettings {
    VenvSettings { directories: dirs.iter().map(|d| b(d)).collect(), activate_script: kind }
}

fn env_of(pairs: &[(&str, &str)]) -> Environment {
    let mut e = Environment::new();
    for (k, v) in pairs {
        e.insert(b(k), b(v));
    }
    e
}

fn settings(detect_venv: Option<VenvSettings>) -> TerminalSettings {
    TerminalSettings {
        shell: Shell::Program("zsh".to_string()),
        env: env_of(&[("A", "1")]),
        detect_venv,
        blinking: TerminalBlink::On,
        alternate_scroll: AlternateScroll::Off,
        max_scroll_history_lines: Some(1000),
    }
}

fn task() -> TaskDescriptor {
    TaskDescriptor {
        id: "t1".to_string(),
        full_label: "cargo test --all".to_string(),
        label: "cargo test".to_string(),
        command_label: "cargo test".to_string(),
        command: "cargo".to_string(),
        args: vec!["test".to_string()],
        env: env_of(&[("A", "2"), ("B", "3")]),
        cwd: Some(b("/p/sub")),
    }
}

#[test]
fn join_follows_unix_rules() {
    assert_eq!(join(&b("/p"), &b("env")), b("/p/env"));
    assert_eq!(join(&b("/p/"), &b("env")), b("/p/env"));
    assert_eq!(join(&b(""), &b("env")), b("env"));
    assert_eq!(join(&b("/p"), &b("/abs")), b("/abs"));
    assert_eq!(join(&b("/p"), &b("")), b("/p/"));
}

#[test]
fn activate_script_is_first_existing_candidate() {
    let s = venv(&["venv", "env"], ActivateScript::Default);
    let found = find_activate_script_path(&s, &b("/p"), &|p: &Vec<u8>| *p == b("/p/env/bin/activate"));
    assert_eq!(found, Some(b("/p/env/bin/activate")));
}

#[test]
fn activate_script_prefers_earlier_directory() {
    let s = venv(&["venv", "env"], ActivateScript::Fish);
    let probes = Cell::new(0u32);
    let found = find_activate_script_path(&s, &b("/p"), &|_p: &Vec<u8>| {
        probes.set(probes.get() + 1);
        true
    });
    assert_eq!(found, Some(b("/p/venv/bin/activate.fish")));
    assert_eq!(probes.get(), 1);
}

#[test]
fn activate_script_probes_each_candidate_once() {
    let s = venv(&["a", "b", "c"], ActivateScript::Csh);
    let seen = std::cell::RefCell::new(Vec::new());
    let found = find_activate_script_path(&s, &b(""), &|p: &Vec<u8>| {
        seen.borrow_mut().push(p.clone());
        false
    });
    assert_eq!(found, None);
    assert_eq!(
        seen.into_inner(),
        vec![b("a/bin/activate.csh"), b("b/bin/activate.csh"), b("c/bin/activate.csh")]
    );
}

#[test]
fn venv_root_is_first_existing_directory() {
    let s = venv(&[".venv", "env"], ActivateScript::Default);
    assert_eq!(find_venv_root(&s, &b("/w"), &|p: &Vec<u8>| *p == b("/w/env")), Some(b("/w/env")));
    assert_eq!(find_venv_root(&s, &b("/w"), &|_p: &Vec<u8>| false), None);
}

#[test]
fn activate_verbs() {
    assert_eq!(get_activate_command(ActivateScript::Nushell), b("overlay use"));
    assert_eq!(get_activate_command(ActivateScript::Default), b("source"));
    assert_eq!(get_activate_command(ActivateScript::Csh), b("source"));
    assert_eq!(get_activate_command(ActivateScript::Fish), b("source"));
}

#[test]
fn activation_command_for_nushell() {
    let c = build_activation_command(ActivateScript::Nushell, &b("/p/env/bin/activate.nu"));
    assert_eq!(c, b("overlay use \"/p/env/bin/activate.nu\"\n"));
}

#[test]
fn activation_command_quotes_paths_with_spaces() {
    let c = build_activation_command(ActivateScript::Default, &b("/my dir/env/bin/activate"));
    assert_eq!(c, b("source \"/my dir/env/bin/activate\"\n"));
    assert!(c.starts_with(b"source \""));
    assert_eq!(c.iter().filter(|&&x| x == b'"').count(), 2);
    assert_eq!(c.iter().filter(|&&x| x == b'\n').count(), 1);
}

#[test]
fn activation_command_keeps_non_text_bytes() {
    let mut path = b("/p/");
    path.push(0xff);
    let c = build_activation_command(ActivateScript::Fish, &path);
    let mut expected = b("source \"/p/");
    expected.push(0xff);
    expected.extend_from_slice(b"\"\n");
    assert_eq!(c, expected);
}

#[test]
fn task_environment_overrides_base() {
    let mut e = env_of(&[("A", "1")]);
    e.extend(&env_of(&[("A", "2"), ("B", "3")]));
    assert_eq!(e.len(), 2);
    assert_eq!(e.get(&b("A")), Some(b("2")));
    assert_eq!(e.get(&b("B")), Some(b("3")));
}

#[test]
fn environment_insert_replaces_value() {
    let mut e = Environment::new();
    e.insert(b("X"), b("1"));
    e.insert(b("X"), b("2"));
    assert_eq!(e.len(), 1);
    assert_eq!(e.get(&b("X")), Some(b("2")));
    assert_eq!(e.get(&b("Y")), None);
}

#[test]
fn path_prepend_keeps_order() {
    assert_eq!(prepend_path(&b("/p/env/bin"), Some(&b("/usr/bin:/bin"))), Some(b("/p/env/bin:/usr/bin:/bin")));
    assert_eq!(prepend_path(&b("/p/env/bin"), None), Some(b("/p/env/bin")));
    assert_eq!(prepend_path(&b("/p/env/bin"), Some(&b(""))), Some(b("/p/env/bin:")));
    assert_eq!(prepend_path(&b("/a:b/bin"), Some(&b("/bin"))), None);
}

#[test]
fn task_venv_sets_virtual_env_and_path() {
    let s = venv(&["venv", "env"], ActivateScript::Default);
    let mut e = env_of(&[("A", "1")]);
    set_python_venv_path_for_tasks(&s, &b("/p"), Some(&b("/usr/bin:/bin")), &mut e, &|p: &Vec<u8>| *p == b("/p/env"));
    assert_eq!(e.get(&b("VIRTUAL_ENV")), Some(b("/p/env")));
    assert_eq!(e.get(&b("PATH")), Some(b("/p/env/bin:/usr/bin:/bin")));
    assert_eq!(e.get(&b("A")), Some(b("1")));
    assert_eq!(e.len(), 3);
}

#[test]
fn task_venv_without_inherited_path() {
    let s = venv(&["env"], ActivateScript::Default);
    let mut e = Environment::new();
    set_python_venv_path_for_tasks(&s, &b("/p"), None, &mut e, &|_p: &Vec<u8>| true);
    assert_eq!(e.get(&b("PATH")), Some(b("/p/env/bin")));
}

#[test]
fn task_venv_missing_is_not_an_error() {
    let s = venv(&["env"], ActivateScript::Default);
    let mut e = env_of(&[("A", "1")]);
    set_python_venv_path_for_tasks(&s, &b("/p"), Some(&b("/bin")), &mut e, &|_p: &Vec<u8>| false);
    assert_eq!(e.len(), 1);
    assert_eq!(e.get(&b("VIRTUAL_ENV")), None);
}

#[test]
fn settings_location_prefers_terminal_directory() {
    let find = |p: &Vec<u8>| -> Option<SettingsLocation> {
        if p.starts_with(b"/w1") {
            Some(SettingsLocation { worktree_id: 1, path: p[3..].to_vec() })
        } else if p.starts_with(b"/w2") {
            Some(SettingsLocation { worktree_id: 2, path: p[3..].to_vec() })
        } else {
            None
        }
    };
    let r = resolve_settings_location(Some(&b("/w1/a")), Some(&b("/w2/b")), &find).unwrap();
    assert_eq!(r.worktree_id, 1);
    assert_eq!(r.path, b("/a"));
    let r = resolve_settings_location(Some(&b("/elsewhere")), Some(&b("/w2/b")), &find).unwrap();
    assert_eq!(r.worktree_id, 2);
    let r = resolve_settings_location(None, Some(&b("/w2/b")), &find).unwrap();
    assert_eq!(r.worktree_id, 2);
    assert!(resolve_settings_location(Some(&b("/x")), None, &find).is_none());
    assert!(resolve_settings_location(None, None, &find).is_none());
}

#[test]
fn task_session_spec_merges_environment() {
    let spec = build_session_spec(Some(b("/p")), Some(task()), settings(None), None, &|_p: &Vec<u8>| false);
    assert_eq!(spec.env.get(&b("A")), Some(b("2")));
    assert_eq!(spec.env.get(&b("B")), Some(b("3")));
    assert_eq!(spec.env.len(), 2);
    assert_eq!(spec.shell, Shell::WithArguments { program: "cargo".to_string(), args: vec!["test".to_string()] });
    let t = spec.task.unwrap();
    assert_eq!(t.id, "t1");
    assert_eq!(t.label, "cargo test");
    assert_eq!(t.status, TaskStatus::Running);
    assert!(spec.activate_venv.is_none());
    assert_eq!(spec.blinking, TerminalBlink::On);
    assert_eq!(spec.alternate_scroll, AlternateScroll::Off);
    assert_eq!(spec.max_scroll_history_lines, Some(1000));
}

#[test]
fn task_session_spec_injects_venv() {
    let s = venv(&["env"], ActivateScript::Default);
    let spec = build_session_spec(
        Some(b("/p")),
        Some(task()),
        settings(Some(s)),
        Some(&b("/bin")),
        &|p: &Vec<u8>| *p == b("/p/env"),
    );
    assert_eq!(spec.env.get(&b("VIRTUAL_ENV")), Some(b("/p/env")));
    assert_eq!(spec.env.get(&b("PATH")), Some(b("/p/env/bin:/bin")));
    assert!(spec.activate_venv.is_none());
}

#[test]
fn shell_session_activates_after_spawn() {
    let s = venv(&["venv", "env"], ActivateScript::Nushell);
    let spec = build_session_spec(None, None, settings(Some(s)), None, &|_p: &Vec<u8>| true);
    assert_eq!(spec.shell, Shell::Program("zsh".to_string()));
    assert!(spec.task.is_none());
    assert_eq!(spec.env.get(&b("A")), Some(b("1")));
    assert_eq!(spec.env.get(&b("VIRTUAL_ENV")), None);
    let mut registry: Terminals<()> = Terminals::new();
    let command = on_local_spawned(&mut registry, 7, &spec, &|p: &Vec<u8>| *p == b("env/bin/activate.nu"));
    assert_eq!(command, Some(b("overlay use \"env/bin/activate.nu\"\n")));
    assert!(registry.is_live_local(7));
}

#[test]
fn shell_session_without_venv_sends_nothing() {
    let spec = build_session_spec(None, None, settings(None), None, &|_p: &Vec<u8>| true);
    let mut registry: Terminals<()> = Terminals::new();
    assert_eq!(on_local_spawned(&mut registry, 1, &spec, &|_p: &Vec<u8>| true), None);
    assert_eq!(registry.local_count(), 1);
}

#[test]
fn registry_tracks_created_and_released_sessions() {
    let mut r: Terminals<()> = Terminals::new();
    assert!(r.register_local(1));
    assert!(r.register_local(2));
    assert!(r.register_local(3));
    assert!(!r.register_local(2));
    assert!(r.release_local(2));
    assert!(r.register_local(4));
    assert!(r.release_local(1));
    assert_eq!(r.local_count(), 2);
    assert!(!r.is_live_local(1));
    assert!(!r.is_live_local(2));
    assert!(r.is_live_local(3));
    assert!(r.is_live_local(4));
}

#[test]
fn releasing_twice_removes_once() {
    let mut r: Terminals<()> = Terminals::new();
    r.register_local(9);
    r.register_local(10);
    assert!(r.release_local(9));
    assert!(!r.release_local(9));
    assert_eq!(r.local_count(), 1);
    assert!(r.is_live_local(10));
}

#[test]
fn remote_session_needs_remote_id() {
    let mut r: Terminals<Vec<u8>> = Terminals::new();
    let e = open_remote_session(&mut r, None, 5, Vec::new());
    assert_eq!(e.err(), Some(SessionError::MissingRemoteId));
    assert!(!r.has_remote(5));
}

#[test]
fn remote_forwarding_stops_after_failure() {
    let mut r: Terminals<&str> = Terminals::new();
    let mut f = open_remote_session(&mut r, Some(42), 5, "out").unwrap();
    assert_eq!(r.remote_sender(5), Some(&"out"));
    let req = f.request_for(b("ls\n")).unwrap();
    assert_eq!((req.project_id, req.terminal_id, req.data), (42, 5, b("ls\n")));
    assert_eq!(handle_response(&mut r, &mut f, true), Flow::Continue);
    assert!(f.request_for(b("pwd\n")).is_some());
    assert_eq!(handle_response(&mut r, &mut f, true), Flow::Continue);
    assert!(r.has_remote(5));
    assert_eq!(handle_response(&mut r, &mut f, false), Flow::Break);
    assert!(f.is_closed());
    assert!(!r.has_remote(5));
    assert!(f.request_for(b("echo\n")).is_none());
    assert_eq!(handle_response(&mut r, &mut f, true), Flow::Break);
    assert!(f.request_for(b("echo\n")).is_none());
}

#[test]
fn remote_forwarding_continues_on_success() {
    let mut f = RemoteForwarder::new(1, 2);
    for _ in 0..100 {
        assert!(f.request_for(b("x")).is_some());
        assert_eq!(f.on_response(true), Flow::Continue);
    }
    assert!(!f.is_closed());
    assert_eq!((f.project_id(), f.terminal_id()), (1, 2));
}

#[test]
fn remote_registry_replaces_sender() {
    let mut r: Terminals<u8> = Terminals::new();
    assert_eq!(r.insert_remote(3, 1), None);
    assert_eq!(r.insert_remote(3, 2), Some(1));
    assert_eq!(r.remove_remote(3), Some(2));
    assert_eq!(r.remove_remote(3), None);
}

#[test]
fn remote_output_channel_leaves_registry_on_break() {
    let mut r: SessionRegistryOfSenders = Terminals::new();
    let (tx, mut rx) = futures::channel::mpsc::unbounded::<Vec<u8>>();
    let mut f = open_remote_session(&mut r, Some(1), 8, tx).unwrap();
    r.remote_sender(8).unwrap().unbounded_send(b("hello")).unwrap();
    assert_eq!(rx.try_next().unwrap(), Some(b("hello")));
    assert_eq!(handle_response(&mut r, &mut f, false), Flow::Break);
    assert!(r.remote_sender(8).is_none());
    assert_eq!(rx.try_next().unwrap(), None);
}

fn worktree_of(p: &Vec<u8>) -> Option<SettingsLocation> {
    if p.starts_with(b"/w") {
        Some(SettingsLocation { worktree_id: 3, path: p[2..].to_vec() })
    } else {
        None
    }
}

#[test]
fn create_local_terminal_uses_scoped_settings() {
    let mut r: Terminals<()> = Terminals::new();
    let seen = std::cell::RefCell::new(Vec::new());
    let settings_for = |l: Option<SettingsLocation>| -> TerminalSettings {
        seen.borrow_mut().push(l.as_ref().map(|l| l.worktree_id));
        settings(None)
    };
    let plan = create_terminal(
        &mut r,
        Hosting::Local,
        Some(b("/elsewhere")),
        Some(task()),
        &worktree_of,
        &settings_for,
        None,
        &|_p: &Vec<u8>| false,
    );
    match plan {
        Ok(TerminalPlan::Local(spec)) => {
            assert_eq!(spec.working_directory, Some(b("/elsewhere")));
            assert_eq!(spec.env.get(&b("A")), Some(b("2")));
            assert!(spec.task.is_some());
        }
        _ => panic!("expected a local plan"),
    }
    assert_eq!(seen.into_inner(), vec![None]);
    assert_eq!(r.local_count(), 0);
}

#[test]
fn create_local_terminal_in_worktree() {
    let mut r: Terminals<()> = Terminals::new();
    let seen = std::cell::RefCell::new(Vec::new());
    let settings_for = |l: Option<SettingsLocation>| -> TerminalSettings {
        seen.borrow_mut().push(l.map(|l| (l.worktree_id, l.path)));
        settings(None)
    };
    let plan = create_terminal(
        &mut r,
        Hosting::Local,
        Some(b("/w/src")),
        None,
        &worktree_of,
        &settings_for,
        None,
        &|_p: &Vec<u8>| false,
    );
    assert!(matches!(plan, Ok(TerminalPlan::Local(_))));
    assert_eq!(seen.into_inner(), vec![Some((3, b("/src")))]);
}

#[test]
fn create_remote_terminal() {
    let mut r: Terminals<u8> = Terminals::new();
    let none_settings = |_l: Option<SettingsLocation>| -> TerminalSettings { settings(None) };
    let plan = create_terminal(
        &mut r,
        Hosting::Remote { remote_id: Some(11), terminal_id: 4, sender: 9 },
        None,
        None,
        &worktree_of,
        &none_settings,
        None,
        &|_p: &Vec<u8>| false,
    );
    match plan {
        Ok(TerminalPlan::Remote(f)) => assert_eq!((f.project_id(), f.terminal_id(), f.is_closed()), (11, 4, false)),
        _ => panic!("expected a remote plan"),
    }
    assert_eq!(r.remote_sender(4), Some(&9));
}

#[test]
fn create_remote_terminal_without_remote_id() {
    let mut r: Terminals<u8> = Terminals::new();
    let none_settings = |_l: Option<SettingsLocation>| -> TerminalSettings { settings(None) };
    let plan = create_terminal(
        &mut r,
        Hosting::Remote { remote_id: None, terminal_id: 4, sender: 9 },
        None,
        None,
        &worktree_of,
        &none_settings,
        None,
        &|_p: &Vec<u8>| false,
    );
    assert!(matches!(plan, Err(SessionError::MissingRemoteId)));
    assert!(!r.has_remote(4));
}
