//! Building the specification of a local session from a task or from the
//! shell defaults, and recording it once its process has been spawned.
use vstd::prelude::*;

use crate::env::Environment;
use crate::registry::{step, SessionEvent, Terminals};
use crate::remote::{open_remote_session, RemoteForwarder, SessionError};
use crate::venv::{
    activation_command_spec, build_activation_command, find_activate_script_path, opt_bytes, opt_ref_bytes,
    probe_answered, script_path_spec, set_python_venv_path_for_tasks, venv_injected, VenvSettings,
};

verus! {

/// What a session runs.
#[derive(Clone, Debug, PartialEq, Eq)]
pub enum Shell {
    /// The user's login shell.
    System,
    /// A program with no arguments.
    Program(String),
    /// A program with its arguments.
    WithArguments { program: String, args: Vec<String> },
}

/// How the cursor blinks.
#[derive(Clone, Copy, Debug, PartialEq, Eq, Structural)]
pub enum TerminalBlink {
    Off,
    TerminalControlled,
    On,
}

/// Whether scrolling in the alternate screen is sent to the program.
#[derive(Clone, Copy, Debug, PartialEq, Eq, Structural)]
pub enum AlternateScroll {
    On,
    Off,
}

/// The settings that apply to a session at its location.
#[derive(Clone, Debug)]
pub struct TerminalSettings {
    pub shell: Shell,
    pub env: Environment,
    pub detect_venv: Option<VenvSettings>,
    pub blinking: TerminalBlink,
    pub alternate_scroll: AlternateScroll,
    pub max_scroll_history_lines: Option<usize>,
}

/// A command to run in a session in place of an interactive shell.
#[derive(Clone, Debug)]
pub struct TaskDescriptor {
    pub id: String,
    pub full_label: String,
    pub label: String,
    pub command_label: String,
    pub command: String,
    pub args: Vec<String>,
    pub env: Environment,
    pub cwd: Option<Vec<u8>>,
}

/// How far a task has got.
#[derive(Clone, Copy, Debug, PartialEq, Eq, Structural)]
pub enum TaskStatus {
    Running,
    Unknown,
    Completed { success: bool },
}

/// The task that a session runs, as the session shows it.
#[derive(Clone, Debug)]
pub struct TaskState {
    pub id: String,
    pub full_label: String,
    pub label: String,
    pub command_label: String,
    pub status: TaskStatus,
}

/// The scope that settings are looked up in: a worktree and a path in it.
#[derive(Clone, Debug)]
pub struct SettingsLocation {
    pub worktree_id: usize,
    pub path: Vec<u8>,
}

/// Everything needed to spawn a local session.
#[derive(Debug)]
pub struct SessionSpec {
    pub working_directory: Option<Vec<u8>>,
    pub task: Option<TaskState>,
    pub shell: Shell,
    pub env: Environment,
    pub blinking: TerminalBlink,
    pub alternate_scroll: AlternateScroll,
    pub max_scroll_history_lines: Option<usize>,
    /// For an interactive session, the virtual environment to activate in
    /// its shell once it runs.
    pub activate_venv: Option<VenvSettings>,
}

/// A lookup of the worktree that holds a path answered `r` for `p`.
pub open spec fn lookup_answered<F: Fn(&Vec<u8>) -> Option<SettingsLocation>>(
    find: F,
    p: Seq<u8>,
    r: Option<SettingsLocation>,
) -> bool {
    exists|v: &Vec<u8>| v@ == p && #[trigger] call_ensures(find, (v,), r)
}

/// `r` is the settings scope that the lookups gave: see `resolve_settings_location`.
pub open spec fn location_resolved<F: Fn(&Vec<u8>) -> Option<SettingsLocation>>(
    find: F,
    terminal_cwd: Option<Seq<u8>>,
    task_cwd: Option<Seq<u8>>,
    r: Option<SettingsLocation>,
) -> bool {
    match terminal_cwd {
        Some(t) => match r {
            Some(_) => lookup_answered(find, t, r) || (lookup_answered(find, t, None)
                && task_cwd.is_some() && lookup_answered(find, task_cwd.unwrap(), r)),
            None => lookup_answered(find, t, None)
                && (task_cwd.is_some() ==> lookup_answered(find, task_cwd.unwrap(), None)),
        },
        None => match task_cwd {
            Some(c) => lookup_answered(find, c, r),
            None => r.is_none(),
        },
    }
}

/// The settings scope of a session: the worktree holding the session's own
/// working directory if there is one, else the worktree holding the task's
/// working directory, else none (the global settings). The second lookup is
/// made only when the first gave nothing.
pub fn resolve_settings_location<F: Fn(&Vec<u8>) -> Option<SettingsLocation>>(
    terminal_cwd: Option<&Vec<u8>>,
    task_cwd: Option<&Vec<u8>>,
    find: &F,
) -> (r: Option<SettingsLocation>)
    requires
        forall|v: &Vec<u8>| #[trigger] call_requires(*find, (v,)),
    ensures
        location_resolved(*find, opt_ref_bytes(terminal_cwd), opt_ref_bytes(task_cwd), r),
{
    let first = match terminal_cwd {
        Some(t) => {
            let found = find(t);
            assert(lookup_answered(*find, t@, found));
            found
        },
        None => None,
    };
    match first {
        Some(l) => Some(l),
        None => match task_cwd {
            Some(c) => {
                let found = find(c);
                assert(lookup_answered(*find, c@, found));
                found
            },
            None => None,
        },
    }
}

/// The directory that virtual environments are looked for in: the
/// session's working directory, or the empty path.
pub open spec fn venv_base_spec(working_directory: Option<Vec<u8>>) -> Seq<u8> {
    match working_directory {
        Some(d) => d@,
        None => Seq::empty(),
    }
}

/// The directory that virtual environments are looked for in.
pub fn venv_base_directory(working_directory: &Option<Vec<u8>>) -> (r: Vec<u8>)
    ensures
        r@ == venv_base_spec(*working_directory),
{
    match working_directory {
        Some(d) => d.clone(),
        None => Vec::new(),
    }
}

/// `r` is the specification of a session built as `build_session_spec` builds it.
pub open spec fn session_built<F: Fn(&Vec<u8>) -> bool>(
    probe: F,
    r: SessionSpec,
    working_directory: Option<Vec<u8>>,
    task: Option<TaskDescriptor>,
    settings: TerminalSettings,
    inherited: Option<Seq<u8>>,
) -> bool {
    &&& r.working_directory == working_directory
    &&& r.blinking == settings.blinking
    &&& r.alternate_scroll == settings.alternate_scroll
    &&& r.max_scroll_history_lines == settings.max_scroll_history_lines
    &&& match task {
        None => {
            &&& r.task.is_none()
            &&& r.shell == settings.shell
            &&& r.env@ == settings.env@
            &&& r.activate_venv == settings.detect_venv
        },
        Some(t) => {
            &&& r.task == Some(
                (TaskState {
                    id: t.id,
                    full_label: t.full_label,
                    label: t.label,
                    command_label: t.command_label,
                    status: TaskStatus::Running,
                }),
            )
            &&& r.shell == (Shell::WithArguments { program: t.command, args: t.args })
            &&& r.activate_venv.is_none()
            &&& match settings.detect_venv {
                None => r.env@ == settings.env@.union_prefer_right(t.env@),
                Some(v) => venv_injected(
                    probe,
                    v,
                    venv_base_spec(working_directory),
                    inherited,
                    settings.env@.union_prefer_right(t.env@),
                    r.env@,
                ),
            }
        },
    }
}

/// The specification of a session. With a task, the session runs the task's
/// command with the settings' environment overridden by the task's, and, if
/// virtual environments are configured, with `VIRTUAL_ENV` and the search
/// path set for the first environment found; its task shows as running.
/// Without one, it runs the configured shell with the settings' environment
/// and activates the virtual environment, if configured, after it starts.
pub fn build_session_spec<F: Fn(&Vec<u8>) -> bool>(
    working_directory: Option<Vec<u8>>,
    task: Option<TaskDescriptor>,
    settings: TerminalSettings,
    inherited_path: Option<&Vec<u8>>,
    probe: &F,
) -> (r: SessionSpec)
    requires
        forall|v: &Vec<u8>| #[trigger] call_requires(*probe, (v,)),
    ensures
        session_built(*probe, r, working_directory, task, settings, opt_ref_bytes(inherited_path)),
{
    let TerminalSettings { shell, env, detect_venv, blinking, alternate_scroll, max_scroll_history_lines } =
        settings;
    let mut env = env;
    match task {
        None => SessionSpec {
            working_directory,
            task: None,
            shell,
            env,
            blinking,
            alternate_scroll,
            max_scroll_history_lines,
            activate_venv: detect_venv,
        },
        Some(t) => {
            let TaskDescriptor { id, full_label, label, command_label, command, args, env: task_env, cwd: _ } = t;
            env.extend(&task_env);
            match &detect_venv {
                Some(v) => {
                    let base = venv_base_directory(&working_directory);
                    set_python_venv_path_for_tasks(v, &base, inherited_path, &mut env, probe);
                },
                None => {},
            }
            SessionSpec {
                working_directory,
                task: Some(TaskState { id, full_label, label, command_label, status: TaskStatus::Running }),
                shell: Shell::WithArguments { program: command, args },
                env,
                blinking,
                alternate_scroll,
                max_scroll_history_lines,
                activate_venv: None,
            }
        },
    }
}

/// Records the local session `id` that was spawned from `spec`, and gives
/// the bytes to write into its shell before any other input: the command
/// that activates the first virtual environment whose script the probe
/// finds, when the session is interactive and environments are configured.
pub fn on_local_spawned<S, F: Fn(&Vec<u8>) -> bool>(
    registry: &mut Terminals<S>,
    id: u64,
    spec: &SessionSpec,
    probe: &F,
) -> (r: Option<Vec<u8>>)
    requires
        forall|v: &Vec<u8>| #[trigger] call_requires(*probe, (v,)),
    ensures
        final(registry).local_sessions() == step(old(registry).local_sessions(), SessionEvent::Created(id)),
        final(registry).remote_sessions() == old(registry).remote_sessions(),
        match spec.activate_venv {
            None => r.is_none(),
            Some(v) => match r {
                Some(command) => exists|k: int|
                    0 <= k < v.directories@.len()
                    && command@ == activation_command_spec(v.activate_script,
                        script_path_spec(venv_base_spec(spec.working_directory), #[trigger] v.directories@[k]@, v.activate_script))
                    && probe_answered(*probe,
                        script_path_spec(venv_base_spec(spec.working_directory), v.directories@[k]@, v.activate_script), true)
                    && forall|j: int| 0 <= j < k ==> probe_answered(*probe,
                        script_path_spec(venv_base_spec(spec.working_directory), #[trigger] v.directories@[j]@, v.activate_script), false),
                None => forall|j: int| 0 <= j < v.directories@.len() ==> probe_answered(*probe,
                    script_path_spec(venv_base_spec(spec.working_directory), #[trigger] v.directories@[j]@, v.activate_script), false),
            },
        },
{
    let _fresh = registry.register_local(id);
    match &spec.activate_venv {
        None => None,
        Some(v) => {
            let base = venv_base_directory(&spec.working_directory);
            match find_activate_script_path(v, &base, probe) {
                Some(script) => Some(build_activation_command(v.activate_script, &script)),
                None => None,
            }
        },
    }
}

/// How the project that a new session belongs to is hosted.
pub enum Hosting<S> {
    /// On this machine: the session's process is spawned here.
    Local,
    /// On another machine. `remote_id` is the project's id there, if it has
    /// one; `terminal_id` is the id that the host assigned to the session,
    /// and `sender` feeds the session's output to this side.
    Remote { remote_id: Option<u64>, terminal_id: u64, sender: S },
}

/// What a new session needs next: a process to spawn from a specification,
/// or a forwarding loop to the host.
#[derive(Debug)]
pub enum TerminalPlan {
    Local(SessionSpec),
    Remote(RemoteForwarder),
}

/// The working directory that a task asks for.
pub open spec fn task_cwd_spec(task: Option<TaskDescriptor>) -> Option<Seq<u8>> {
    match task {
        Some(t) => opt_bytes(t.cwd),
        None => None,
    }
}

/// Starts a new session. For a remotely hosted project this opens the
/// forwarding loop and records the session's output channel, and fails when
/// the project has no remote id. For a local one it finds the settings scope
/// (the worktree of the session's directory, else of the task's), takes the
/// settings that apply there, and builds the specification to spawn; the
/// registry gains the session once it has been spawned (`on_local_spawned`).
pub fn create_terminal<S, W, G, F>(
    registry: &mut Terminals<S>,
    hosting: Hosting<S>,
    working_directory: Option<Vec<u8>>,
    task: Option<TaskDescriptor>,
    find_worktree: &W,
    settings_for: &G,
    inherited_path: Option<&Vec<u8>>,
    probe: &F,
) -> (r: Result<TerminalPlan, SessionError>) where
    W: Fn(&Vec<u8>) -> Option<SettingsLocation>,
    G: Fn(Option<SettingsLocation>) -> TerminalSettings,
    F: Fn(&Vec<u8>) -> bool,

    requires
        forall|v: &Vec<u8>| #[trigger] call_requires(*find_worktree, (v,)),
        forall|l: Option<SettingsLocation>| #[trigger] call_requires(*settings_for, (l,)),
        forall|v: &Vec<u8>| #[trigger] call_requires(*probe, (v,)),
    ensures
        final(registry).local_sessions() == old(registry).local_sessions(),
        match hosting {
            Hosting::Local => {
                &&& final(registry).remote_sessions() == old(registry).remote_sessions()
                &&& match r {
                    Ok(TerminalPlan::Local(spec)) => exists|loc: Option<SettingsLocation>, st: TerminalSettings|
                        location_resolved(*find_worktree, opt_bytes(working_directory), task_cwd_spec(task), loc)
                        && #[trigger] call_ensures(*settings_for, (loc,), st)
                        && session_built(*probe, spec, working_directory, task, st, opt_ref_bytes(inherited_path)),
                    _ => false,
                }
            },
            Hosting::Remote { remote_id, terminal_id, sender } => match remote_id {
                None => r == Err::<TerminalPlan, SessionError>(SessionError::MissingRemoteId)
                    && final(registry).remote_sessions() == old(registry).remote_sessions(),
                Some(project_id) => match r {
                    Ok(TerminalPlan::Remote(f)) => f.spec_project_id() == project_id
                        && f.spec_terminal_id() == terminal_id && !f.spec_closed()
                        && final(registry).remote_sessions() == old(registry).remote_sessions().insert(terminal_id, sender),
                    _ => false,
                },
            },
        },
{
    match hosting {
        Hosting::Remote { remote_id, terminal_id, sender } => {
            match open_remote_session(registry, remote_id, terminal_id, sender) {
                Ok(f) => Ok(TerminalPlan::Remote(f)),
                Err(e) => Err(e),
            }
        },
        Hosting::Local => {
            let location = {
                let terminal_cwd: Option<&Vec<u8>> = match &working_directory {
                    Some(d) => Some(d),
                    None => None,
                };
                let task_cwd: Option<&Vec<u8>> = match &task {
                    Some(t) => match &t.cwd {
                        Some(c) => Some(c),
                        None => None,
                    },
                    None => None,
                };
                resolve_settings_location(terminal_cwd, task_cwd, find_worktree)
            };
            let ghost loc = location;
            let settings = settings_for(location);
            let ghost st = settings;
            let ghost wd = working_directory;
            let ghost tk = task;
            let spec = build_session_spec(working_directory, task, settings, inherited_path, probe);
            assert(location_resolved(*find_worktree, opt_bytes(wd), task_cwd_spec(tk), loc)
                && call_ensures(*settings_for, (loc,), st)
                && session_built(*probe, spec, wd, tk, st, opt_ref_bytes(inherited_path)));
            Ok(TerminalPlan::Local(spec))
        },
    }
}

} // verus!
