//! Locating a virtual environment and the command that activates it.
use vstd::prelude::*;

use crate::env::Environment;
use crate::path::{append_bytes, join, join_spec};

verus! {

/// Which activation script a virtual environment is entered with.
#[derive(Clone, Copy, Debug, PartialEq, Eq, Structural)]
pub enum ActivateScript {
    Default,
    Csh,
    Fish,
    Nushell,
}

/// Where to look for a virtual environment, and how to activate it.
#[derive(Clone, Debug)]
pub struct VenvSettings {
    /// Candidate environment directory names, probed in this order.
    pub directories: Vec<Vec<u8>>,
    pub activate_script: ActivateScript,
}

/// The file name of the activation script for a dialect.
pub open spec fn script_name_spec(kind: ActivateScript) -> Seq<u8> {
    match kind {
        ActivateScript::Default => seq![0x61u8, 0x63, 0x74, 0x69, 0x76, 0x61, 0x74, 0x65],
        ActivateScript::Csh => seq![0x61u8, 0x63, 0x74, 0x69, 0x76, 0x61, 0x74, 0x65]
            + seq![0x2eu8, 0x63, 0x73, 0x68],
        ActivateScript::Fish => seq![0x61u8, 0x63, 0x74, 0x69, 0x76, 0x61, 0x74, 0x65]
            + seq![0x2eu8, 0x66, 0x69, 0x73, 0x68],
        ActivateScript::Nushell => seq![0x61u8, 0x63, 0x74, 0x69, 0x76, 0x61, 0x74, 0x65]
            + seq![0x2eu8, 0x6e, 0x75],
    }
}

/// The bytes `bin`.
pub open spec fn bin_spec() -> Seq<u8> {
    seq![0x62u8, 0x69, 0x6e]
}

/// The command verb that runs an activation script: `overlay use` for
/// Nushell, `source` for every other dialect.
pub open spec fn verb_spec(kind: ActivateScript) -> Seq<u8> {
    match kind {
        ActivateScript::Nushell => seq![0x6fu8, 0x76, 0x65, 0x72, 0x6c, 0x61, 0x79, 0x20, 0x75, 0x73, 0x65],
        _ => seq![0x73u8, 0x6f, 0x75, 0x72, 0x63, 0x65],
    }
}

/// The root of the environment named `name` under `base`.
pub open spec fn venv_root_spec(base: Seq<u8>, name: Seq<u8>) -> Seq<u8> {
    join_spec(base, name)
}

/// The activation script of the environment named `name` under `base`.
pub open spec fn script_path_spec(base: Seq<u8>, name: Seq<u8>, kind: ActivateScript) -> Seq<u8> {
    join_spec(join_spec(join_spec(base, name), bin_spec()), script_name_spec(kind))
}

/// A probe of the file system answered `b` for the path `p`.
pub open spec fn probe_answered<F: Fn(&Vec<u8>) -> bool>(probe: F, p: Seq<u8>, b: bool) -> bool {
    exists|v: &Vec<u8>| v@ == p && #[trigger] call_ensures(probe, (v,), b)
}

/// The line `<verb> "<path>"` followed by a newline.
pub open spec fn activation_command_spec(kind: ActivateScript, script: Seq<u8>) -> Seq<u8> {
    verb_spec(kind) + seq![0x20u8, 0x22] + script + seq![0x22u8, 0x0a]
}

/// The bytes `bin`: the directory of an environment that holds its programs.
pub fn bin_dir_name() -> (r: Vec<u8>)
    ensures
        r@ == bin_spec(),
{
    let r = vec![0x62u8, 0x69, 0x6e];
    assert(r@ == bin_spec());
    r
}

/// The file name of the activation script for a dialect.
pub fn script_name(kind: ActivateScript) -> (r: Vec<u8>)
    ensures
        r@ == script_name_spec(kind),
{
    let mut r = vec![0x61u8, 0x63, 0x74, 0x69, 0x76, 0x61, 0x74, 0x65];
    match kind {
        ActivateScript::Default => {},
        ActivateScript::Csh => {
            let ext = vec![0x2eu8, 0x63, 0x73, 0x68];
            append_bytes(&mut r, &ext);
        },
        ActivateScript::Fish => {
            let ext = vec![0x2eu8, 0x66, 0x69, 0x73, 0x68];
            append_bytes(&mut r, &ext);
        },
        ActivateScript::Nushell => {
            let ext = vec![0x2eu8, 0x6e, 0x75];
            append_bytes(&mut r, &ext);
        },
    }
    assert(r@ =~= script_name_spec(kind));
    r
}

/// The verb that runs an activation script of this dialect.
pub fn get_activate_command(kind: ActivateScript) -> (r: Vec<u8>)
    ensures
        r@ == verb_spec(kind),
{
    let r = match kind {
        ActivateScript::Nushell => vec![0x6fu8, 0x76, 0x65, 0x72, 0x6c, 0x61, 0x79, 0x20, 0x75, 0x73, 0x65],
        _ => vec![0x73u8, 0x6f, 0x75, 0x72, 0x63, 0x65],
    };
    assert(r@ =~= verb_spec(kind));
    r
}

/// The bytes written into an interactive shell to activate the environment
/// whose script is `script`: the verb, a space, the path in double quotes,
/// and a newline. The path's bytes are copied as they are.
pub fn build_activation_command(kind: ActivateScript, script: &Vec<u8>) -> (r: Vec<u8>)
    ensures
        r@ == activation_command_spec(kind, script@),
{
    let mut command = get_activate_command(kind);
    command.push(0x20u8);
    command.push(0x22u8);
    append_bytes(&mut command, script);
    command.push(0x22u8);
    command.push(0x0au8);
    assert(command@ =~= activation_command_spec(kind, script@));
    command
}

/// The activation line starts with `overlay use "` for Nushell and with
/// `source "` for every other dialect, holds the script path byte for byte
/// right after that opening quote, and ends with a closing quote and a
/// single newline, whatever bytes the path holds.
pub proof fn activation_command_shape(kind: ActivateScript, script: Seq<u8>)
    ensures
        ({
            let c = activation_command_spec(kind, script);
            let n = verb_spec(kind).len() as int;
            &&& kind == ActivateScript::Nushell ==> c.take(13) == seq![0x6fu8, 0x76, 0x65, 0x72, 0x6c, 0x61, 0x79, 0x20, 0x75, 0x73, 0x65, 0x20, 0x22]
            &&& kind != ActivateScript::Nushell ==> c.take(8) == seq![0x73u8, 0x6f, 0x75, 0x72, 0x63, 0x65, 0x20, 0x22]
            &&& c.len() == n + script.len() + 4
            &&& c.subrange(n + 2, n + 2 + script.len()) == script
            &&& c[c.len() - 2] == 0x22u8
            &&& c[c.len() - 1] == 0x0au8
        }),
{
    let c = activation_command_spec(kind, script);
    let n = verb_spec(kind).len() as int;
    assert(c.subrange(n + 2, n + 2 + script.len()) =~= script);
    if kind == ActivateScript::Nushell {
        assert(c.take(13) =~= seq![0x6fu8, 0x76, 0x65, 0x72, 0x6c, 0x61, 0x79, 0x20, 0x75, 0x73, 0x65, 0x20, 0x22]);
    } else {
        assert(c.take(8) =~= seq![0x73u8, 0x6f, 0x75, 0x72, 0x63, 0x65, 0x20, 0x22]);
    }
}

/// The first candidate directory under `base` whose activation script the
/// probe reports as existing. Each candidate is probed once, in the listed
/// order, and the search stops at the first hit.
pub fn find_activate_script_path<F: Fn(&Vec<u8>) -> bool>(
    settings: &VenvSettings,
    base: &Vec<u8>,
    probe: &F,
) -> (r: Option<Vec<u8>>)
    requires
        forall|v: &Vec<u8>| #[trigger] call_requires(*probe, (v,)),
    ensures
        match r {
            Some(p) => exists|k: int|
                0 <= k < settings.directories@.len()
                && p@ == script_path_spec(base@, #[trigger] settings.directories@[k]@, settings.activate_script)
                && probe_answered(*probe, p@, true)
                && forall|j: int| 0 <= j < k ==> probe_answered(*probe,
                    script_path_spec(base@, #[trigger] settings.directories@[j]@, settings.activate_script), false),
            None => forall|j: int| 0 <= j < settings.directories@.len() ==> probe_answered(*probe,
                script_path_spec(base@, #[trigger] settings.directories@[j]@, settings.activate_script), false),
        },
{
    let name = script_name(settings.activate_script);
    let bin = bin_dir_name();
    let mut i: usize = 0;
    while i < settings.directories.len()
        invariant
            0 <= i <= settings.directories@.len(),
            name@ == script_name_spec(settings.activate_script),
            bin@ == bin_spec(),
            forall|v: &Vec<u8>| #[trigger] call_requires(*probe, (v,)),
            forall|j: int| 0 <= j < i ==> probe_answered(*probe,
                script_path_spec(base@, #[trigger] settings.directories@[j]@, settings.activate_script), false),
        decreases settings.directories@.len() - i,
    {
        let root = join(base, &settings.directories[i]);
        let bin_dir = join(&root, &bin);
        let candidate = join(&bin_dir, &name);
        let found = probe(&candidate);
        assert(probe_answered(*probe, candidate@, found));
        if found {
            return Some(candidate);
        }
        i = i + 1;
    }
    None
}

/// The first candidate environment root under `base` that the probe reports
/// as existing, probing each once in the listed order.
pub fn find_venv_root<F: Fn(&Vec<u8>) -> bool>(
    settings: &VenvSettings,
    base: &Vec<u8>,
    probe: &F,
) -> (r: Option<Vec<u8>>)
    requires
        forall|v: &Vec<u8>| #[trigger] call_requires(*probe, (v,)),
    ensures
        match r {
            Some(p) => exists|k: int|
                0 <= k < settings.directories@.len()
                && p@ == venv_root_spec(base@, #[trigger] settings.directories@[k]@)
                && probe_answered(*probe, p@, true)
                && forall|j: int| 0 <= j < k ==> probe_answered(*probe,
                    venv_root_spec(base@, #[trigger] settings.directories@[j]@), false),
            None => forall|j: int| 0 <= j < settings.directories@.len() ==> probe_answered(*probe,
                venv_root_spec(base@, #[trigger] settings.directories@[j]@), false),
        },
{
    let mut i: usize = 0;
    while i < settings.directories.len()
        invariant
            0 <= i <= settings.directories@.len(),
            forall|v: &Vec<u8>| #[trigger] call_requires(*probe, (v,)),
            forall|j: int| 0 <= j < i ==> probe_answered(*probe,
                venv_root_spec(base@, #[trigger] settings.directories@[j]@), false),
        decreases settings.directories@.len() - i,
    {
        let candidate = join(base, &settings.directories[i]);
        let found = probe(&candidate);
        assert(probe_answered(*probe, candidate@, found));
        if found {
            return Some(candidate);
        }
        i = i + 1;
    }
    None
}

/// The separator between the entries of a search path list.
pub const LIST_SEPARATOR: u8 = 0x3a;

/// The bytes `VIRTUAL_ENV`.
pub open spec fn virtual_env_name_spec() -> Seq<u8> {
    seq![0x56u8, 0x49, 0x52, 0x54, 0x55, 0x41, 0x4c, 0x5f, 0x45, 0x4e, 0x56]
}

/// The bytes `PATH`.
pub open spec fn path_name_spec() -> Seq<u8> {
    seq![0x50u8, 0x41, 0x54, 0x48]
}

/// The search path with `dir` put in front of the inherited one. With no
/// inherited search path it is `dir` alone; otherwise the inherited entries
/// follow in their order, and a `dir` that holds the list separator cannot
/// be put in a list, which gives none.
pub open spec fn prepend_path_spec(dir: Seq<u8>, inherited: Option<Seq<u8>>) -> Option<Seq<u8>> {
    match inherited {
        None => Some(dir),
        Some(paths) => if dir.contains(LIST_SEPARATOR) {
            None
        } else {
            Some(dir + seq![LIST_SEPARATOR] + paths)
        },
    }
}

/// The entries of a search path list, in order: the pieces between list
/// separators.
pub open spec fn path_entries(s: Seq<u8>) -> Seq<Seq<u8>>
    decreases s.len(),
{
    if s.len() == 0 {
        seq![Seq::<u8>::empty()]
    } else {
        let rest = path_entries(s.drop_last());
        if s.last() == LIST_SEPARATOR {
            rest.push(Seq::<u8>::empty())
        } else {
            rest.update(rest.len() - 1, rest.last().push(s.last()))
        }
    }
}

proof fn lemma_path_entries_nonempty(s: Seq<u8>)
    ensures
        path_entries(s).len() >= 1,
    decreases s.len(),
{
    if s.len() > 0 {
        lemma_path_entries_nonempty(s.drop_last());
    }
}

proof fn lemma_path_entries_single(s: Seq<u8>)
    requires
        !s.contains(LIST_SEPARATOR),
    ensures
        path_entries(s) == seq![s],
    decreases s.len(),
{
    if s.len() > 0 {
        let p = s.drop_last();
        assert(!p.contains(LIST_SEPARATOR)) by {
            if p.contains(LIST_SEPARATOR) {
                let i = choose|i: int| 0 <= i < p.len() && p[i] == LIST_SEPARATOR;
                assert(s[i] == LIST_SEPARATOR);
            }
        }
        lemma_path_entries_single(p);
        assert(s[s.len() - 1] != LIST_SEPARATOR);
        assert(p.push(s.last()) =~= s);
        assert(path_entries(s) =~= seq![s]);
    } else {
        assert(s =~= Seq::<u8>::empty());
    }
}

proof fn lemma_path_entries_append(dir: Seq<u8>, paths: Seq<u8>)
    requires
        !dir.contains(LIST_SEPARATOR),
    ensures
        path_entries(dir + seq![LIST_SEPARATOR] + paths) == seq![dir] + path_entries(paths),
    decreases paths.len(),
{
    let head = dir + seq![LIST_SEPARATOR];
    if paths.len() == 0 {
        assert(head + paths =~= head);
        assert(head.drop_last() =~= dir);
        lemma_path_entries_single(dir);
        assert(path_entries(head) =~= seq![dir] + path_entries(paths));
    } else {
        let p = paths.drop_last();
        lemma_path_entries_append(dir, p);
        lemma_path_entries_nonempty(p);
        let whole = head + paths;
        assert(whole.drop_last() =~= head + p);
        assert(whole.last() == paths.last());
        let rest = path_entries(head + p);
        let tail = path_entries(p);
        assert(rest == seq![dir] + tail);
        if paths.last() == LIST_SEPARATOR {
            assert(path_entries(whole) =~= seq![dir] + path_entries(paths));
        } else {
            assert(rest.last() == tail.last());
            assert(path_entries(whole) =~= seq![dir] + path_entries(paths));
        }
    }
}

/// Putting a directory in front of an inherited search path keeps every
/// inherited entry, in its order, after the new one.
pub proof fn prepend_keeps_entry_order(dir: Seq<u8>, paths: Seq<u8>)
    requires
        !dir.contains(LIST_SEPARATOR),
    ensures
        prepend_path_spec(dir, Some(paths)) is Some,
        path_entries(prepend_path_spec(dir, Some(paths)).unwrap()) == seq![dir] + path_entries(paths),
{
    lemma_path_entries_append(dir, paths);
}

/// The environment of a task run inside the virtual environment at `root`:
/// `VIRTUAL_ENV` names the root, and the root's `bin` directory leads the
/// search path.
pub open spec fn venv_env_spec(
    env: Map<Seq<u8>, Seq<u8>>,
    root: Seq<u8>,
    inherited: Option<Seq<u8>>,
) -> Map<Seq<u8>, Seq<u8>> {
    let with_root = env.insert(virtual_env_name_spec(), root);
    match prepend_path_spec(join_spec(root, bin_spec()), inherited) {
        Some(p) => with_root.insert(path_name_spec(), p),
        None => with_root,
    }
}

/// The bytes of an optional byte string.
pub open spec fn opt_bytes(o: Option<Vec<u8>>) -> Option<Seq<u8>> {
    match o {
        Some(v) => Some(v@),
        None => None,
    }
}

/// The bytes of an optional borrowed byte string.
pub open spec fn opt_ref_bytes(o: Option<&Vec<u8>>) -> Option<Seq<u8>> {
    match o {
        Some(v) => Some(v@),
        None => None,
    }
}

/// `after` is `before` prepared for a task as `set_python_venv_path_for_tasks`
/// does it: with the first environment root that the probe found among the
/// candidates under `base`, or unchanged when it found none.
pub open spec fn venv_injected<F: Fn(&Vec<u8>) -> bool>(
    probe: F,
    settings: VenvSettings,
    base: Seq<u8>,
    inherited: Option<Seq<u8>>,
    before: Map<Seq<u8>, Seq<u8>>,
    after: Map<Seq<u8>, Seq<u8>>,
) -> bool {
    (after == before && forall|j: int| 0 <= j < settings.directories@.len() ==> probe_answered(probe,
        venv_root_spec(base, #[trigger] settings.directories@[j]@), false))
    || exists|k: int|
        0 <= k < settings.directories@.len()
        && probe_answered(probe, venv_root_spec(base, #[trigger] settings.directories@[k]@), true)
        && (forall|j: int| 0 <= j < k ==> probe_answered(probe,
            venv_root_spec(base, #[trigger] settings.directories@[j]@), false))
        && after == venv_env_spec(before, venv_root_spec(base, settings.directories@[k]@), inherited)
}

/// Whether `b` occurs in `s`.
pub fn contains_byte(s: &Vec<u8>, b: u8) -> (r: bool)
    ensures
        r == s@.contains(b),
{
    let mut i: usize = 0;
    while i < s.len()
        invariant
            0 <= i <= s@.len(),
            forall|j: int| 0 <= j < i ==> s@[j] != b,
        decreases s@.len() - i,
    {
        if s[i] == b {
            assert(s@[i as int] == b);
            return true;
        }
        i = i + 1;
    }
    false
}

/// The search path with `dir` in front of `inherited`; see `prepend_path_spec`.
pub fn prepend_path(dir: &Vec<u8>, inherited: Option<&Vec<u8>>) -> (r: Option<Vec<u8>>)
    ensures
        opt_bytes(r) == prepend_path_spec(dir@, opt_ref_bytes(inherited)),
{
    match inherited {
        None => Some(dir.clone()),
        Some(paths) => {
            if contains_byte(dir, LIST_SEPARATOR) {
                None
            } else {
                let mut r = dir.clone();
                r.push(LIST_SEPARATOR);
                append_bytes(&mut r, paths);
                Some(r)
            }
        },
    }
}

/// Sets `VIRTUAL_ENV` and the search path in `env` for the environment at `root`.
pub fn inject_venv_vars(root: &Vec<u8>, inherited: Option<&Vec<u8>>, env: &mut Environment)
    requires
    ensures
        final(env)@ == venv_env_spec(old(env)@, root@, opt_ref_bytes(inherited)),
{
    let name = vec![0x56u8, 0x49, 0x52, 0x54, 0x55, 0x41, 0x4c, 0x5f, 0x45, 0x4e, 0x56];
    assert(name@ == virtual_env_name_spec());
    env.insert(name, root.clone());
    let bin = bin_dir_name();
    let bin_dir = join(root, &bin);
    match prepend_path(&bin_dir, inherited) {
        Some(p) => {
            let name = vec![0x50u8, 0x41, 0x54, 0x48];
            assert(name@ == path_name_spec());
            env.insert(name, p);
        },
        None => {},
    }
}

/// Prepares `env` for a task: finds the first existing environment root
/// among the candidate directories under `base` and, if there is one, sets
/// `VIRTUAL_ENV` and puts its `bin` directory in front of the inherited
/// search path. With none found, `env` is left as it was.
pub fn set_python_venv_path_for_tasks<F: Fn(&Vec<u8>) -> bool>(
    settings: &VenvSettings,
    base: &Vec<u8>,
    inherited: Option<&Vec<u8>>,
    env: &mut Environment,
    probe: &F,
)
    requires
        forall|v: &Vec<u8>| #[trigger] call_requires(*probe, (v,)),
    ensures
        venv_injected(*probe, *settings, base@, opt_ref_bytes(inherited), old(env)@, final(env)@),
{
    match find_venv_root(settings, base, probe) {
        Some(root) => inject_venv_vars(&root, inherited, env),
        None => {},
    }
}

} // verus!
