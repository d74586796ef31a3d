//! Plans that change a Wine bottle: dependency installs, snapshots and rollbacks.
//!
//! What the filesystem holds (whether the prefix is a directory, whether a snapshot
//! path exists) and where winetricks lives are found by the caller and passed in.
use vstd::prelude::*;
use crate::error::{PortCellarError, Result};
use crate::games::{winetricks_verb_spec, GameProfile, RuntimeDependency};
use crate::paths::{join, parent_of, parent_path, path_join};
use crate::strmap::StrMap;
use crate::text::{all_component_chars, concat, concat3, is_component_text};
use crate::types::{
    dependency_status_label, BottleMutationPlan, BottleRollbackPlan, BottleSnapshotPlan,
    CommandPlan, RuntimeDependencyPlan, RuntimeDependencyStatus, WineSteamRuntime,
};
use crate::games::dependency_label;

verus! {

/// Whether `c` runs `program` with `args`, no extra environment and no working directory.
pub open spec fn plain_command(c: CommandPlan, program: Seq<char>, args: Seq<Seq<char>>) -> bool {
    &&& c.program@ == program
    &&& c.args.deep_view() == args
    &&& c.envs@.len() == 0
    &&& c.current_dir is None
}

/// A command that runs `program` with `flags` and then `paths` as arguments.
pub fn filesystem_command(program: &str, flags: Vec<String>, paths: Vec<String>) -> (r: CommandPlan)
    ensures plain_command(r, program@, flags.deep_view() + paths.deep_view()),
{
    let mut args = flags;
    let ghost before = args.deep_view();
    let mut i: usize = 0;
    while i < paths.len()
        invariant
            i <= paths.len(),
            args.deep_view() == before + paths.deep_view().take(i as int),
        decreases paths.len() - i,
    {
        let ghost prev = args.deep_view();
        args.push(paths[i].clone());
        assert(args.deep_view() =~= prev.push(paths@[i as int]@));
        assert(paths.deep_view().take(i + 1) =~= paths.deep_view().take(i as int).push(paths@[i as int]@));
        i = i + 1;
    }
    assert(paths.deep_view().take(i as int) =~= paths.deep_view());
    CommandPlan { program: program.to_owned(), args, envs: StrMap::new(), current_dir: None }
}

fn texts2(a: &str, b: &str) -> (r: Vec<String>)
    ensures r.deep_view() == seq![a@, b@],
{
    let mut v: Vec<String> = Vec::new();
    v.push(a.to_owned());
    v.push(b.to_owned());
    assert(v.deep_view() =~= seq![a@, b@]);
    v
}

fn texts1(a: &str) -> (r: Vec<String>)
    ensures r.deep_view() == seq![a@],
{
    let mut v: Vec<String> = Vec::new();
    v.push(a.to_owned());
    assert(v.deep_view() =~= seq![a@]);
    v
}

/// The note of a dependency with no safe generic verb.
pub open spec fn manual_note() -> Seq<char> {
    "no safe generic verb mapping; use the game's installer or a verified bottle recipe"@
}

/// Whether `p` is the install plan for `d`, given where winetricks is (if found) and
/// the environment that commands in the bottle run with.
pub open spec fn is_dependency_plan(
    p: RuntimeDependencyPlan,
    d: RuntimeDependency,
    winetricks: Option<Seq<char>>,
    envs: Seq<(Seq<char>, Seq<char>)>,
) -> bool {
    &&& p.dependency == d
    &&& match winetricks_verb_spec(d) {
        None => p.status == RuntimeDependencyStatus::Manual && p.command is None
            && p.note@ == manual_note(),
        Some(verb) => match winetricks {
            None => p.status == RuntimeDependencyStatus::ToolMissing && p.command is None
                && p.note@ == "winetricks verb '"@ + verb + "' is known, but winetricks was not found"@,
            Some(program) => p.status == RuntimeDependencyStatus::Planned
                && (p.command matches Some(c) && c.program@ == program && c.args.deep_view() == seq![verb]
                    && c.envs@ == envs && c.current_dir is None)
                && p.note@ == "dry-run plan only; not applied automatically; execute '"@ + verb
                    + "' explicitly after validating the bottle"@,
        },
    }
}

/// Whether `plans` holds, in order, the plan for each of `deps`.
pub open spec fn are_dependency_plans(
    plans: Seq<RuntimeDependencyPlan>,
    deps: Seq<RuntimeDependency>,
    winetricks: Option<Seq<char>>,
    envs: Seq<(Seq<char>, Seq<char>)>,
) -> bool {
    &&& plans.len() == deps.len()
    &&& forall|i: int| 0 <= i < plans.len() ==> is_dependency_plan(#[trigger] plans[i], deps[i], winetricks, envs)
}

/// `Option<&str>` as optional text.
pub open spec fn opt_view(o: Option<&str>) -> Option<Seq<char>> {
    match o {
        Some(s) => Some(s@),
        None => None,
    }
}

/// The plan for one dependency.
pub fn dependency_plan(dependency: RuntimeDependency, winetricks: Option<&str>, envs: &StrMap) -> (r: RuntimeDependencyPlan)
    ensures is_dependency_plan(r, dependency, opt_view(winetricks), envs@),
{
    match dependency.winetricks_verb() {
        None => {
            proof { reveal_strlit("no safe generic verb mapping; use the game's installer or a verified bottle recipe"); }
            RuntimeDependencyPlan {
                dependency,
                status: RuntimeDependencyStatus::Manual,
                command: None,
                note: "no safe generic verb mapping; use the game's installer or a verified bottle recipe".to_owned(),
            }
        }
        Some(verb) => match winetricks {
            None => RuntimeDependencyPlan {
                dependency,
                status: RuntimeDependencyStatus::ToolMissing,
                command: None,
                note: concat3("winetricks verb '", verb, "' is known, but winetricks was not found"),
            },
            Some(program) => RuntimeDependencyPlan {
                dependency,
                status: RuntimeDependencyStatus::Planned,
                command: Some(CommandPlan {
                    program: program.to_owned(),
                    args: texts1(verb),
                    envs: envs.clone(),
                    current_dir: None,
                }),
                note: concat3("dry-run plan only; not applied automatically; execute '", verb,
                    "' explicitly after validating the bottle"),
            },
        },
    }
}

/// The install plans for `profile`'s declared dependencies, in order. `winetricks` is
/// where winetricks was found, if it was; `envs` is the bottle's Wine environment.
pub fn wine_dependency_plans_for<P: GameProfile>(profile: &P, winetricks: Option<&str>, envs: &StrMap) -> (r: Vec<RuntimeDependencyPlan>)
    ensures are_dependency_plans(r@, profile.spec_dependencies(), opt_view(winetricks), envs@),
{
    let deps = profile.runtime_policy().dependencies;
    let mut out: Vec<RuntimeDependencyPlan> = Vec::new();
    let mut i: usize = 0;
    while i < deps.len()
        invariant
            i <= deps.len(),
            deps@ == profile.spec_dependencies(),
            out@.len() == i,
            forall|k: int| 0 <= k < i ==> is_dependency_plan(#[trigger] out@[k], deps@[k], opt_view(winetricks), envs@),
        decreases deps.len() - i,
    {
        out.push(dependency_plan(deps[i], winetricks, envs));
        i = i + 1;
    }
    out
}

/// Whether `value` may name a snapshot: non-empty, of `[A-Za-z0-9_-]` only.
pub open spec fn snapshot_id_ok(value: Seq<char>) -> bool {
    value.len() > 0 && all_component_chars(value)
}

/// Checks that `value` is a non-empty safe path component, and returns it.
pub fn safe_snapshot_component(value: &str) -> (r: Result<String>)
    ensures
        match r {
            Ok(v) => snapshot_id_ok(value@) && v@ == value@,
            Err(e) => !snapshot_id_ok(value@)
                && e.text() == "snapshot id must be a non-empty safe path component"@,
        },
{
    if value.unicode_len() == 0 || !is_component_text(value) {
        return Err(PortCellarError::message("snapshot id must be a non-empty safe path component".to_owned()));
    }
    Ok(value.to_owned())
}

/// Where snapshots of the bottle at `prefix` are kept.
pub open spec fn snapshot_root_of(parent: Seq<char>) -> Seq<char> {
    path_join(parent, "snapshots"@)
}

/// The verdict on a snapshot plan: `Ok` with its destination, or the error message.
pub open spec fn snapshot_check(prefix: Seq<char>, id: Seq<char>, prefix_is_dir: bool, destination_exists: bool)
    -> core::result::Result<Seq<char>, Seq<char>>
{
    if !prefix_is_dir {
        Err("Wine prefix does not exist: "@ + prefix)
    } else if !snapshot_id_ok(id) {
        Err("snapshot id must be a non-empty safe path component"@)
    } else if parent_of(prefix) is None {
        Err("Wine prefix has no snapshot parent: "@ + prefix)
    } else if destination_exists {
        Err("snapshot destination already exists: "@ + path_join(snapshot_root_of(parent_of(prefix)->0), id))
    } else {
        Ok(path_join(snapshot_root_of(parent_of(prefix)->0), id))
    }
}

/// Whether `p` copies the bottle at `prefix` to `destination`.
pub open spec fn is_snapshot_plan(p: BottleSnapshotPlan, prefix: Seq<char>, destination: Seq<char>) -> bool {
    let root = snapshot_root_of(parent_of(prefix)->0);
    &&& p.source@ == prefix
    &&& p.destination@ == destination
    &&& plain_command(p.prepare_command, "/bin/mkdir"@, seq!["-p"@, root])
    &&& plain_command(p.command, "/bin/cp"@, seq!["-a"@, "--"@, prefix, destination])
}

/// The snapshot destination for `snapshot_id` beside the bottle at `prefix`, or the error
/// that a snapshot plan reports for it before looking at the filesystem.
pub fn snapshot_destination(prefix: &str, snapshot_id: &str) -> (r: Result<String>)
    ensures
        match r {
            Ok(d) => snapshot_id_ok(snapshot_id@) && parent_of(prefix@) is Some
                && d@ == path_join(snapshot_root_of(parent_of(prefix@)->0), snapshot_id@),
            Err(e) => snapshot_check(prefix@, snapshot_id@, true, false) == Err::<Seq<char>, Seq<char>>(e.text()),
        },
{
    let id = safe_snapshot_component(snapshot_id)?;
    let parent = match parent_path(prefix) {
        Some(p) => p,
        None => { return Err(PortCellarError::message(concat("Wine prefix has no snapshot parent: ", prefix))); }
    };
    let root = join(parent.as_str(), "snapshots");
    proof { reveal_strlit("snapshots"); }
    Ok(join(root.as_str(), id.as_str()))
}

/// The plan that copies the bottle aside before it is changed. `prefix_is_dir` and
/// `destination_exists` are what the filesystem showed for the prefix and for the
/// destination that `snapshot_destination` names.
pub fn wine_bottle_snapshot_plan(runtime: &WineSteamRuntime, snapshot_id: &str, prefix_is_dir: bool, destination_exists: bool) -> (r: Result<BottleSnapshotPlan>)
    ensures
        match r {
            Ok(p) => snapshot_check(runtime.prefix@, snapshot_id@, prefix_is_dir, destination_exists) matches Ok(d)
                && is_snapshot_plan(p, runtime.prefix@, d),
            Err(e) => snapshot_check(runtime.prefix@, snapshot_id@, prefix_is_dir, destination_exists)
                == Err::<Seq<char>, Seq<char>>(e.text()),
        },
{
    let prefix = runtime.prefix.as_str();
    if !prefix_is_dir {
        return Err(PortCellarError::message(concat("Wine prefix does not exist: ", prefix)));
    }
    let destination = snapshot_destination(prefix, snapshot_id)?;
    if destination_exists {
        return Err(PortCellarError::message(concat("snapshot destination already exists: ", destination.as_str())));
    }
    let parent = match parent_path(prefix) {
        Some(p) => p,
        None => { return Err(PortCellarError::message(concat("Wine prefix has no snapshot parent: ", prefix))); }
    };
    let root = join(parent.as_str(), "snapshots");
    proof {
        reveal_strlit("snapshots");
        reveal_strlit("/bin/mkdir");
        reveal_strlit("/bin/cp");
        reveal_strlit("-p");
        reveal_strlit("-a");
        reveal_strlit("--");
    }
    let prepare_command = filesystem_command("/bin/mkdir", texts1("-p"), texts1(root.as_str()));
    assert(seq!["-p"@] + seq![root@] =~= seq!["-p"@, root@]);
    let command = filesystem_command("/bin/cp", texts2("-a", "--"), texts2(prefix, destination.as_str()));
    assert(seq!["-a"@, "--"@] + seq![prefix@, destination@] =~= seq!["-a"@, "--"@, prefix@, destination@]);
    Ok(BottleSnapshotPlan {
        source: prefix.to_owned(),
        destination,
        prepare_command,
        command,
    })
}

/// A mutation plan: a snapshot of the stopped bottle, then the dependency installs.
pub fn wine_bottle_mutation_plan<P: GameProfile>(
    profile: &P,
    runtime: &WineSteamRuntime,
    snapshot_id: &str,
    prefix_is_dir: bool,
    destination_exists: bool,
    winetricks: Option<&str>,
    envs: &StrMap,
) -> (r: Result<BottleMutationPlan>)
    ensures
        match r {
            Ok(p) => {
                &&& !runtime.running && !runtime.game_running
                &&& p.prefix@ == runtime.prefix@
                &&& snapshot_check(runtime.prefix@, snapshot_id@, prefix_is_dir, destination_exists) matches Ok(d)
                    && is_snapshot_plan(p.snapshot, runtime.prefix@, d)
                &&& are_dependency_plans(p.dependencies@, profile.spec_dependencies(), opt_view(winetricks), envs@)
            },
            Err(e) => if runtime.running || runtime.game_running {
                    e.text() == "stop Wine Steam and the game before creating a bottle mutation plan"@
                } else {
                    snapshot_check(runtime.prefix@, snapshot_id@, prefix_is_dir, destination_exists)
                        == Err::<Seq<char>, Seq<char>>(e.text())
                },
        },
{
    if runtime.running || runtime.game_running {
        return Err(PortCellarError::message(
            "stop Wine Steam and the game before creating a bottle mutation plan".to_owned()));
    }
    let snapshot = wine_bottle_snapshot_plan(runtime, snapshot_id, prefix_is_dir, destination_exists)?;
    Ok(BottleMutationPlan {
        prefix: runtime.prefix.clone(),
        snapshot,
        dependencies: wine_dependency_plans_for(profile, winetricks, envs),
    })
}

/// What the filesystem holds at a rollback snapshot path.
#[derive(Debug, Clone, Copy, PartialEq, Eq, Structural)]
pub enum SnapshotState {
    Missing,
    NotDirectory,
    Directory,
}

/// The paths a rollback uses: `(snapshot, backup, staging, rollback root)`.
pub open spec fn rollback_paths_of(parent: Seq<char>, id: Seq<char>) -> (Seq<char>, Seq<char>, Seq<char>, Seq<char>) {
    let root = path_join(parent, "rollback-backups"@);
    (path_join(snapshot_root_of(parent), id), path_join(root, id + "-current"@), path_join(root, id + "-restore"@), root)
}

/// The verdict on a rollback plan: `Ok` or the error message.
pub open spec fn rollback_check(
    runtime: WineSteamRuntime,
    id: Seq<char>,
    prefix_is_dir: bool,
    snapshot: SnapshotState,
    backup_exists: bool,
    staging_exists: bool,
) -> core::result::Result<(), Seq<char>> {
    let prefix = runtime.prefix@;
    if runtime.running || runtime.game_running {
        Err("stop Wine Steam and the game before creating a bottle rollback plan"@)
    } else if !prefix_is_dir {
        Err("Wine prefix does not exist: "@ + prefix)
    } else if !snapshot_id_ok(id) {
        Err("snapshot id must be a non-empty safe path component"@)
    } else if parent_of(prefix) is None {
        Err("Wine prefix has no rollback parent: "@ + prefix)
    } else {
        let paths = rollback_paths_of(parent_of(prefix)->0, id);
        if snapshot == SnapshotState::Missing {
            Err("rollback snapshot does not exist: "@ + paths.0)
        } else if snapshot == SnapshotState::NotDirectory {
            Err("rollback snapshot must be a real directory: "@ + paths.0)
        } else if backup_exists {
            Err("rollback backup already exists: "@ + paths.1)
        } else if staging_exists {
            Err("rollback staging already exists: "@ + paths.2)
        } else {
            Ok(())
        }
    }
}

/// The rollback paths for `snapshot_id` beside the bottle at `prefix`, as
/// `(snapshot, backup, staging)`, or the error a rollback plan reports before it looks
/// at the filesystem.
pub fn rollback_paths(prefix: &str, snapshot_id: &str) -> (r: Result<(String, String, String, String)>)
    ensures
        match r {
            Ok(t) => snapshot_id_ok(snapshot_id@) && parent_of(prefix@) is Some
                && (t.0@, t.1@, t.2@, t.3@) == rollback_paths_of(parent_of(prefix@)->0, snapshot_id@),
            Err(e) => !snapshot_id_ok(snapshot_id@) && e.text() == "snapshot id must be a non-empty safe path component"@
                || snapshot_id_ok(snapshot_id@) && parent_of(prefix@) is None
                    && e.text() == "Wine prefix has no rollback parent: "@ + prefix@,
        },
{
    let id = safe_snapshot_component(snapshot_id)?;
    let parent = match parent_path(prefix) {
        Some(p) => p,
        None => { return Err(PortCellarError::message(concat("Wine prefix has no rollback parent: ", prefix))); }
    };
    proof {
        reveal_strlit("snapshots");
        reveal_strlit("rollback-backups");
        reveal_strlit("-current");
        reveal_strlit("-restore");
    }
    let snapshots = join(parent.as_str(), "snapshots");
    let snapshot = join(snapshots.as_str(), id.as_str());
    let root = join(parent.as_str(), "rollback-backups");
    let backup = join(root.as_str(), concat(id.as_str(), "-current").as_str());
    let staging = join(root.as_str(), concat(id.as_str(), "-restore").as_str());
    Ok((snapshot, backup, staging, root))
}

/// Whether `p` restores the bottle at `prefix` from the snapshot at `paths`.
pub open spec fn is_rollback_plan(p: BottleRollbackPlan, prefix: Seq<char>, paths: (Seq<char>, Seq<char>, Seq<char>, Seq<char>)) -> bool {
    &&& p.prefix@ == prefix
    &&& p.snapshot@ == paths.0
    &&& p.backup@ == paths.1
    &&& p.staging@ == paths.2
    &&& plain_command(p.prepare_command, "/bin/mkdir"@, seq!["-p"@, paths.3])
    &&& plain_command(p.stage_command, "/bin/cp"@, seq!["-a"@, "--"@, paths.0, paths.2])
    &&& plain_command(p.backup_command, "/bin/mv"@, seq!["--"@, prefix, paths.1])
    &&& plain_command(p.activate_command, "/bin/mv"@, seq!["--"@, paths.2, prefix])
}

/// The plan that restores the stopped bottle from a snapshot: stage a copy of the
/// snapshot, move the current bottle aside as a backup, then move the copy in.
/// `prefix_is_dir`, `snapshot`, `backup_exists` and `staging_exists` are what the
/// filesystem showed for the paths that `rollback_paths` names.
pub fn wine_bottle_rollback_plan(
    runtime: &WineSteamRuntime,
    snapshot_id: &str,
    prefix_is_dir: bool,
    snapshot: SnapshotState,
    backup_exists: bool,
    staging_exists: bool,
) -> (r: Result<BottleRollbackPlan>)
    ensures
        match r {
            Ok(p) => rollback_check(*runtime, snapshot_id@, prefix_is_dir, snapshot, backup_exists, staging_exists) is Ok
                && is_rollback_plan(p, runtime.prefix@, rollback_paths_of(parent_of(runtime.prefix@)->0, snapshot_id@)),
            Err(e) => rollback_check(*runtime, snapshot_id@, prefix_is_dir, snapshot, backup_exists, staging_exists)
                == Err::<(), Seq<char>>(e.text()),
        },
{
    if runtime.running || runtime.game_running {
        return Err(PortCellarError::message(
            "stop Wine Steam and the game before creating a bottle rollback plan".to_owned()));
    }
    let prefix = runtime.prefix.as_str();
    if !prefix_is_dir {
        return Err(PortCellarError::message(concat("Wine prefix does not exist: ", prefix)));
    }
    let (snapshot_path, backup, staging, root) = rollback_paths(prefix, snapshot_id)?;
    match snapshot {
        SnapshotState::Missing => {
            return Err(PortCellarError::message(concat("rollback snapshot does not exist: ", snapshot_path.as_str())));
        }
        SnapshotState::NotDirectory => {
            return Err(PortCellarError::message(concat("rollback snapshot must be a real directory: ", snapshot_path.as_str())));
        }
        SnapshotState::Directory => {}
    }
    if backup_exists {
        return Err(PortCellarError::message(concat("rollback backup already exists: ", backup.as_str())));
    }
    if staging_exists {
        return Err(PortCellarError::message(concat("rollback staging already exists: ", staging.as_str())));
    }
    proof {
        reveal_strlit("/bin/mkdir");
        reveal_strlit("/bin/cp");
        reveal_strlit("/bin/mv");
        reveal_strlit("-p");
        reveal_strlit("-a");
        reveal_strlit("--");
    }
    let prepare_command = filesystem_command("/bin/mkdir", texts1("-p"), texts1(root.as_str()));
    assert(seq!["-p"@] + seq![root@] =~= seq!["-p"@, root@]);
    let stage_command = filesystem_command("/bin/cp", texts2("-a", "--"), texts2(snapshot_path.as_str(), staging.as_str()));
    assert(seq!["-a"@, "--"@] + seq![snapshot_path@, staging@] =~= seq!["-a"@, "--"@, snapshot_path@, staging@]);
    let backup_command = filesystem_command("/bin/mv", texts1("--"), texts2(prefix, backup.as_str()));
    assert(seq!["--"@] + seq![prefix@, backup@] =~= seq!["--"@, prefix@, backup@]);
    let activate_command = filesystem_command("/bin/mv", texts1("--"), texts2(staging.as_str(), prefix));
    assert(seq!["--"@] + seq![staging@, prefix@] =~= seq!["--"@, staging@, prefix@]);
    Ok(BottleRollbackPlan {
        prefix: prefix.to_owned(),
        snapshot: snapshot_path,
        backup,
        staging,
        prepare_command,
        stage_command,
        backup_command,
        activate_command,
    })
}

/// What is wrong with a dependency plan that a mutation cannot execute, if anything:
/// its status when it is not planned, or that a planned one has no command.
pub open spec fn unresolved_entry(p: RuntimeDependencyPlan) -> Option<Seq<char>> {
    if p.status != RuntimeDependencyStatus::Planned {
        Some(dependency_label(p.dependency) + ": "@ + dependency_status_label(p.status))
    } else if p.command is None {
        Some(dependency_label(p.dependency) + ": PlannedWithoutCommand"@)
    } else {
        None
    }
}

/// The unresolved entries of `plans`, in order.
pub open spec fn unresolved_of(plans: Seq<RuntimeDependencyPlan>) -> Seq<Seq<char>>
    decreases plans.len(),
{
    if plans.len() == 0 {
        Seq::empty()
    } else {
        match unresolved_entry(plans.last()) {
            Some(m) => unresolved_of(plans.drop_last()).push(m),
            None => unresolved_of(plans.drop_last()),
        }
    }
}

/// The plans that a mutation cannot execute, described as `Dependency: Status`.
pub fn unresolved_dependencies(dependencies: &Vec<RuntimeDependencyPlan>) -> (r: Vec<String>)
    ensures r.deep_view() == unresolved_of(dependencies@),
{
    let mut out: Vec<String> = Vec::new();
    let mut i: usize = 0;
    while i < dependencies.len()
        invariant
            i <= dependencies.len(),
            out.deep_view() == unresolved_of(dependencies@.take(i as int)),
        decreases dependencies.len() - i,
    {
        let p = &dependencies[i];
        assert(dependencies@.take(i + 1).drop_last() =~= dependencies@.take(i as int));
        assert(dependencies@.take(i + 1).last() == dependencies@[i as int]);
        let ghost before = out.deep_view();
        if p.status != RuntimeDependencyStatus::Planned {
            out.push(concat3(p.dependency.label(), ": ", p.status.label()));
            assert(out.deep_view() =~= before.push(dependency_label(p.dependency) + ": "@ + dependency_status_label(p.status)));
        } else if p.command.is_none() {
            out.push(concat(p.dependency.label(), ": PlannedWithoutCommand"));
            assert(out.deep_view() =~= before.push(dependency_label(p.dependency) + ": PlannedWithoutCommand"@));
        }
        i = i + 1;
    }
    assert(dependencies@.take(i as int) =~= dependencies@);
    out
}

} // verus!
