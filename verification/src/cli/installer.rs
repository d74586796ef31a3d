//! Requests to run a game's Windows installer in its bottle.
use vstd::prelude::*;
use super::support::{source_check, source_step, ProfileSource, SourceView};
use crate::error::{PortCellarError, Result};
use crate::games::opt_text;
use crate::text::{concat, concat3, same_text, starts_with, starts_with_text, strip_all_prefix, strip_all_prefix_text};

verus! {

/// An installer request: the profile source, the installer, its arguments, an
/// optional snapshot id and whether the install was confirmed.
#[derive(Debug)]
pub struct InstallerRequest {
    pub source: ProfileSource,
    pub installer: String,
    pub installer_args: Vec<String>,
    pub snapshot_id: Option<String>,
    pub confirm: bool,
}

/// What an installer request reads as: source, installer, its arguments, snapshot id
/// and confirmation.
pub type InstallerView = (SourceView, Seq<char>, Seq<Seq<char>>, Option<Seq<char>>, bool);

/// The request that the arguments from `i` on make, given what was read before them.
pub open spec fn installer_parse(
    args: Seq<Seq<char>>,
    command_name: Seq<char>,
    allow_snapshot: bool,
    allow_confirm: bool,
    i: int,
    source: SourceView,
    installer: Option<Seq<char>>,
    installer_args: Seq<Seq<char>>,
    snapshot_id: Option<Seq<char>>,
    confirm: bool,
) -> core::result::Result<InstallerView, Seq<char>>
    decreases args.len() - i,
{
    if i < 0 || i >= args.len() {
        match source_check(source, command_name, true) {
            Err(m) => Err(m),
            Ok(()) => match installer {
                None => Err(command_name + " requires --installer PATH"@),
                Some(p) => Ok((source, p, installer_args, snapshot_id, confirm)),
            },
        }
    } else {
        match source_step(source, args, i) {
            Some(Err(m)) => Err(m),
            Some(Ok((s, next))) => if next > i {
                installer_parse(args, command_name, allow_snapshot, allow_confirm, next, s, installer,
                    installer_args, snapshot_id, confirm)
            } else {
                Err(Seq::empty())
            },
            None => {
                let a = args[i];
                if a == "--installer"@ {
                    if i + 1 < args.len() {
                        installer_parse(args, command_name, allow_snapshot, allow_confirm, i + 2, source,
                            Some(args[i + 1]), installer_args, snapshot_id, confirm)
                    } else {
                        Err("--installer requires a path"@)
                    }
                } else if starts_with(a, "--installer="@) {
                    installer_parse(args, command_name, allow_snapshot, allow_confirm, i + 1, source,
                        Some(strip_all_prefix(a, "--installer="@)), installer_args, snapshot_id, confirm)
                } else if a == "--installer-arg"@ {
                    if i + 1 < args.len() {
                        installer_parse(args, command_name, allow_snapshot, allow_confirm, i + 2, source,
                            installer, installer_args.push(args[i + 1]), snapshot_id, confirm)
                    } else {
                        Err("--installer-arg requires a value"@)
                    }
                } else if starts_with(a, "--installer-arg="@) {
                    installer_parse(args, command_name, allow_snapshot, allow_confirm, i + 1, source,
                        installer, installer_args.push(strip_all_prefix(a, "--installer-arg="@)), snapshot_id, confirm)
                } else if a == "--snapshot-id"@ && allow_snapshot {
                    if i + 1 < args.len() {
                        installer_parse(args, command_name, allow_snapshot, allow_confirm, i + 2, source,
                            installer, installer_args, Some(args[i + 1]), confirm)
                    } else {
                        Err("--snapshot-id requires an id"@)
                    }
                } else if allow_snapshot && starts_with(a, "--snapshot-id="@) {
                    installer_parse(args, command_name, allow_snapshot, allow_confirm, i + 1, source,
                        installer, installer_args, Some(strip_all_prefix(a, "--snapshot-id="@)), confirm)
                } else if a == "--confirm"@ && allow_confirm {
                    installer_parse(args, command_name, allow_snapshot, allow_confirm, i + 1, source,
                        installer, installer_args, snapshot_id, true)
                } else {
                    Err("unknown game "@ + command_name + " option: "@ + a)
                }
            },
        }
    }
}

/// Reads an installer request. `--snapshot-id` is accepted only when `allow_snapshot`
/// and `--confirm` only when `allow_confirm`; a profile source and an installer are
/// required. Repeated `--installer-arg` values are kept in order.
pub fn parse_request(args: &Vec<String>, command_name: &str, allow_snapshot: bool, allow_confirm: bool) -> (r: Result<InstallerRequest>)
    ensures
        match r {
            Ok(q) => installer_parse(args.deep_view(), command_name@, allow_snapshot, allow_confirm, 0,
                (None, None, None), None, Seq::empty(), None, false) == Ok::<InstallerView, Seq<char>>(
                    (q.source.view_source(), q.installer@, q.installer_args.deep_view(), opt_text(q.snapshot_id), q.confirm)),
            Err(e) => installer_parse(args.deep_view(), command_name@, allow_snapshot, allow_confirm, 0,
                (None, None, None), None, Seq::empty(), None, false) == Err::<InstallerView, Seq<char>>(e.text()),
        },
{
    let mut source = ProfileSource::new();
    let mut installer: Option<String> = None;
    let mut installer_args: Vec<String> = Vec::new();
    let mut snapshot_id: Option<String> = None;
    let mut confirm = false;
    let mut index: usize = 0;
    let ghost goal = installer_parse(args.deep_view(), command_name@, allow_snapshot, allow_confirm, 0,
        (None, None, None), None, Seq::empty(), None, false);
    proof {
        reveal_strlit("--installer");
        reveal_strlit("--installer=");
        reveal_strlit("--installer-arg");
        reveal_strlit("--installer-arg=");
        reveal_strlit("--snapshot-id");
        reveal_strlit("--snapshot-id=");
        reveal_strlit("--confirm");
        assert(installer_args.deep_view() =~= Seq::<Seq<char>>::empty());
    }
    while index < args.len()
        invariant
            index <= args.len(),
            goal == installer_parse(args.deep_view(), command_name@, allow_snapshot, allow_confirm, 0,
                (None, None, None), None, Seq::empty(), None, false),
            goal == installer_parse(args.deep_view(), command_name@, allow_snapshot, allow_confirm, index as int,
                source.view_source(), opt_text(installer), installer_args.deep_view(), opt_text(snapshot_id), confirm),
        decreases args.len() - index,
    {
        let ghost i = index as int;
        match source.parse_arg(args, &mut index) {
            Err(e) => { return Err(e); }
            Ok(true) => {
                index = index + 1;
                continue;
            }
            Ok(false) => {}
        }
        let a = args[index].as_str();
        assert(a@ == args.deep_view()[i]);
        if same_text(a, "--installer") {
            if index + 1 < args.len() {
                installer = Some(args[index + 1].clone());
                index = index + 2;
                continue;
            }
            return Err(PortCellarError::message("--installer requires a path".to_owned()));
        } else if starts_with_text(a, "--installer=") {
            installer = Some(strip_all_prefix_text(a, "--installer="));
        } else if same_text(a, "--installer-arg") {
            if index + 1 < args.len() {
                let ghost before = installer_args.deep_view();
                installer_args.push(args[index + 1].clone());
                assert(installer_args.deep_view() =~= before.push(args.deep_view()[i + 1]));
                index = index + 2;
                continue;
            }
            return Err(PortCellarError::message("--installer-arg requires a value".to_owned()));
        } else if starts_with_text(a, "--installer-arg=") {
            let ghost before = installer_args.deep_view();
            let v = strip_all_prefix_text(a, "--installer-arg=");
            installer_args.push(v);
            assert(installer_args.deep_view() =~= before.push(strip_all_prefix(a@, "--installer-arg="@)));
        } else if same_text(a, "--snapshot-id") && allow_snapshot {
            if index + 1 < args.len() {
                snapshot_id = Some(args[index + 1].clone());
                index = index + 2;
                continue;
            }
            return Err(PortCellarError::message("--snapshot-id requires an id".to_owned()));
        } else if allow_snapshot && starts_with_text(a, "--snapshot-id=") {
            snapshot_id = Some(strip_all_prefix_text(a, "--snapshot-id="));
        } else if same_text(a, "--confirm") && allow_confirm {
            confirm = true;
        } else {
            return Err(PortCellarError::message(concat(concat3("unknown game ", command_name, " option: ").as_str(), a)));
        }
        index = index + 1;
    }
    source.validate(command_name, true)?;
    match installer {
        None => Err(PortCellarError::message(concat(command_name, " requires --installer PATH"))),
        Some(p) => Ok(InstallerRequest { source, installer: p, installer_args, snapshot_id, confirm }),
    }
}

} // verus!
