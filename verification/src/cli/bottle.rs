//! Requests to change or restore a game's bottle.
use vstd::prelude::*;
use super::support::{source_check, source_step, ProfileSource, SourceView};
use crate::error::{PortCellarError, Result};
use crate::text::{concat, concat3, same_text, starts_with, starts_with_text, strip_all_prefix, strip_all_prefix_text};

verus! {

/// A bottle mutation or rollback request: the profile source, the snapshot id, and
/// whether the change was confirmed.
#[derive(Debug)]
pub struct MutationRequest {
    pub source: ProfileSource,
    pub snapshot_id: String,
    pub confirm: bool,
}

/// The request that the arguments from `i` on make, given what was read before them.
pub open spec fn mutation_parse(
    args: Seq<Seq<char>>,
    command_name: Seq<char>,
    allow_confirm: bool,
    i: int,
    source: SourceView,
    snapshot_id: Option<Seq<char>>,
    confirm: bool,
) -> core::result::Result<(SourceView, Seq<char>, bool), Seq<char>>
    decreases args.len() - i,
{
    if i < 0 || i >= args.len() {
        match source_check(source, command_name, true) {
            Err(m) => Err(m),
            Ok(()) => match snapshot_id {
                None => Err(command_name + " requires --snapshot-id ID"@),
                Some(id) => Ok((source, id, confirm)),
            },
        }
    } else {
        match source_step(source, args, i) {
            Some(Err(m)) => Err(m),
            Some(Ok((s, next))) => if next > i {
                mutation_parse(args, command_name, allow_confirm, next, s, snapshot_id, confirm)
            } else {
                Err(Seq::empty())
            },
            None => {
                let a = args[i];
                if a == "--snapshot-id"@ {
                    if i + 1 < args.len() {
                        mutation_parse(args, command_name, allow_confirm, i + 2, source, Some(args[i + 1]), confirm)
                    } else {
                        Err("--snapshot-id requires an id"@)
                    }
                } else if starts_with(a, "--snapshot-id="@) {
                    mutation_parse(args, command_name, allow_confirm, i + 1, source,
                        Some(strip_all_prefix(a, "--snapshot-id="@)), confirm)
                } else if a == "--confirm"@ && allow_confirm {
                    mutation_parse(args, command_name, allow_confirm, i + 1, source, snapshot_id, true)
                } else {
                    Err("unknown game "@ + command_name + " option: "@ + a)
                }
            },
        }
    }
}

/// Reads a mutation or rollback request. `--confirm` is accepted only when
/// `allow_confirm`; exactly one profile source and a snapshot id are required.
pub fn parse_request(args: &Vec<String>, command_name: &str, allow_confirm: bool) -> (r: Result<MutationRequest>)
    ensures
        match r {
            Ok(q) => mutation_parse(args.deep_view(), command_name@, allow_confirm, 0,
                (None, None, None), None, false) == Ok::<(SourceView, Seq<char>, bool), Seq<char>>(
                    (q.source.view_source(), q.snapshot_id@, q.confirm)),
            Err(e) => mutation_parse(args.deep_view(), command_name@, allow_confirm, 0,
                (None, None, None), None, false) == Err::<(SourceView, Seq<char>, bool), Seq<char>>(e.text()),
        },
{
    let mut source = ProfileSource::new();
    let mut snapshot_id: Option<String> = None;
    let mut confirm = false;
    let mut index: usize = 0;
    let ghost goal = mutation_parse(args.deep_view(), command_name@, allow_confirm, 0, (None, None, None), None, false);
    proof {
        reveal_strlit("--snapshot-id");
        reveal_strlit("--snapshot-id=");
        reveal_strlit("--confirm");
    }
    while index < args.len()
        invariant
            index <= args.len(),
            goal == mutation_parse(args.deep_view(), command_name@, allow_confirm, 0, (None, None, None), None, false),
            goal == mutation_parse(args.deep_view(), command_name@, allow_confirm, index as int,
                source.view_source(), crate::games::opt_text(snapshot_id), confirm),
        decreases args.len() - index,
    {
        let ghost before = source.view_source();
        let ghost i = index as int;
        match source.parse_arg(args, &mut index) {
            Err(e) => {
                return Err(e);
            }
            Ok(true) => {
                index = index + 1;
                continue;
            }
            Ok(false) => {}
        }
        let a = args[index].as_str();
        assert(a@ == args.deep_view()[i]);
        if same_text(a, "--snapshot-id") {
            if index + 1 < args.len() {
                snapshot_id = Some(args[index + 1].clone());
                index = index + 2;
                continue;
            }
            return Err(PortCellarError::message("--snapshot-id requires an id".to_owned()));
        } else if starts_with_text(a, "--snapshot-id=") {
            snapshot_id = Some(strip_all_prefix_text(a, "--snapshot-id="));
        } else if same_text(a, "--confirm") && allow_confirm {
            confirm = true;
        } else {
            return Err(PortCellarError::message(concat(concat3("unknown game ", command_name, " option: ").as_str(), a)));
        }
        index = index + 1;
    }
    source.validate(command_name, true)?;
    match snapshot_id {
        None => Err(PortCellarError::message(concat(command_name, " requires --snapshot-id ID"))),
        Some(id) => Ok(MutationRequest { source, snapshot_id: id, confirm }),
    }
}

} // verus!
