//! Requests to show recorded compatibility evidence.
use vstd::prelude::*;
use crate::error::{PortCellarError, Result};
use crate::games::opt_text;
use crate::runtime::dependencies::snapshot_id_ok;
use crate::text::{concat, is_component_text, same_text, starts_with, starts_with_text, strip_all_prefix, strip_all_prefix_text};

verus! {

/// Checks that an app id is a non-empty safe path component, so that it cannot reach
/// outside the evidence root, and returns it.
pub fn safe_component(value: &str) -> (r: Result<String>)
    ensures
        match r {
            Ok(v) => snapshot_id_ok(value@) && v@ == value@,
            Err(e) => !snapshot_id_ok(value@) && e.text() == "evidence app id must be a safe path component"@,
        },
{
    if value.unicode_len() == 0 || !is_component_text(value) {
        return Err(PortCellarError::message("evidence app id must be a safe path component".to_owned()));
    }
    Ok(value.to_owned())
}

/// The evidence root and app id that the arguments from `i` on select.
pub open spec fn evidence_parse(args: Seq<Seq<char>>, i: int, root: Seq<char>, app_id: Option<Seq<char>>)
    -> core::result::Result<(Seq<char>, Option<Seq<char>>), Seq<char>>
    decreases args.len() - i,
{
    if i < 0 || i >= args.len() {
        Ok((root, app_id))
    } else {
        let a = args[i];
        if a == "--root"@ {
            if i + 1 < args.len() { evidence_parse(args, i + 2, args[i + 1], app_id) }
            else { Err("--root requires a path"@) }
        } else if starts_with(a, "--root="@) {
            evidence_parse(args, i + 1, strip_all_prefix(a, "--root="@), app_id)
        } else if a == "--app-id"@ {
            if i + 1 < args.len() {
                if snapshot_id_ok(args[i + 1]) { evidence_parse(args, i + 2, root, Some(args[i + 1])) }
                else { Err("evidence app id must be a safe path component"@) }
            } else {
                Err("--app-id requires an id"@)
            }
        } else if starts_with(a, "--app-id="@) {
            let v = strip_all_prefix(a, "--app-id="@);
            if snapshot_id_ok(v) { evidence_parse(args, i + 1, root, Some(v)) }
            else { Err("evidence app id must be a safe path component"@) }
        } else {
            Err("unknown game evidence option: "@ + a)
        }
    }
}

/// Reads an evidence request: the evidence root (by default `default_root`) and,
/// optionally, one app id.
pub fn parse_request(args: &Vec<String>, default_root: &str) -> (r: Result<(String, Option<String>)>)
    ensures
        match r {
            Ok((root, app_id)) => evidence_parse(args.deep_view(), 0, default_root@, None)
                == Ok::<(Seq<char>, Option<Seq<char>>), Seq<char>>((root@, opt_text(app_id))),
            Err(e) => evidence_parse(args.deep_view(), 0, default_root@, None)
                == Err::<(Seq<char>, Option<Seq<char>>), Seq<char>>(e.text()),
        },
{
    let mut root = default_root.to_owned();
    let mut app_id: Option<String> = None;
    let mut index: usize = 0;
    let ghost goal = evidence_parse(args.deep_view(), 0, default_root@, None);
    proof {
        reveal_strlit("--root");
        reveal_strlit("--root=");
        reveal_strlit("--app-id");
        reveal_strlit("--app-id=");
    }
    while index < args.len()
        invariant
            index <= args.len(),
            goal == evidence_parse(args.deep_view(), 0, default_root@, None),
            goal == evidence_parse(args.deep_view(), index as int, root@, opt_text(app_id)),
        decreases args.len() - index,
    {
        let a = args[index].as_str();
        assert(a@ == args.deep_view()[index as int]);
        if same_text(a, "--root") {
            if index + 1 < args.len() {
                root = args[index + 1].clone();
                index = index + 2;
                continue;
            }
            return Err(PortCellarError::message("--root requires a path".to_owned()));
        } else if starts_with_text(a, "--root=") {
            root = strip_all_prefix_text(a, "--root=");
        } else if same_text(a, "--app-id") {
            if index + 1 < args.len() {
                app_id = Some(safe_component(args[index + 1].as_str())?);
                index = index + 2;
                continue;
            }
            return Err(PortCellarError::message("--app-id requires an id".to_owned()));
        } else if starts_with_text(a, "--app-id=") {
            let v = strip_all_prefix_text(a, "--app-id=");
            app_id = Some(safe_component(v.as_str())?);
        } else {
            return Err(PortCellarError::message(concat("unknown game evidence option: ", a)));
        }
        index = index + 1;
    }
    Ok((root, app_id))
}

} // verus!
