//! Requests to have the Wine Steam client install a game.
use vstd::prelude::*;
use crate::error::{PortCellarError, Result};
use crate::text::{
    all_digits, concat, is_digit_text, same_text, starts_with, starts_with_text, strip_all_prefix,
    strip_all_prefix_text,
};

verus! {

/// A Steam install request: the app id, a display name, and whether to only show the
/// plan or to run it.
#[derive(Debug)]
pub struct SteamInstallRequest {
    pub app_id: String,
    pub name: String,
    pub dry_run: bool,
    pub confirm: bool,
}

/// What a Steam install request reads as: app id, name, dry run, confirmation.
pub type SteamRequestView = (Seq<char>, Seq<char>, bool, bool);

/// The request that the arguments from `i` on make, given what was read before them.
pub open spec fn steam_parse(
    args: Seq<Seq<char>>,
    i: int,
    app_id: Option<Seq<char>>,
    name: Seq<char>,
    dry_run: bool,
    confirm: bool,
) -> core::result::Result<SteamRequestView, Seq<char>>
    decreases args.len() + 1 - i,
{
    if i < 0 || i >= args.len() {
        match app_id {
            None => Err("game steam-install requires --app-id APPID"@),
            Some(id) => if id.len() == 0 || !all_digits(id) {
                Err("Steam app_id must contain only ASCII digits"@)
            } else {
                Ok((id, name, dry_run, confirm))
            },
        }
    } else {
        let a = args[i];
        if a == "--app-id"@ {
            steam_parse(args, i + 2, if i + 1 < args.len() { Some(args[i + 1]) } else { None }, name, dry_run, confirm)
        } else if starts_with(a, "--app-id="@) {
            steam_parse(args, i + 1, Some(strip_all_prefix(a, "--app-id="@)), name, dry_run, confirm)
        } else if a == "--name"@ {
            if i + 1 < args.len() {
                steam_parse(args, i + 2, app_id, args[i + 1], dry_run, confirm)
            } else {
                Err("--name requires a value"@)
            }
        } else if starts_with(a, "--name="@) {
            steam_parse(args, i + 1, app_id, strip_all_prefix(a, "--name="@), dry_run, confirm)
        } else if a == "--dry-run"@ {
            steam_parse(args, i + 1, app_id, name, true, confirm)
        } else if a == "--confirm"@ {
            steam_parse(args, i + 1, app_id, name, dry_run, true)
        } else {
            Err("unknown game steam-install option: "@ + a)
        }
    }
}

/// Reads a Steam install request; the app id must be a non-empty string of ASCII digits.
pub fn parse_request(args: &Vec<String>) -> (r: Result<SteamInstallRequest>)
    ensures
        match r {
            Ok(q) => steam_parse(args.deep_view(), 0, None, "Steam app"@, false, false)
                == Ok::<SteamRequestView, Seq<char>>((q.app_id@, q.name@, q.dry_run, q.confirm)),
            Err(e) => steam_parse(args.deep_view(), 0, None, "Steam app"@, false, false)
                == Err::<SteamRequestView, Seq<char>>(e.text()),
        },
{
    let mut app_id: Option<String> = None;
    let mut name = "Steam app".to_owned();
    let mut dry_run = false;
    let mut confirm = false;
    let mut index: usize = 0;
    let ghost goal = steam_parse(args.deep_view(), 0, None, "Steam app"@, false, false);
    proof {
        reveal_strlit("--app-id");
        reveal_strlit("--app-id=");
        reveal_strlit("--name");
        reveal_strlit("--name=");
        reveal_strlit("--dry-run");
        reveal_strlit("--confirm");
    }
    while index < args.len()
        invariant
            index <= args.len(),
            goal == steam_parse(args.deep_view(), 0, None, "Steam app"@, false, false),
            goal == steam_parse(args.deep_view(), index as int, crate::games::opt_text(app_id), name@, dry_run, confirm),
        decreases args.len() - index,
    {
        let a = args[index].as_str();
        assert(a@ == args.deep_view()[index as int]);
        if same_text(a, "--app-id") {
            if index + 1 < args.len() {
                app_id = Some(args[index + 1].clone());
                index = index + 2;
            } else {
                proof {
                    let d = args.deep_view();
                    assert(steam_parse(d, index + 2, None, name@, dry_run, confirm)
                        == steam_parse(d, d.len() as int, None, name@, dry_run, confirm));
                }
                app_id = None;
                index = args.len();
            }
            continue;
        } else if starts_with_text(a, "--app-id=") {
            app_id = Some(strip_all_prefix_text(a, "--app-id="));
        } else if same_text(a, "--name") {
            if index + 1 < args.len() {
                name = args[index + 1].clone();
                index = index + 2;
                continue;
            }
            return Err(PortCellarError::message("--name requires a value".to_owned()));
        } else if starts_with_text(a, "--name=") {
            name = strip_all_prefix_text(a, "--name=");
        } else if same_text(a, "--dry-run") {
            dry_run = true;
        } else if same_text(a, "--confirm") {
            confirm = true;
        } else {
            return Err(PortCellarError::message(concat("unknown game steam-install option: ", a)));
        }
        index = index + 1;
    }
    let app_id = match app_id {
        Some(id) => id,
        None => { return Err(PortCellarError::message("game steam-install requires --app-id APPID".to_owned())); }
    };
    if app_id.as_str().unicode_len() == 0 || !is_digit_text(app_id.as_str()) {
        return Err(PortCellarError::message("Steam app_id must contain only ASCII digits".to_owned()));
    }
    Ok(SteamInstallRequest { app_id, name, dry_run, confirm })
}

} // verus!
