//! The commands that configure a Wine prefix for games: the Windows version the
//! prefix reports, and the registry values for the macOS driver and the mouse.
use vstd::prelude::*;
use crate::error::{PortCellarError, Result};
use crate::runtime::compatibility::{engine_kind_of, wine_engine_kind_for_path};
use crate::runtime::launch::push_text;
use crate::strmap::StrMap;
use crate::text::concat;
use crate::types::{CommandPlan, EngineKind};

verus! {

/// The registry values every configured prefix gets, as (key, name, value): windows
/// may be moved, no Retina mode, and no mouse acceleration.
pub open spec fn prefix_registry_values() -> Seq<(Seq<char>, Seq<char>, Seq<char>)> {
    seq![
        ("HKCU\\Software\\Wine\\Mac Driver"@, "AllowImmovableWindows"@, "N"@),
        ("HKCU\\Software\\Wine\\Mac Driver"@, "RetinaMode"@, "n"@),
        ("HKCU\\Control Panel\\Mouse"@, "MouseSpeed"@, "0"@),
        ("HKCU\\Control Panel\\Mouse"@, "MouseThreshold1"@, "0"@),
        ("HKCU\\Control Panel\\Mouse"@, "MouseThreshold2"@, "0"@),
    ]
}

/// The arguments of `wine reg add` that sets `name` under `key` to the text `value`.
pub open spec fn reg_add_args(key: Seq<char>, name: Seq<char>, value: Seq<char>) -> Seq<Seq<char>> {
    seq!["reg"@, "add"@, key, "/v"@, name, "/t"@, "REG_SZ"@, "/d"@, value, "/f"@]
}

/// Whether `p` runs `program` with `args` in the environment `envs`, from no
/// particular directory.
pub open spec fn plan_is(p: CommandPlan, program: Seq<char>, args: Seq<Seq<char>>, envs: Seq<(Seq<char>, Seq<char>)>) -> bool {
    p.program@ == program && p.args.deep_view() == args && p.envs@ == envs && p.current_dir is None
}

/// The plan that sets the Windows version: CrossOver's `--cx-app winecfg.exe`, or
/// else the `winecfg` found for the engine; with no `winecfg`, the error.
pub open spec fn windows_version_plan_ok(
    r: Result<CommandPlan>,
    wine: Seq<char>,
    winecfg: Option<Seq<char>>,
    version: Seq<char>,
    envs: Seq<(Seq<char>, Seq<char>)>,
) -> bool {
    if engine_kind_of(wine) == EngineKind::CrossOver {
        r matches Ok(p) && plan_is(p, wine, seq!["--cx-app"@, "winecfg.exe"@, "/v"@, version], envs)
    } else {
        match winecfg {
            Some(w) => r matches Ok(p) && plan_is(p, w, seq!["/v"@, version], envs),
            None => r matches Err(e) && e.text() == "winecfg was not found next to "@ + wine,
        }
    }
}

fn text_vec4(a: &str, b: &str, c: &str, d: &str) -> (r: Vec<String>)
    ensures r.deep_view() == seq![a@, b@, c@, d@],
{
    let mut v: Vec<String> = Vec::new();
    push_text(&mut v, a.to_owned());
    push_text(&mut v, b.to_owned());
    push_text(&mut v, c.to_owned());
    push_text(&mut v, d.to_owned());
    assert(v.deep_view() =~= seq![a@, b@, c@, d@]);
    v
}

/// The plan that sets the prefix's Windows version to `version` with the engine
/// `wine`; `winecfg` is the `winecfg` program found beside it or on the `PATH`.
pub fn windows_version_plan(wine: &str, winecfg: Option<&str>, version: &str, envs: &StrMap) -> (r: Result<CommandPlan>)
    ensures windows_version_plan_ok(r, wine@, crate::runtime::dependencies::opt_view(winecfg), version@, envs@),
{
    if wine_engine_kind_for_path(wine) == EngineKind::CrossOver {
        return Ok(CommandPlan {
            program: wine.to_owned(),
            args: text_vec4("--cx-app", "winecfg.exe", "/v", version),
            envs: envs.clone(),
            current_dir: None,
        });
    }
    match winecfg {
        Some(w) => {
            let mut args: Vec<String> = Vec::new();
            push_text(&mut args, "/v".to_owned());
            push_text(&mut args, version.to_owned());
            assert(args.deep_view() =~= seq!["/v"@, version@]);
            Ok(CommandPlan { program: w.to_owned(), args, envs: envs.clone(), current_dir: None })
        },
        None => Err(PortCellarError::message(concat("winecfg was not found next to ", wine))),
    }
}

/// The plan that runs `wine reg add` for `name` under `key` with the text `value`.
pub fn reg_add_plan(wine: &str, key: &str, name: &str, value: &str, envs: &StrMap) -> (r: CommandPlan)
    ensures plan_is(r, wine@, reg_add_args(key@, name@, value@), envs@),
{
    let mut args = text_vec4("reg", "add", key, "/v");
    push_text(&mut args, name.to_owned());
    push_text(&mut args, "/t".to_owned());
    push_text(&mut args, "REG_SZ".to_owned());
    push_text(&mut args, "/d".to_owned());
    push_text(&mut args, value.to_owned());
    push_text(&mut args, "/f".to_owned());
    assert(args.deep_view() =~= reg_add_args(key@, name@, value@));
    CommandPlan { program: wine.to_owned(), args, envs: envs.clone(), current_dir: None }
}

/// The commands that configure a prefix run by `wine` in the environment `envs`:
/// first the Windows version, then each of the registry values, in order.
pub fn wine_configure_plans(wine: &str, winecfg: Option<&str>, windows_version: &str, envs: &StrMap) -> (r: Result<Vec<CommandPlan>>)
    ensures
        match r {
            Ok(plans) => plans@.len() == 1 + prefix_registry_values().len()
                && windows_version_plan_ok(Ok(plans@[0]), wine@, crate::runtime::dependencies::opt_view(winecfg),
                    windows_version@, envs@)
                && forall|i: int| 0 <= i < prefix_registry_values().len() ==> #[trigger] plan_is(plans@[i + 1], wine@,
                    reg_add_args(prefix_registry_values()[i].0, prefix_registry_values()[i].1, prefix_registry_values()[i].2),
                    envs@),
            Err(e) => windows_version_plan_ok(Err(e), wine@, crate::runtime::dependencies::opt_view(winecfg),
                windows_version@, envs@),
        },
{
    let first = windows_version_plan(wine, winecfg, windows_version, envs);
    let first = match first {
        Ok(p) => p,
        Err(e) => { return Err(e); },
    };
    let mut plans: Vec<CommandPlan> = Vec::new();
    plans.push(first);
    plans.push(reg_add_plan(wine, "HKCU\\Software\\Wine\\Mac Driver", "AllowImmovableWindows", "N", envs));
    plans.push(reg_add_plan(wine, "HKCU\\Software\\Wine\\Mac Driver", "RetinaMode", "n", envs));
    plans.push(reg_add_plan(wine, "HKCU\\Control Panel\\Mouse", "MouseSpeed", "0", envs));
    plans.push(reg_add_plan(wine, "HKCU\\Control Panel\\Mouse", "MouseThreshold1", "0", envs));
    plans.push(reg_add_plan(wine, "HKCU\\Control Panel\\Mouse", "MouseThreshold2", "0", envs));
    proof {
        assert forall|i: int| 0 <= i < prefix_registry_values().len() implies #[trigger] plan_is(plans@[i + 1], wine@,
            reg_add_args(prefix_registry_values()[i].0, prefix_registry_values()[i].1, prefix_registry_values()[i].2),
            envs@) by {
            assert(prefix_registry_values()[0] == ("HKCU\\Software\\Wine\\Mac Driver"@, "AllowImmovableWindows"@, "N"@));
            assert(prefix_registry_values()[1] == ("HKCU\\Software\\Wine\\Mac Driver"@, "RetinaMode"@, "n"@));
            assert(prefix_registry_values()[2] == ("HKCU\\Control Panel\\Mouse"@, "MouseSpeed"@, "0"@));
            assert(prefix_registry_values()[3] == ("HKCU\\Control Panel\\Mouse"@, "MouseThreshold1"@, "0"@));
            assert(prefix_registry_values()[4] == ("HKCU\\Control Panel\\Mouse"@, "MouseThreshold2"@, "0"@));
        }
    }
    Ok(plans)
}

} // verus!
