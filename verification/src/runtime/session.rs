//! Stopping Wine's Steam and resetting its session: which process groups to
//! signal, and where the session files are moved aside. Processes are listed and
//! signalled, and files moved, by the caller.
use vstd::prelude::*;
use crate::error::{PortCellarError, Result};
use crate::paths::{below_root, components, join, path_join, relative_display, relative_display_of};
use crate::strmap::StrMap;
use crate::text::{concat, decimal, decimal_text, joined_with};
use crate::types::{CommandPlan, WineSteamRuntime};

verus! {

/// Whether a process group may be signalled: not the init group, not this
/// process's own id, not this process's group.
pub open spec fn signalable(pgid: u32, own_pid: u32, own_pgid: Option<u32>) -> bool {
    pgid > 1 && pgid != own_pid && own_pgid != Some(pgid)
}

/// The process groups of `candidates` (pid, pgid) to signal, each once, in
/// increasing order.
pub fn signal_groups(candidates: &Vec<(u32, u32)>, own_pid: u32, own_pgid: Option<u32>) -> (r: Vec<u32>)
    ensures
        forall|i: int, j: int| 0 <= i < j < r@.len() ==> r@[i] < r@[j],
        forall|g: u32| #[trigger] r@.contains(g) <==> (signalable(g, own_pid, own_pgid)
            && exists|k: int| 0 <= k < candidates@.len() && candidates@[k].1 == g),
{
    let mut out: Vec<u32> = Vec::new();
    let mut i: usize = 0;
    while i < candidates.len()
        invariant
            i <= candidates.len(),
            forall|a: int, b: int| 0 <= a < b < out@.len() ==> out@[a] < out@[b],
            forall|g: u32| #[trigger] out@.contains(g) <==> (signalable(g, own_pid, own_pgid)
                && exists|k: int| 0 <= k < i && candidates@[k].1 == g),
        decreases candidates.len() - i,
    {
        let g = candidates[i].1;
        let ghost before = out@;
        let ghost mut grew = false;
        if g > 1 && g != own_pid && own_pgid != Some(g) {
            let mut p: usize = 0;
            while p < out.len() && out[p] < g
                invariant
                    p <= out@.len(),
                    forall|a: int| 0 <= a < p ==> out@[a] < g,
                decreases out.len() - p,
            {
                p = p + 1;
            }
            if p < out.len() && out[p] == g {
                assert(out@.contains(g));
            } else {
                out.insert(p, g);
                assert(out@ == before.insert(p as int, g));
                proof {
                    grew = true;
                    lemma_insert_contains(before, p as int, g);
                }
                assert forall|a: int, b: int| 0 <= a < b < out@.len() implies out@[a] < out@[b] by {
                    if b < p {
                        assert(out@[a] == before[a] && out@[b] == before[b]);
                    } else if b == p {
                        assert(out@[a] == before[a]);
                    } else if a < p {
                        assert(out@[a] == before[a] && out@[b] == before[b - 1]);
                        assert(before[p as int] >= g);
                        if b - 1 > p { assert(before[p as int] < before[b - 1]); }
                    } else if a == p {
                        assert(out@[b] == before[b - 1]);
                        assert(before[p as int] >= g && before[p as int] != g);
                        if b - 1 > p { assert(before[p as int] < before[b - 1]); }
                    } else {
                        assert(out@[a] == before[a - 1] && out@[b] == before[b - 1]);
                    }
                }
            }
        }
        proof {
            assert(!grew ==> out@ == before);
            assert forall|h: u32| #[trigger] out@.contains(h) <==> (signalable(h, own_pid, own_pgid)
                && exists|k: int| 0 <= k < i + 1 && candidates@[k].1 == h) by {
                if h == g && signalable(h, own_pid, own_pgid) {
                    assert(candidates@[i as int].1 == h);
                }
                if exists|k: int| 0 <= k < i + 1 && candidates@[k].1 == h {
                    let k = choose|k: int| 0 <= k < i + 1 && candidates@[k].1 == h;
                    if k < i {
                        assert(exists|k: int| 0 <= k < i && candidates@[k].1 == h);
                    }
                }
                if exists|k: int| 0 <= k < i && candidates@[k].1 == h {
                    let k = choose|k: int| 0 <= k < i && candidates@[k].1 == h;
                    assert(0 <= k < i + 1 && candidates@[k].1 == h);
                }
            }
        }
        i = i + 1;
    }
    out
}

proof fn lemma_insert_contains(s: Seq<u32>, p: int, g: u32)
    requires 0 <= p <= s.len(),
    ensures forall|h: u32| #[trigger] s.insert(p, g).contains(h) <==> (s.contains(h) || h == g),
{
    let t = s.insert(p, g);
    assert forall|h: u32| #[trigger] t.contains(h) <==> (s.contains(h) || h == g) by {
        if t.contains(h) && h != g {
            let a = choose|a: int| 0 <= a < t.len() && t[a] == h;
            if a < p { assert(s[a] == h); } else { assert(a != p); assert(s[a - 1] == h); }
        }
        if s.contains(h) {
            let a = choose|a: int| 0 <= a < s.len() && s[a] == h;
            if a < p { assert(t[a] == h); } else { assert(t[a + 1] == h); }
        }
        if h == g {
            assert(t[p] == g);
        }
    }
}

/// Adds to `pids` each process id of `candidates` it does not hold yet, in order.
pub fn add_new_pids(pids: &mut Vec<u32>, candidates: &Vec<(u32, u32)>)
    ensures
        old(pids)@.len() <= final(pids)@.len(),
        final(pids)@.take(old(pids)@.len() as int) == old(pids)@,
        forall|p: u32| #[trigger] final(pids)@.contains(p) <==> (old(pids)@.contains(p)
            || exists|k: int| 0 <= k < candidates@.len() && candidates@[k].0 == p),
{
    let ghost start = pids@;
    let mut i: usize = 0;
    while i < candidates.len()
        invariant
            i <= candidates.len(),
            start.len() <= pids@.len(),
            pids@.take(start.len() as int) == start,
            forall|p: u32| #[trigger] pids@.contains(p) <==> (start.contains(p)
                || exists|k: int| 0 <= k < i && candidates@[k].0 == p),
        decreases candidates.len() - i,
    {
        let p = candidates[i].0;
        let mut seen = false;
        let mut j: usize = 0;
        while j < pids.len()
            invariant
                j <= pids@.len(),
                seen == exists|a: int| 0 <= a < j && pids@[a] == p,
            decreases pids.len() - j,
        {
            if pids[j] == p {
                seen = true;
            }
            j = j + 1;
        }
        let ghost before = pids@;
        if !seen {
            pids.push(p);
            assert(pids@.take(start.len() as int) =~= before.take(start.len() as int));
        }
        proof {
            assert forall|q: u32| #[trigger] pids@.contains(q) <==> (start.contains(q)
                || exists|k: int| 0 <= k < i + 1 && candidates@[k].0 == q) by {
                if pids@.contains(q) && q != p {
                    let a = choose|a: int| 0 <= a < pids@.len() && pids@[a] == q;
                    assert(before[a] == q);
                    assert(before.contains(q));
                }
                if before.contains(q) {
                    let a = choose|a: int| 0 <= a < before.len() && before[a] == q;
                    assert(pids@[a] == q);
                }
                if q == p {
                    assert(candidates@[i as int].0 == q);
                    if seen {
                        let a = choose|a: int| 0 <= a < before.len() && before[a] == p;
                        assert(pids@[a] == q);
                    } else {
                        assert(pids@[before.len() as int] == q);
                    }
                }
            }
        }
        i = i + 1;
    }
}

/// The command that stops the prefix's Wine server: `wineserver -k`.
pub fn wine_steam_stop_plan(runtime: &WineSteamRuntime, wineserver: Option<&str>, wine_env: &StrMap) -> (r: Result<CommandPlan>)
    ensures
        match r {
            Ok(p) => runtime.wine is Some && (wineserver matches Some(w) && p.program@ == w@)
                && p.args.deep_view() == seq!["-k"@] && p.envs@ == wine_env@ && p.current_dir is None,
            Err(e) => match runtime.wine {
                None => e.text() == "Wine was not found"@,
                Some(w) => wineserver is None && e.text() == "wineserver was not found next to "@ + w@,
            },
        },
{
    let wine = match &runtime.wine {
        Some(w) => w,
        None => { return Err(PortCellarError::message("Wine was not found".to_owned())); }
    };
    let server = match wineserver {
        Some(s) => s,
        None => { return Err(PortCellarError::message(concat("wineserver was not found next to ", wine.as_str()))); }
    };
    let mut args: Vec<String> = Vec::new();
    crate::runtime::launch::push_text(&mut args, "-k".to_owned());
    Ok(CommandPlan { program: server.to_owned(), args, envs: wine_env.clone(), current_dir: None })
}

/// Where a session reset moves files: `portcellar-backups/steam-session-<time>-<pid>`
/// in Steam's directory.
pub fn steam_session_backup_dir(steam_dir: &str, timestamp: u64, pid: u32) -> (r: String)
    ensures r@ == path_join(path_join(steam_dir@, "portcellar-backups"@),
        "steam-session-"@ + decimal(timestamp as nat) + "-"@ + decimal(pid as nat)),
{
    let name = concat(concat(concat("steam-session-", decimal_text(timestamp).as_str()).as_str(), "-").as_str(),
        decimal_text(pid as u64).as_str());
    join(join(steam_dir, "portcellar-backups").as_str(), name.as_str())
}

/// The files a session reset moves aside: Steam's login users, app cache, logs and
/// dumps, and each Wine user's Steam browser cache and CEF data.
pub open spec fn session_reset_candidates(prefix: Seq<char>, steam_dir: Seq<char>, users: Seq<Seq<char>>) -> Seq<Seq<char>>
    decreases users.len(),
{
    if users.len() == 0 {
        seq![
            path_join(steam_dir, "config/loginusers.vdf"@),
            path_join(steam_dir, "appcache"@),
            path_join(steam_dir, "logs"@),
            path_join(steam_dir, "dumps"@),
        ]
    } else {
        session_reset_candidates(prefix, steam_dir, users.drop_last())
            + seq![path_join(users.last(), "AppData/Local/Steam/htmlcache"@), path_join(users.last(), "AppData/Local/CEF/User Data"@)]
    }
}

/// The files a session reset moves aside; `user_dirs` are the directories under the
/// prefix's `drive_c/users`.
pub fn steam_session_reset_candidates(prefix: &str, steam_dir: &str, user_dirs: &Vec<String>) -> (r: Vec<String>)
    ensures r.deep_view() == session_reset_candidates(prefix@, steam_dir@, user_dirs.deep_view()),
{
    let mut out: Vec<String> = Vec::new();
    crate::runtime::launch::push_text(&mut out, join(steam_dir, "config/loginusers.vdf"));
    crate::runtime::launch::push_text(&mut out, join(steam_dir, "appcache"));
    crate::runtime::launch::push_text(&mut out, join(steam_dir, "logs"));
    crate::runtime::launch::push_text(&mut out, join(steam_dir, "dumps"));
    assert(out.deep_view() =~= session_reset_candidates(prefix@, steam_dir@, user_dirs.deep_view().take(0)));
    let mut i: usize = 0;
    while i < user_dirs.len()
        invariant
            i <= user_dirs.len(),
            out.deep_view() == session_reset_candidates(prefix@, steam_dir@, user_dirs.deep_view().take(i as int)),
        decreases user_dirs.len() - i,
    {
        assert(user_dirs.deep_view().take(i + 1).drop_last() =~= user_dirs.deep_view().take(i as int));
        let ghost before = out.deep_view();
        crate::runtime::launch::push_text(&mut out, join(user_dirs[i].as_str(), "AppData/Local/Steam/htmlcache"));
        crate::runtime::launch::push_text(&mut out, join(user_dirs[i].as_str(), "AppData/Local/CEF/User Data"));
        assert(out.deep_view() =~= session_reset_candidates(prefix@, steam_dir@, user_dirs.deep_view().take(i + 1)));
        i = i + 1;
    }
    assert(user_dirs.deep_view().take(i as int) =~= user_dirs.deep_view());
    out
}

/// Where a session file is moved: below `Steam` for a file of Steam's directory,
/// below `drive_c` for a file of the prefix's drive, else by its file name.
pub open spec fn backup_path_of(backup_dir: Seq<char>, prefix: Seq<char>, steam_dir: Seq<char>, source: Seq<char>) -> Seq<char> {
    let drive_c = path_join(prefix, "drive_c"@);
    if below_root(steam_dir, source) {
        path_join(path_join(backup_dir, "Steam"@), relative_display_of(steam_dir, source))
    } else if below_root(drive_c, source) {
        path_join(path_join(backup_dir, "drive_c"@), relative_display_of(drive_c, source))
    } else {
        let f = crate::analyze::discovery::file_name_of(source);
        path_join(backup_dir, if f.len() > 0 { f } else { "unknown"@ })
    }
}

/// Where a session file is moved.
pub fn steam_session_backup_path(backup_dir: &str, prefix: &str, steam_dir: &str, source: &str) -> (r: String)
    ensures r@ == backup_path_of(backup_dir@, prefix@, steam_dir@, source@),
{
    let drive_c = join(prefix, "drive_c");
    if crate::paths::is_below(steam_dir, source) {
        return join(join(backup_dir, "Steam").as_str(), relative_display(steam_dir, source).as_str());
    }
    if crate::paths::is_below(drive_c.as_str(), source) {
        return join(join(backup_dir, "drive_c").as_str(), relative_display(drive_c.as_str(), source).as_str());
    }
    let f = crate::analyze::discovery::file_name_text(source);
    proof { reveal_strlit("unknown"); }
    if f.unicode_len() > 0 { join(backup_dir, f.as_str()) } else { join(backup_dir, "unknown") }
}

} // verus!
