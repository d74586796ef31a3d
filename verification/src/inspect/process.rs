//! Reading process listings (`ps` output): which processes belong to Wine's Steam,
//! which match a set of words, and which are only the observers looking at them.
use vstd::prelude::*;
use crate::cli::numbers::{parse_u32_text, parsed_u32};
use crate::text::{
    contains, contains_text, joined_with, join_texts, lines, lines_text, lower, lowercase, split_once_ws,
    split_once_ws_text, starts_with, starts_with_text, trim, trimmed, words, words_text,
};

verus! {

/// Whether a command line is one of the shells, searches and builds that look at
/// processes rather than being one of them.
pub open spec fn observer_command(line: Seq<char>) -> bool {
    let l = lower(trim(line));
    starts_with(l, "/bin/zsh -lc "@) || starts_with(l, "/bin/bash -lc "@) || contains(l, " rg "@)
        || contains(l, "/rg "@) || starts_with(l, "rg "@) || contains(l, "cargo run"@)
        || contains(l, "target/debug/portcellar"@) || contains(l, "ps ax"@) || contains(l, "ps -axo"@)
}

/// Whether a command line only observes processes.
pub fn is_process_observer_command(line: &str) -> (r: bool)
    ensures r == observer_command(line@),
{
    let l = lowercase(trimmed(line).as_str());
    let l = l.as_str();
    starts_with_text(l, "/bin/zsh -lc ") || starts_with_text(l, "/bin/bash -lc ") || contains_text(l, " rg ")
        || contains_text(l, "/rg ") || starts_with_text(l, "rg ") || contains_text(l, "cargo run")
        || contains_text(l, "target/debug/portcellar") || contains_text(l, "ps ax") || contains_text(l, "ps -axo")
}

/// Whether a command line holds every one of `needles`, ignoring ASCII case, and is
/// not an observer.
pub open spec fn command_matches(line: Seq<char>, needles: Seq<Seq<char>>) -> bool {
    (forall|i: int| 0 <= i < needles.len() ==> contains(lower(line), lower(#[trigger] needles[i])))
        && !observer_command(line)
}

/// Whether a command line holds every one of `needles` and is not an observer.
pub fn process_command_line_matches(line: &str, needles: &Vec<&str>) -> (r: bool)
    ensures r == command_matches(line@, needles@.map_values(|n: &str| n@)),
{
    let ghost nv = needles@.map_values(|n: &str| n@);
    let l = lowercase(line);
    let mut i: usize = 0;
    while i < needles.len()
        invariant
            i <= needles.len(),
            nv == needles@.map_values(|n: &str| n@),
            l@ == lower(line@),
            forall|k: int| 0 <= k < i ==> contains(lower(line@), lower(#[trigger] nv[k])),
        decreases needles.len() - i,
    {
        if !contains_text(l.as_str(), lowercase(needles[i]).as_str()) {
            assert(!contains(lower(line@), lower(nv[i as int])));
            return false;
        }
        i = i + 1;
    }
    !is_process_observer_command(line)
}

/// Whether a command runs from Windows Steam's directory in the prefix, or is the
/// virtual desktop Steam runs in.
pub open spec fn wine_steam_command(command: Seq<char>) -> bool {
    let l = lower(command);
    starts_with(l, "c:\\steam\\"@) || contains(l, " c:\\steam\\"@)
        || starts_with(l, "c:\\program files (x86)\\steam\\"@) || contains(l, " c:\\program files (x86)\\steam\\"@)
        || starts_with(l, "c:\\program files\\steam\\"@) || contains(l, " c:\\program files\\steam\\"@)
        || starts_with(l, "c:\\windows\\system32\\explorer.exe /desktop"@)
}

/// Whether a command belongs to Wine's Steam client.
pub fn is_wine_steam_process_command(command: &str) -> (r: bool)
    ensures r == wine_steam_command(command@),
{
    let l = lowercase(command);
    let l = l.as_str();
    starts_with_text(l, "c:\\steam\\") || contains_text(l, " c:\\steam\\")
        || starts_with_text(l, "c:\\program files (x86)\\steam\\") || contains_text(l, " c:\\program files (x86)\\steam\\")
        || starts_with_text(l, "c:\\program files\\steam\\") || contains_text(l, " c:\\program files\\steam\\")
        || starts_with_text(l, "c:\\windows\\system32\\explorer.exe /desktop")
}

/// Whether a command is stopped when Wine's Steam is cleaned up: Steam's own
/// processes, its service, and Wine's device host.
pub open spec fn cleanup_command(command: Seq<char>) -> bool {
    wine_steam_command(command) || contains(lower(command), "\\steamservice.exe"@)
        || contains(lower(command), "\\winedevice.exe"@)
}

/// Whether a command is stopped when Wine's Steam is cleaned up.
pub fn is_wine_steam_cleanup_process_command(command: &str) -> (r: bool)
    ensures r == cleanup_command(command@),
{
    let l = lowercase(command);
    is_wine_steam_process_command(command) || contains_text(l.as_str(), "\\steamservice.exe")
        || contains_text(l.as_str(), "\\winedevice.exe")
}

/// The process id of a `ps` line (`PID COMMAND`) whose command matches `needles`.
pub open spec fn matching_pid(line: Seq<char>, needles: Seq<Seq<char>>) -> Option<u32> {
    match split_once_ws(trim(line)) {
        Some((pid, command)) => match parsed_u32(pid) {
            Some(p) => if command_matches(command, needles) { Some(p) } else { None },
            None => None,
        },
        None => None,
    }
}

/// The process ids of the lines of `ls` whose commands match `needles`, in order.
pub open spec fn matching_pids(ls: Seq<Seq<char>>, needles: Seq<Seq<char>>) -> Seq<u32>
    decreases ls.len(),
{
    if ls.len() == 0 {
        Seq::empty()
    } else {
        let rest = matching_pids(ls.drop_last(), needles);
        match matching_pid(ls.last(), needles) {
            Some(p) => rest.push(p),
            None => rest,
        }
    }
}

/// The process ids of a `ps -axo pid,command` listing whose commands match `needles`.
pub fn process_ids_matching_in_ps(output: &str, needles: &Vec<&str>) -> (r: Vec<u32>)
    ensures r@ == matching_pids(lines(output@), needles@.map_values(|n: &str| n@)),
{
    let ghost nv = needles@.map_values(|n: &str| n@);
    let ls = lines_text(output);
    let mut out: Vec<u32> = Vec::new();
    let mut i: usize = 0;
    while i < ls.len()
        invariant
            i <= ls.len(),
            nv == needles@.map_values(|n: &str| n@),
            ls.deep_view() == lines(output@),
            out@ == matching_pids(ls.deep_view().take(i as int), nv),
        decreases ls.len() - i,
    {
        assert(ls.deep_view().take(i + 1).drop_last() =~= ls.deep_view().take(i as int));
        let line = trimmed(ls[i].as_str());
        if let Some((pid, command)) = split_once_ws_text(line.as_str()) {
            if let Some(p) = parse_u32_text(pid.as_str()) {
                if process_command_line_matches(command.as_str(), needles) {
                    out.push(p);
                }
            }
        }
        i = i + 1;
    }
    assert(ls.deep_view().take(i as int) =~= ls.deep_view());
    out
}

/// The process and group ids of a `ps -axo pid,pgid,command` line whose command,
/// its remaining words joined by single spaces, is a cleanup command.
pub open spec fn cleanup_group(line: Seq<char>) -> Option<(u32, u32)> {
    let w = words(line);
    if w.len() < 2 {
        None
    } else {
        match (parsed_u32(w[0]), parsed_u32(w[1])) {
            (Some(pid), Some(pgid)) => if cleanup_command(joined_with(w.skip(2), " "@)) {
                Some((pid, pgid))
            } else {
                None
            },
            _ => None,
        }
    }
}

/// The cleanup process groups of the lines of `ls`, in order.
pub open spec fn cleanup_groups(ls: Seq<Seq<char>>) -> Seq<(u32, u32)>
    decreases ls.len(),
{
    if ls.len() == 0 {
        Seq::empty()
    } else {
        let rest = cleanup_groups(ls.drop_last());
        match cleanup_group(ls.last()) {
            Some(g) => rest.push(g),
            None => rest,
        }
    }
}

/// The process and group ids of Wine's Steam processes in a
/// `ps -axo pid,pgid,command` listing.
pub fn wine_steam_cleanup_process_groups_from_ps(output: &str) -> (r: Vec<(u32, u32)>)
    ensures r@ == cleanup_groups(lines(output@)),
{
    let ls = lines_text(output);
    let mut out: Vec<(u32, u32)> = Vec::new();
    let mut i: usize = 0;
    proof { reveal_strlit(" "); }
    while i < ls.len()
        invariant
            i <= ls.len(),
            ls.deep_view() == lines(output@),
            out@ == cleanup_groups(ls.deep_view().take(i as int)),
        decreases ls.len() - i,
    {
        assert(ls.deep_view().take(i + 1).drop_last() =~= ls.deep_view().take(i as int));
        let w = words_text(ls[i].as_str());
        if w.len() >= 2 {
            let pid = parse_u32_text(w[0].as_str());
            let pgid = parse_u32_text(w[1].as_str());
            if let (Some(p), Some(g)) = (pid, pgid) {
                let mut rest: Vec<String> = Vec::new();
                let mut k: usize = 2;
                while k < w.len()
                    invariant
                        2 <= k <= w.len(),
                        rest.deep_view() == w.deep_view().subrange(2, k as int),
                    decreases w.len() - k,
                {
                    let ghost before = rest.deep_view();
                    let item = w[k].clone();
                    assert(item@ == w.deep_view()[k as int]);
                    rest.push(item);
                    assert(rest.deep_view() =~= before.push(item@));
                    assert(w.deep_view().subrange(2, k + 1) =~= w.deep_view().subrange(2, k as int).push(w.deep_view()[k as int]));
                    k = k + 1;
                }
                assert(w.deep_view().subrange(2, k as int) =~= w.deep_view().skip(2));
                let command = join_texts(&rest, " ");
                if is_wine_steam_cleanup_process_command(command.as_str()) {
                    out.push((p, g));
                }
            }
        }
        i = i + 1;
    }
    assert(ls.deep_view().take(i as int) =~= ls.deep_view());
    out
}

/// Whether an `lsof -Fn` listing of a process names a file under `prefix`.
pub open spec fn lists_prefix(output: Seq<char>, prefix: Seq<char>) -> bool {
    exists|i: int| 0 <= i < lines(output).len() && contains(#[trigger] lines(output)[i], prefix)
}

/// Whether an `lsof -Fn` listing of a process names a file under `prefix`.
pub fn lsof_output_uses_prefix(output: &str, prefix: &str) -> (r: bool)
    ensures r == lists_prefix(output@, prefix@),
{
    let ls = lines_text(output);
    let mut i: usize = 0;
    while i < ls.len()
        invariant
            i <= ls.len(),
            ls.deep_view() == lines(output@),
            forall|k: int| 0 <= k < i ==> !contains(#[trigger] lines(output@)[k], prefix@),
        decreases ls.len() - i,
    {
        if contains_text(ls[i].as_str(), prefix) {
            assert(contains(lines(output@)[i as int], prefix@));
            return true;
        }
        i = i + 1;
    }
    false
}

} // verus!
