//! Where a command takes its game profile from: a catalog app id or a profile file.
use vstd::prelude::*;
use crate::error::{PortCellarError, Result};
use crate::games::opt_text;
use crate::text::{concat, same_text, starts_with, starts_with_text, strip_all_prefix, strip_all_prefix_text};

verus! {

/// The profile source options a command was given.
#[derive(Debug, Default)]
pub struct ProfileSource {
    pub from_catalog: Option<String>,
    pub from_profile: Option<String>,
    pub profile_root: Option<String>,
}

/// The options of a profile source, as texts.
pub type SourceView = (Option<Seq<char>>, Option<Seq<char>>, Option<Seq<char>>);

impl ProfileSource {
    /// The options, as texts: catalog app id, profile file, catalog root.
    pub open spec fn view_source(&self) -> SourceView {
        (opt_text(self.from_catalog), opt_text(self.from_profile), opt_text(self.profile_root))
    }

    /// No options given.
    pub fn new() -> (r: Self)
        ensures r.view_source() == (None::<Seq<char>>, None::<Seq<char>>, None::<Seq<char>>),
    {
        ProfileSource { from_catalog: None, from_profile: None, profile_root: None }
    }
}

/// What the argument at `i` does to a profile source: nothing (`None`, it is not a
/// source option), or the new options and the index of the next argument, or an error.
pub open spec fn source_step(s: SourceView, args: Seq<Seq<char>>, i: int)
    -> Option<core::result::Result<(SourceView, int), Seq<char>>>
{
    let a = args[i];
    if a == "--from-catalog"@ {
        if i + 1 < args.len() { Some(Ok(((Some(args[i + 1]), s.1, s.2), i + 2))) }
        else { Some(Err("--from-catalog requires an app id"@)) }
    } else if starts_with(a, "--from-catalog="@) {
        Some(Ok(((Some(strip_all_prefix(a, "--from-catalog="@)), s.1, s.2), i + 1)))
    } else if a == "--from-profile"@ {
        if i + 1 < args.len() { Some(Ok(((s.0, Some(args[i + 1]), s.2), i + 2))) }
        else { Some(Err("--from-profile requires a TOML path"@)) }
    } else if starts_with(a, "--from-profile="@) {
        Some(Ok(((s.0, Some(strip_all_prefix(a, "--from-profile="@)), s.2), i + 1)))
    } else if a == "--profile-root"@ {
        if i + 1 < args.len() { Some(Ok(((s.0, s.1, Some(args[i + 1])), i + 2))) }
        else { Some(Err("--profile-root requires a path"@)) }
    } else if starts_with(a, "--profile-root="@) {
        Some(Ok(((s.0, s.1, Some(strip_all_prefix(a, "--profile-root="@))), i + 1)))
    } else {
        None
    }
}

/// The verdict on a parsed profile source.
pub open spec fn source_check(s: SourceView, command_name: Seq<char>, require_source: bool) -> core::result::Result<(), Seq<char>> {
    if require_source && (s.0 is Some) == (s.1 is Some) {
        Err(command_name + " requires exactly one profile source"@)
    } else if s.2 is Some && s.0 is None {
        Err("--profile-root requires --from-catalog"@)
    } else {
        Ok(())
    }
}

impl ProfileSource {
    /// Takes the argument at `index` if it is a profile source option. On `Ok(true)`
    /// `index` is left on the option's last argument.
    pub fn parse_arg(&mut self, args: &Vec<String>, index: &mut usize) -> (r: Result<bool>)
        requires *old(index) < args.len(),
        ensures
            match source_step(old(self).view_source(), args.deep_view(), *old(index) as int) {
                None => r == Ok::<bool, PortCellarError>(false) && final(self).view_source() == old(self).view_source()
                    && *final(index) == *old(index),
                Some(Ok((s, next))) => r == Ok::<bool, PortCellarError>(true) && final(self).view_source() == s
                    && *final(index) == next - 1,
                Some(Err(m)) => r matches Err(e) && e.text() == m,
            },
    {
        let i = *index;
        let a = args[i].as_str();
        proof {
            reveal_strlit("--from-catalog");
            reveal_strlit("--from-catalog=");
            reveal_strlit("--from-profile");
            reveal_strlit("--from-profile=");
            reveal_strlit("--profile-root");
            reveal_strlit("--profile-root=");
        }
        assert(a@ == args.deep_view()[i as int]);
        if same_text(a, "--from-catalog") {
            if i + 1 < args.len() {
                self.from_catalog = Some(args[i + 1].clone());
                *index = i + 1;
                return Ok(true);
            }
            return Err(PortCellarError::message("--from-catalog requires an app id".to_owned()));
        }
        if starts_with_text(a, "--from-catalog=") {
            self.from_catalog = Some(strip_all_prefix_text(a, "--from-catalog="));
            return Ok(true);
        }
        if same_text(a, "--from-profile") {
            if i + 1 < args.len() {
                self.from_profile = Some(args[i + 1].clone());
                *index = i + 1;
                return Ok(true);
            }
            return Err(PortCellarError::message("--from-profile requires a TOML path".to_owned()));
        }
        if starts_with_text(a, "--from-profile=") {
            self.from_profile = Some(strip_all_prefix_text(a, "--from-profile="));
            return Ok(true);
        }
        if same_text(a, "--profile-root") {
            if i + 1 < args.len() {
                self.profile_root = Some(args[i + 1].clone());
                *index = i + 1;
                return Ok(true);
            }
            return Err(PortCellarError::message("--profile-root requires a path".to_owned()));
        }
        if starts_with_text(a, "--profile-root=") {
            self.profile_root = Some(strip_all_prefix_text(a, "--profile-root="));
            return Ok(true);
        }
        Ok(false)
    }

    /// Checks the combination of options: exactly one source when one is required, and
    /// a catalog root only with a catalog source.
    pub fn validate(&self, command_name: &str, require_source: bool) -> (r: Result<()>)
        ensures
            match r {
                Ok(()) => source_check(self.view_source(), command_name@, require_source) is Ok,
                Err(e) => source_check(self.view_source(), command_name@, require_source) == Err::<(), Seq<char>>(e.text()),
            },
    {
        if require_source && self.from_catalog.is_some() == self.from_profile.is_some() {
            return Err(PortCellarError::message(concat(command_name, " requires exactly one profile source")));
        }
        if self.profile_root.is_some() && self.from_catalog.is_none() {
            return Err(PortCellarError::message("--profile-root requires --from-catalog".to_owned()));
        }
        Ok(())
    }
}

} // verus!
