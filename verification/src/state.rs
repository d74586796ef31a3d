//! Where the runtime keeps its private state.
use vstd::prelude::*;
use crate::paths::{join, path_join};

verus! {

/// The state root: an explicit override, else `.portcellar` in the project, else the
/// platform's per-user data directory under the home directory, else `.portcellar`.
pub open spec fn state_root_of(
    override_root: Option<Seq<char>>,
    project_root: Option<Seq<char>>,
    home: Option<Seq<char>>,
    macos: bool,
) -> Seq<char> {
    match override_root {
        Some(p) => p,
        None => match project_root {
            Some(p) => path_join(p, ".portcellar"@),
            None => match home {
                Some(h) => if macos {
                    path_join(h, "Library/Application Support/PortCellar"@)
                } else {
                    path_join(h, ".local/share/portcellar"@)
                },
                None => ".portcellar"@,
            },
        },
    }
}

/// `Option<&str>` as optional text.
pub open spec fn opt_path(o: Option<&str>) -> Option<Seq<char>> {
    match o {
        Some(s) => Some(s@),
        None => None,
    }
}

/// The state root for the given override, project root, home directory and platform.
pub fn resolve_state_root(override_root: Option<&str>, project_root: Option<&str>, home: Option<&str>, macos: bool) -> (r: String)
    ensures r@ == state_root_of(opt_path(override_root), opt_path(project_root), opt_path(home), macos),
{
    proof {
        reveal_strlit(".portcellar");
        reveal_strlit("Library/Application Support/PortCellar");
        reveal_strlit(".local/share/portcellar");
    }
    if let Some(path) = override_root {
        return path.to_owned();
    }
    if let Some(path) = project_root {
        return join(path, ".portcellar");
    }
    if let Some(path) = home {
        return if macos {
            join(path, "Library/Application Support/PortCellar")
        } else {
            join(path, ".local/share/portcellar")
        };
    }
    ".portcellar".to_owned()
}

} // verus!
