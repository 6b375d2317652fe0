//! Resolving the startup file path for a shell.

use vstd::prelude::*;

use crate::text::str_equal;

verus! {

/// The base directory of the configuration path: the home directory where
/// one was found, the current directory otherwise.
pub open spec fn base_dir(home: Option<Seq<char>>) -> Seq<char> {
    match home {
        Option::Some(h) => h,
        Option::None => "."@,
    }
}

/// The view of an optional home directory string.
pub open spec fn home_view(home: Option<String>) -> Option<Seq<char>> {
    match home {
        Option::Some(h) => Option::Some(h@),
        Option::None => Option::None,
    }
}

/// The startup file path for a shell, relative to the base directory:
/// Fish keeps its configuration under `.config`, Zsh at the top of the home
/// directory; an unrecognized shell falls back to a relative path.
pub open spec fn config_path_spec(shell: Seq<char>, home: Option<Seq<char>>) -> Seq<char> {
    if shell == "Fish"@ {
        base_dir(home) + "/.config/fish/config.fish"@
    } else if shell == "Zsh"@ {
        base_dir(home) + "/.zshrc"@
    } else {
        "config"@
    }
}

/// The startup file path for a shell, given the home directory that was
/// found, if any.
pub fn config_path_with_home(shell: &str, home: Option<String>) -> (r: String)
    ensures
        r@ == config_path_spec(shell@, home_view(home)),
{
    let ghost home_v = home_view(home);
    let mut base: String = match home {
        Option::Some(h) => h,
        Option::None => String::from_str("."),
    };
    if str_equal(shell, "Fish") {
        base.append("/.config/fish/config.fish");
        base
    } else if str_equal(shell, "Zsh") {
        base.append("/.zshrc");
        base
    } else {
        String::from_str("config")
    }
}

/// The user's home directory as reported by the platform, if any.
///
/// Relies on dirs::home_dir, which asks the operating system for the
/// invoking user's home directory; the answer depends on the environment,
/// so nothing is promised of it. A home that is not valid Unicode is
/// carried over with the replacement character.
#[verifier::external_body]
fn home_dir_string() -> (r: Option<String>) {
    dirs::home_dir().map(|p| p.to_string_lossy().into_owned())
}

/// The startup file path for a shell, based on the home directory the
/// platform reports; when none is found, the current directory stands in,
/// and the call never fails.
pub fn get_config_path(shell: &str) -> (r: String)
    ensures
        exists|home: Option<Seq<char>>| r@ == config_path_spec(shell@, home),
{
    let home = home_dir_string();
    let ghost home_v = home_view(home);
    let r = config_path_with_home(shell, home);
    proof {
        assert(r@ == config_path_spec(shell@, home_v));
    }
    r
}

} // verus!
