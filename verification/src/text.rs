//! String equality and the fixed template texts.

use vstd::prelude::*;

verus! {

/// Whole-string equality on string slices, decided through owned strings.
pub fn str_equal(a: &str, b: &str) -> (r: bool)
    ensures
        r == (a@ == b@),
{
    let a_owned: String = a.to_owned();
    let b_owned: String = b.to_owned();
    a_owned == b_owned
}

/// The Fish snippet that puts Homebrew's directories on the search paths.
pub open spec fn fish_homebrew_template() -> Seq<char> {
    "\nif test -d /opt/homebrew\n    set -gx PATH /opt/homebrew/bin $PATH\n    set -gx MANPATH /opt/homebrew/share/man $MANPATH\n    set -gx INFOPATH /opt/homebrew/share/info $INFOPATH\nend\n"@
}

pub fn fish_homebrew_text() -> (r: &'static str)
    ensures
        r@ == fish_homebrew_template(),
{
    "\nif test -d /opt/homebrew\n    set -gx PATH /opt/homebrew/bin $PATH\n    set -gx MANPATH /opt/homebrew/share/man $MANPATH\n    set -gx INFOPATH /opt/homebrew/share/info $INFOPATH\nend\n"
}

/// The Fish snippet that sources zoxide's init script when zoxide exists.
pub open spec fn fish_zoxide_template() -> Seq<char> {
    "\nif type -q zoxide\n    zoxide init fish | source\nend\n"@
}

pub fn fish_zoxide_text() -> (r: &'static str)
    ensures
        r@ == fish_zoxide_template(),
{
    "\nif type -q zoxide\n    zoxide init fish | source\nend\n"
}

/// The Zsh snippet that exports Homebrew's directories on the search paths.
pub open spec fn zsh_homebrew_template() -> Seq<char> {
    "\nif [ -d /opt/homebrew ]; then\n    export PATH=/opt/homebrew/bin:$PATH\n    export MANPATH=/opt/homebrew/share/man:$MANPATH\n    export INFOPATH=/opt/homebrew/share/info:$INFOPATH\nfi\n"@
}

pub fn zsh_homebrew_text() -> (r: &'static str)
    ensures
        r@ == zsh_homebrew_template(),
{
    "\nif [ -d /opt/homebrew ]; then\n    export PATH=/opt/homebrew/bin:$PATH\n    export MANPATH=/opt/homebrew/share/man:$MANPATH\n    export INFOPATH=/opt/homebrew/share/info:$INFOPATH\nfi\n"
}

/// The Zsh snippet that evaluates zoxide's init output when zoxide exists.
pub open spec fn zsh_zoxide_template() -> Seq<char> {
    "\nif command -v zoxide &> /dev/null; then\n    eval \"$(zoxide init zsh)\"\nfi\n"@
}

pub fn zsh_zoxide_text() -> (r: &'static str)
    ensures
        r@ == zsh_zoxide_template(),
{
    "\nif command -v zoxide &> /dev/null; then\n    eval \"$(zoxide init zsh)\"\nfi\n"
}

} // verus!
