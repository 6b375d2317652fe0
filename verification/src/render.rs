//! Rendering a feature selection to configuration text.

use vstd::prelude::*;

use crate::text::fish_homebrew_template;
use crate::text::fish_homebrew_text;
use crate::text::fish_zoxide_template;
use crate::text::fish_zoxide_text;
use crate::text::str_equal;
use crate::text::zsh_homebrew_template;
use crate::text::zsh_homebrew_text;
use crate::text::zsh_zoxide_template;
use crate::text::zsh_zoxide_text;

verus! {

/// The views of a vector of owned strings.
pub open spec fn views_of(strings: Seq<String>) -> Seq<Seq<char>> {
    strings.map_values(|s: String| s@)
}

/// The fixed text block for one (shell, feature) pair; a pair outside the
/// catalog contributes nothing.
pub open spec fn template_for(shell: Seq<char>, feature: Seq<char>) -> Seq<char> {
    if shell == "Fish"@ && feature == "Homebrew initialization"@ {
        fish_homebrew_template()
    } else if shell == "Fish"@ && feature == "zoxide initialization"@ {
        fish_zoxide_template()
    } else if shell == "Zsh"@ && feature == "Homebrew initialization"@ {
        zsh_homebrew_template()
    } else if shell == "Zsh"@ && feature == "zoxide initialization"@ {
        zsh_zoxide_template()
    } else {
        Seq::<char>::empty()
    }
}

/// The configuration text for a shell and an ordered feature list: each
/// feature's template, concatenated in list order.
pub open spec fn render(shell: Seq<char>, features: Seq<Seq<char>>) -> Seq<char>
    decreases features.len(),
{
    if features.len() == 0 {
        Seq::<char>::empty()
    } else {
        render(shell, features.drop_last()) + template_for(shell, features.last())
    }
}

/// The template text for one (shell, feature) pair; empty outside the catalog.
pub fn template_text(shell: &str, feature: &str) -> (r: &'static str)
    ensures
        r@ == template_for(shell@, feature@),
{
    let r: &'static str = if str_equal(shell, "Fish") {
        if str_equal(feature, "Homebrew initialization") {
            fish_homebrew_text()
        } else if str_equal(feature, "zoxide initialization") {
            fish_zoxide_text()
        } else {
            ""
        }
    } else if str_equal(shell, "Zsh") {
        if str_equal(feature, "Homebrew initialization") {
            zsh_homebrew_text()
        } else if str_equal(feature, "zoxide initialization") {
            zsh_zoxide_text()
        } else {
            ""
        }
    } else {
        ""
    };
    proof {
        reveal_strlit("");
        assert(""@ =~= Seq::<char>::empty());
    }
    r
}

/// Renders the selected features for a shell: the features' template texts,
/// concatenated in the order the features stand in the list.
pub fn generate_config(shell: &str, features: &Vec<String>) -> (r: String)
    ensures
        r@ == render(shell@, views_of(features@)),
{
    let ghost feature_views = views_of(features@);
    let mut out = String::new();
    let mut i: usize = 0;
    while i < features.len()
        invariant
            i <= features.len(),
            feature_views == views_of(features@),
            out@ == render(shell@, feature_views.take(i as int)),
        decreases features.len() - i,
    {
        let text = template_text(shell, features[i].as_str());
        out.append(text);
        proof {
            assert(feature_views.take(i + 1 as int).drop_last() =~= feature_views.take(i as int));
            assert(feature_views.take(i + 1 as int).last() == features@[i as int]@);
        }
        i = i + 1;
    }
    proof {
        assert(feature_views.take(features@.len() as int) =~= feature_views);
    }
    out
}

/// Rendering is deterministic: any two results that the renderer's contract
/// allows for the same shell and feature list are byte-identical.
pub proof fn lemma_render_deterministic(
    shell: Seq<char>,
    features: Seq<Seq<char>>,
    r1: Seq<char>,
    r2: Seq<char>,
)
    requires
        r1 == render(shell, features),
        r2 == render(shell, features),
    ensures
        r1 == r2,
{
}

/// Rendering an empty feature list yields the empty string, for every shell.
pub proof fn lemma_render_empty(shell: Seq<char>)
    ensures
        render(shell, Seq::<Seq<char>>::empty()) == Seq::<char>::empty(),
{
}

} // verus!
