//! The fixed catalogs of shells and features, and the mapping from a
//! prompt's selected indices to feature labels.

use vstd::prelude::*;

use crate::render::render;
use crate::render::views_of;
use crate::text::str_equal;

verus! {

/// The supported shells, in the order the selector presents them.
pub open spec fn shell_catalog_spec() -> Seq<Seq<char>> {
    seq!["Fish"@, "Zsh"@]
}

/// The ordered catalog of optional features for a shell; an unrecognized
/// shell has an empty catalog.
pub open spec fn feature_catalog_spec(shell: Seq<char>) -> Seq<Seq<char>> {
    if shell == "Fish"@ || shell == "Zsh"@ {
        seq!["Homebrew initialization"@, "zoxide initialization"@]
    } else {
        Seq::<Seq<char>>::empty()
    }
}

/// The labels of the supported shells, in selector order.
pub fn shell_catalog() -> (r: Vec<String>)
    ensures
        views_of(r@) == shell_catalog_spec(),
{
    let mut r: Vec<String> = Vec::new();
    r.push(String::from_str("Fish"));
    r.push(String::from_str("Zsh"));
    proof {
        assert(views_of(r@) =~= shell_catalog_spec());
    }
    r
}

/// The feature labels offered for a shell, in catalog order.
pub fn feature_catalog(shell: &str) -> (r: Vec<String>)
    ensures
        views_of(r@) == feature_catalog_spec(shell@),
{
    let mut r: Vec<String> = Vec::new();
    if str_equal(shell, "Fish") || str_equal(shell, "Zsh") {
        r.push(String::from_str("Homebrew initialization"));
        r.push(String::from_str("zoxide initialization"));
    }
    proof {
        assert(views_of(r@) =~= feature_catalog_spec(shell@));
    }
    r
}

/// The catalog labels that a sequence of selected indices picks out, in the
/// order the indices stand.
pub open spec fn labels_of(catalog: Seq<Seq<char>>, selections: Seq<usize>) -> Seq<Seq<char>> {
    selections.map_values(|i: usize| catalog[i as int])
}

/// The selected labels, looked up in the catalog in selection order. The
/// multi-select prompt reports checked indices in catalog order, so the
/// result preserves catalog order, not click order.
pub fn selected_features(catalog: &Vec<String>, selections: &Vec<usize>) -> (r: Vec<String>)
    requires
        forall|i: int| 0 <= i < selections@.len() ==> selections@[i] < catalog@.len(),
    ensures
        views_of(r@) == labels_of(views_of(catalog@), selections@),
{
    let mut r: Vec<String> = Vec::new();
    let mut i: usize = 0;
    while i < selections.len()
        invariant
            i <= selections.len(),
            forall|j: int| 0 <= j < selections@.len() ==> selections@[j] < catalog@.len(),
            views_of(r@) == labels_of(views_of(catalog@), selections@.take(i as int)),
        decreases selections.len() - i,
    {
        let ghost r_before = r@;
        r.push(catalog[selections[i]].clone());
        proof {
            let taken = selections@.take((i as int) + 1);
            let c = views_of(catalog@);
            assert(r@ == r_before.push(catalog@[selections@[i as int] as int]));
            assert(taken.len() == (i as int) + 1);
            assert(views_of(r_before) == labels_of(c, selections@.take(i as int)));
            assert(views_of(r_before).len() == r_before.len());
            assert(labels_of(c, selections@.take(i as int)).len() == i as int);
            assert(r@.len() == (i as int) + 1);
            assert((i as int) + 1 <= selections@.len());
            assert forall|j: int| 0 <= j < r@.len() implies #[trigger] views_of(r@)[j] == labels_of(
                c,
                taken,
            )[j] by {
                assert(taken[j] == selections@[j]);
                assert(selections@[j] < catalog@.len());
                assert(labels_of(c, taken)[j] == c[selections@[j] as int]);
                assert(c[selections@[j] as int] == catalog@[selections@[j] as int]@);
                if j < i {
                    assert(r@[j] == r_before[j]);
                    assert(views_of(r_before)[j] == labels_of(c, selections@.take(i as int))[j]);
                    assert(selections@.take(i as int)[j] == selections@[j]);
                    assert(labels_of(c, selections@.take(i as int))[j] == c[selections@[j] as int]);
                    assert(views_of(r_before)[j] == r_before[j]@);
                } else {
                    assert(j == i);
                    assert(r@[j] == catalog@[selections@[j] as int]);
                }
                assert(views_of(r@)[j] == r@[j]@);
            }
            assert(views_of(r@) =~= labels_of(c, taken));
        }
        i = i + 1;
    }
    proof {
        assert(selections@.take(selections@.len() as int) =~= selections@);
    }
    r
}

/// A sequence of indices in strictly increasing order, as the multi-select
/// prompt reports its checked items.
pub open spec fn strictly_increasing(s: Seq<usize>) -> bool {
    forall|i: int, j: int| 0 <= i < j < s.len() ==> s[i] < s[j]
}

/// Two strictly increasing index sequences over the same set of indices are
/// equal.
pub proof fn lemma_sorted_selection_unique(a: Seq<usize>, b: Seq<usize>)
    requires
        strictly_increasing(a),
        strictly_increasing(b),
        a.to_set() == b.to_set(),
    ensures
        a == b,
    decreases a.len(),
{
    broadcast use vstd::set::group_set_axioms;

    if a.len() == 0 {
        if b.len() > 0 {
            assert(b.contains(b[0]));
            assert(a.to_set().contains(b[0]));
            assert(a.contains(b[0]));
        }
        assert(a =~= b);
    } else {
        assert(a.contains(a[0]));
        assert(b.to_set().contains(a[0]));
        assert(b.contains(a[0]));
        let ka = choose|k: int| 0 <= k < b.len() && b[k] == a[0];
        assert(b.contains(b[0]));
        assert(a.to_set().contains(b[0]));
        assert(a.contains(b[0]));
        let kb = choose|k: int| 0 <= k < a.len() && a[k] == b[0];
        assert(a[0] <= a[kb] && b[0] <= b[ka]);
        assert(a[0] == b[0]);
        let a_rest = a.drop_first();
        let b_rest = b.drop_first();
        assert(a_rest.to_set() =~= b_rest.to_set()) by {
            assert forall|x: usize| a_rest.contains(x) implies b_rest.contains(x) by {
                let i = choose|i: int| 0 <= i < a_rest.len() && a_rest[i] == x;
                assert(a[i + 1] == x);
                assert(a[0] < x);
                assert(a.contains(x));
                assert(b.to_set().contains(x));
                assert(b.contains(x));
                let j = choose|j: int| 0 <= j < b.len() && b[j] == x;
                assert(j != 0);
                assert(b_rest[j - 1] == x);
            }
            assert forall|x: usize| b_rest.contains(x) implies a_rest.contains(x) by {
                let i = choose|i: int| 0 <= i < b_rest.len() && b_rest[i] == x;
                assert(b[i + 1] == x);
                assert(b[0] < x);
                assert(b.contains(x));
                assert(a.to_set().contains(x));
                assert(a.contains(x));
                let j = choose|j: int| 0 <= j < a.len() && a[j] == x;
                assert(j != 0);
                assert(a_rest[j - 1] == x);
            }
        }
        assert(strictly_increasing(a_rest)) by {
            assert forall|i: int, j: int| 0 <= i < j < a_rest.len() implies a_rest[i] < a_rest[j] by {
                assert(a[i + 1] < a[j + 1]);
            }
        }
        assert(strictly_increasing(b_rest)) by {
            assert forall|i: int, j: int| 0 <= i < j < b_rest.len() implies b_rest[i] < b_rest[j] by {
                assert(b[i + 1] < b[j + 1]);
            }
        }
        lemma_sorted_selection_unique(a_rest, b_rest);
        assert(a.len() == b.len());
        assert forall|i: int| 0 <= i < a.len() implies a[i] == b[i] by {
            if i > 0 {
                assert(a[i] == a_rest[i - 1]);
                assert(b[i] == b_rest[i - 1]);
            }
        }
        assert(a =~= b);
    }
}

/// The rendered configuration depends only on which catalog entries were
/// checked, never on the order they were clicked in: any two strictly
/// increasing index sequences that pick the same set of entries select the
/// same labels and render to the same text.
pub proof fn lemma_selection_order_irrelevant(
    catalog: Seq<Seq<char>>,
    a: Seq<usize>,
    b: Seq<usize>,
    shell: Seq<char>,
)
    requires
        strictly_increasing(a),
        strictly_increasing(b),
        a.to_set() == b.to_set(),
    ensures
        labels_of(catalog, a) == labels_of(catalog, b),
        render(shell, labels_of(catalog, a)) == render(shell, labels_of(catalog, b)),
{
    lemma_sorted_selection_unique(a, b);
}

} // verus!
