//! The filtered package list: fuzzy search, upgradable-only filter,
//! and the selection badge shown beside each row.
//!
//! The view is derived, never stored: it is recomputed from the
//! package source and the current filter inputs on demand, as an
//! owned sequence of indices into the source, in source order.

use crate::fuzzy::{fuzzy_match_of, fuzzy_matches};
use crate::pacman::{spec_upgradable, PackageData};
use fuzzy_matcher::skim::SkimMatcherV2;
use vstd::prelude::*;

verus! {

/// How many rows a page jump moves the cursor.
pub const PAGE_SIZE: usize = 25;

/// Whether a package passes the current filter: its name matches the
/// query (an empty query matches everything), and, when only
/// upgradable packages are wanted, an upgrade exists for it.
pub open spec fn spec_pkg_matches(p: PackageData, q: Seq<char>, upgradable_only: bool) -> bool {
    fuzzy_match_of(p.name@, q) && (upgradable_only ==> spec_upgradable(p))
}

/// The indices of the packages that pass the filter, in source order.
pub open spec fn spec_filtered(
    pkgs: Seq<PackageData>,
    q: Seq<char>,
    upgradable_only: bool,
) -> Seq<int>
    decreases pkgs.len(),
{
    if pkgs.len() == 0 {
        Seq::<int>::empty()
    } else {
        let prefix = spec_filtered(pkgs.drop_last(), q, upgradable_only);
        if spec_pkg_matches(pkgs.last(), q, upgradable_only) {
            prefix.push(pkgs.len() - 1)
        } else {
            prefix
        }
    }
}

/// Law: the filtered view holds exactly the indices of the packages
/// that pass the filter — every index it holds is in range and
/// matches, and every matching package's index is held.
pub proof fn lemma_filtered_exact(pkgs: Seq<PackageData>, q: Seq<char>, upgradable_only: bool)
    ensures
        forall|x: int|
            #[trigger] spec_filtered(pkgs, q, upgradable_only).contains(x) <==> (0 <= x
                < pkgs.len() && spec_pkg_matches(pkgs[x], q, upgradable_only)),
    decreases pkgs.len(),
{
    let f = spec_filtered(pkgs, q, upgradable_only);
    if pkgs.len() == 0 {
        assert(f.len() == 0);
    } else {
        let prefix = spec_filtered(pkgs.drop_last(), q, upgradable_only);
        lemma_filtered_exact(pkgs.drop_last(), q, upgradable_only);
        assert forall|x: int| #[trigger] f.contains(x) implies (0 <= x < pkgs.len()
            && spec_pkg_matches(pkgs[x], q, upgradable_only)) by {
            let j = choose|j: int| #![auto] 0 <= j < f.len() && f[j] == x;
            if j < prefix.len() {
                assert(prefix[j] == x);
                assert(prefix.contains(x));
                assert(pkgs.drop_last()[x] == pkgs[x]);
            } else {
                assert(x == pkgs.len() - 1);
                assert(pkgs.last() == pkgs[x]);
            }
        };
        assert forall|x: int|
            0 <= x < pkgs.len() && spec_pkg_matches(
                pkgs[x],
                q,
                upgradable_only,
            ) implies #[trigger] f.contains(x) by {
            if x < pkgs.len() - 1 {
                assert(pkgs.drop_last()[x] == pkgs[x]);
                assert(prefix.contains(x));
                let j = choose|j: int| #![auto] 0 <= j < prefix.len() && prefix[j] == x;
                assert(f[j] == x);
            } else {
                assert(spec_pkg_matches(pkgs.last(), q, upgradable_only));
                assert(f[f.len() - 1] == x);
            }
        };
    }
}

/// Law: the filtered view keeps source order — its indices are
/// strictly increasing.
pub proof fn lemma_filtered_increasing(pkgs: Seq<PackageData>, q: Seq<char>, upgradable_only: bool)
    ensures
        forall|a: int, b: int|
            0 <= a < b < spec_filtered(pkgs, q, upgradable_only).len()
                ==> #[trigger] spec_filtered(pkgs, q, upgradable_only)[a]
                < #[trigger] spec_filtered(pkgs, q, upgradable_only)[b],
    decreases pkgs.len(),
{
    let f = spec_filtered(pkgs, q, upgradable_only);
    if pkgs.len() == 0 {
    } else {
        let prefix = spec_filtered(pkgs.drop_last(), q, upgradable_only);
        lemma_filtered_increasing(pkgs.drop_last(), q, upgradable_only);
        lemma_filtered_exact(pkgs.drop_last(), q, upgradable_only);
        assert forall|a: int, b: int|
            0 <= a < b < f.len() implies #[trigger] f[a] < #[trigger] f[b] by {
            if b < prefix.len() {
            } else if b == prefix.len() && f.len() == prefix.len() + 1 {
                assert(prefix.contains(prefix[a]));
                assert(prefix[a] < pkgs.len() - 1);
            }
        };
    }
}

/// Compute the filtered view: the indices of the packages whose name
/// fuzzy-matches `query` and which, when `upgradable_only` is set,
/// have an upgrade available; in source order.
pub fn filtered_view(
    pkgs: &Vec<PackageData>,
    matcher: &SkimMatcherV2,
    query: &str,
    upgradable_only: bool,
) -> (r: Vec<usize>)
    ensures
        r@.map_values(|k: usize| k as int) == spec_filtered(pkgs@, query@, upgradable_only),
{
    let mut r: Vec<usize> = Vec::new();
    let mut i: usize = 0;
    proof {
        assert(pkgs@.subrange(0, 0) =~= Seq::<PackageData>::empty());
        assert(r@.map_values(|k: usize| k as int) =~= spec_filtered(
            pkgs@.subrange(0, 0),
            query@,
            upgradable_only,
        ));
    }
    while i < pkgs.len()
        invariant
            i <= pkgs@.len(),
            r@.map_values(|k: usize| k as int) == spec_filtered(
                pkgs@.subrange(0, i as int),
                query@,
                upgradable_only,
            ),
        decreases pkgs@.len() - i,
    {
        let ghost pre = pkgs@.subrange(0, i as int);
        let ghost cur = pkgs@.subrange(0, i + 1);
        proof {
            assert(cur.drop_last() =~= pre);
            assert(cur.last() == pkgs@[i as int]);
        }
        let p = &pkgs[i];
        let is_match = fuzzy_matches(matcher, p.name.as_str(), query);
        let upgrade_ok = if upgradable_only {
            p.new_version.is_some()
        } else {
            true
        };
        if is_match && upgrade_ok {
            let ghost before = r@.map_values(|k: usize| k as int);
            r.push(i);
            proof {
                assert(spec_pkg_matches(pkgs@[i as int], query@, upgradable_only));
                assert(r@.map_values(|k: usize| k as int) =~= before.push(i as int));
                assert(spec_filtered(cur, query@, upgradable_only) == spec_filtered(
                    pre,
                    query@,
                    upgradable_only,
                ).push(i as int));
            }
        } else {
            proof {
                assert(!spec_pkg_matches(pkgs@[i as int], query@, upgradable_only));
                assert(spec_filtered(cur, query@, upgradable_only) == spec_filtered(
                    pre,
                    query@,
                    upgradable_only,
                ));
            }
        }
        i = i + 1;
    }
    proof {
        assert(pkgs@.subrange(0, pkgs@.len() as int) =~= pkgs@);
    }
    r
}

/// The three-way marker drawn beside a row.
#[derive(Clone, Copy, PartialEq, Eq, Structural, Debug)]
pub enum SelectionBadge {
    /// The row's package is selected.
    Selected,
    /// The row's package could join the selection but stands back:
    /// something else is already selected.
    DimmedUnselected,
    /// The row's package is unselected and nothing is selected.
    PlainUnselected,
}

/// The badge rule: a selected row is marked; an upgradable,
/// unselected row is dimmed as soon as the selection is non-empty;
/// every other row is plain.
pub open spec fn spec_badge(
    is_upgradable: bool,
    is_selected: bool,
    selection_empty: bool,
) -> SelectionBadge {
    if is_selected {
        SelectionBadge::Selected
    } else if is_upgradable && !selection_empty {
        SelectionBadge::DimmedUnselected
    } else {
        SelectionBadge::PlainUnselected
    }
}

/// Compute the badge for one visible row.
pub fn badge(is_upgradable: bool, is_selected: bool, selection_empty: bool) -> (r: SelectionBadge)
    ensures
        r == spec_badge(is_upgradable, is_selected, selection_empty),
{
    if is_selected {
        SelectionBadge::Selected
    } else if is_upgradable && !selection_empty {
        SelectionBadge::DimmedUnselected
    } else {
        SelectionBadge::PlainUnselected
    }
}

} // verus!
