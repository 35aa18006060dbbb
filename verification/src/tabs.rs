//! The dependency-detail tabs under the package info pane.
//!
//! Cycling through the tabs saturates at both ends: there is no
//! wrap-around from the last tab to the first or back.

use vstd::prelude::*;

verus! {

/// The four detail tabs, in display order.
#[derive(Clone, Copy, PartialEq, Eq, Structural, Debug)]
pub enum DependenciesTabs {
    Deps,
    OptDeps,
    Conflics,
    Replaces,
}

impl Default for DependenciesTabs {
    /// The leftmost tab is shown first.
    fn default() -> (r: Self)
        ensures
            r == DependenciesTabs::Deps,
    {
        DependenciesTabs::Deps
    }
}

/// Position of a tab in display order.
pub open spec fn spec_tab_index(t: DependenciesTabs) -> int {
    match t {
        DependenciesTabs::Deps => 0,
        DependenciesTabs::OptDeps => 1,
        DependenciesTabs::Conflics => 2,
        DependenciesTabs::Replaces => 3,
    }
}

/// The tab one step to the right, saturating at the last tab.
pub open spec fn spec_next_tab(t: DependenciesTabs) -> DependenciesTabs {
    match t {
        DependenciesTabs::Deps => DependenciesTabs::OptDeps,
        DependenciesTabs::OptDeps => DependenciesTabs::Conflics,
        DependenciesTabs::Conflics => DependenciesTabs::Replaces,
        DependenciesTabs::Replaces => DependenciesTabs::Replaces,
    }
}

/// The tab one step to the left, saturating at the first tab.
pub open spec fn spec_previous_tab(t: DependenciesTabs) -> DependenciesTabs {
    match t {
        DependenciesTabs::Deps => DependenciesTabs::Deps,
        DependenciesTabs::OptDeps => DependenciesTabs::Deps,
        DependenciesTabs::Conflics => DependenciesTabs::OptDeps,
        DependenciesTabs::Replaces => DependenciesTabs::Conflics,
    }
}

impl DependenciesTabs {
    /// Get previous tab.
    pub fn previous(self) -> (r: Self)
        ensures
            r == spec_previous_tab(self),
            spec_tab_index(r) == if spec_tab_index(self) == 0 {
                0int
            } else {
                spec_tab_index(self) - 1
            },
    {
        match self {
            DependenciesTabs::Deps => DependenciesTabs::Deps,
            DependenciesTabs::OptDeps => DependenciesTabs::Deps,
            DependenciesTabs::Conflics => DependenciesTabs::OptDeps,
            DependenciesTabs::Replaces => DependenciesTabs::Conflics,
        }
    }

    /// Get next tab.
    pub fn next(self) -> (r: Self)
        ensures
            r == spec_next_tab(self),
            spec_tab_index(r) == if spec_tab_index(self) == 3 {
                3int
            } else {
                spec_tab_index(self) + 1
            },
    {
        match self {
            DependenciesTabs::Deps => DependenciesTabs::OptDeps,
            DependenciesTabs::OptDeps => DependenciesTabs::Conflics,
            DependenciesTabs::Conflics => DependenciesTabs::Replaces,
            DependenciesTabs::Replaces => DependenciesTabs::Replaces,
        }
    }

    /// Position of this tab in display order, for the tab bar widget.
    pub fn index(self) -> (r: usize)
        ensures
            r == spec_tab_index(self),
    {
        match self {
            DependenciesTabs::Deps => 0,
            DependenciesTabs::OptDeps => 1,
            DependenciesTabs::Conflics => 2,
            DependenciesTabs::Replaces => 3,
        }
    }
}

} // verus!
