//! The package model the session works on.
//!
//! Package metadata is read from the system package database by the
//! shell around the library and handed in as plain values; the session
//! never mutates it.  A package is upgradable exactly when a newer
//! version is available from the configured remotes, which the shell
//! records by filling `new_version`.

use vstd::prelude::*;

verus! {

/// One installed package, reduced to plain values.  `name` is the
/// identity key, unique across the package source for the session's
/// lifetime; every field besides `name` and `new_version` is kept for
/// display only.
pub struct PackageData {
    pub name: String,
    pub version: String,
    /// The newer version available from the remotes, present iff an
    /// upgrade exists.
    pub new_version: Option<String>,
    pub description: Option<String>,
    pub architecture: Option<String>,
    pub url: Option<String>,
    pub licenses: Vec<String>,
    pub provides: Vec<String>,
    pub dependencies: Vec<String>,
    pub optional_dependencies: Vec<String>,
    pub conflicts: Vec<String>,
    pub replaces: Vec<String>,
    /// Human-readable installed size.
    pub size: String,
    pub packager: Option<String>,
    /// Install date, already formatted for display.
    pub install_date: Option<String>,
}

/// A package is upgradable iff a newer version is recorded for it.
pub open spec fn spec_upgradable(p: PackageData) -> bool {
    p.new_version is Some
}

impl PackageData {
    /// Whether an upgrade is available for this package.
    pub fn is_upgradable(&self) -> (r: bool)
        ensures
            r == spec_upgradable(*self),
    {
        self.new_version.is_some()
    }
}

/// The names of the upgradable packages, in source order.
pub open spec fn spec_upgradable_names(pkgs: Seq<PackageData>) -> Seq<Seq<char>>
    decreases pkgs.len(),
{
    if pkgs.len() == 0 {
        Seq::<Seq<char>>::empty()
    } else {
        let prefix = spec_upgradable_names(pkgs.drop_last());
        if spec_upgradable(pkgs.last()) {
            prefix.push(pkgs.last().name@)
        } else {
            prefix
        }
    }
}

/// Collect the names of all upgradable packages, in source order.
pub fn upgradable_names(pkgs: &Vec<PackageData>) -> (r: Vec<String>)
    ensures
        crate::selection::names_of(r@) == spec_upgradable_names(pkgs@),
{
    let mut r: Vec<String> = Vec::new();
    let mut i: usize = 0;
    proof {
        assert(pkgs@.subrange(0, 0) =~= Seq::<PackageData>::empty());
        assert(crate::selection::names_of(r@) =~= spec_upgradable_names(pkgs@.subrange(0, 0)));
    }
    while i < pkgs.len()
        invariant
            i <= pkgs@.len(),
            crate::selection::names_of(r@) == spec_upgradable_names(pkgs@.subrange(0, i as int)),
        decreases pkgs@.len() - i,
    {
        let ghost pre = pkgs@.subrange(0, i as int);
        let ghost cur = pkgs@.subrange(0, i + 1);
        proof {
            assert(cur.drop_last() =~= pre);
            assert(cur.last() == pkgs@[i as int]);
        }
        if pkgs[i].new_version.is_some() {
            let ghost before = crate::selection::names_of(r@);
            r.push(pkgs[i].name.clone());
            proof {
                assert(crate::selection::names_of(r@) =~= before.push(pkgs@[i as int].name@));
            }
        }
        i = i + 1;
    }
    proof {
        assert(pkgs@.subrange(0, pkgs@.len() as int) =~= pkgs@);
    }
    r
}

} // verus!
