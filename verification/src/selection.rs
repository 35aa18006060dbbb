//! Multi-selection bookkeeping.
//!
//! The selection holds package names, never list indices: indices are
//! unstable across filter changes.  It behaves as a set; its
//! abstraction is a `Set` of character sequences.

use vstd::prelude::*;

verus! {

/// The character sequences behind a sequence of strings.
pub open spec fn names_of(v: Seq<String>) -> Seq<Seq<char>> {
    v.map_values(|s: String| s@)
}

/// Toggling is an idempotent add/remove on the selection.
pub open spec fn spec_toggle(s: Set<Seq<char>>, n: Seq<char>) -> Set<Seq<char>> {
    if s.contains(n) {
        s.remove(n)
    } else {
        s.insert(n)
    }
}

/// Bulk select: add every given name.
pub open spec fn spec_select_all(s: Set<Seq<char>>, u: Set<Seq<char>>) -> Set<Seq<char>> {
    s.union(u)
}

/// Bulk deselect: drop every given name.
pub open spec fn spec_deselect_all(s: Set<Seq<char>>, u: Set<Seq<char>>) -> Set<Seq<char>> {
    s.difference(u)
}

/// Law: toggling the same name twice restores the prior selection.
pub proof fn lemma_toggle_involutive(s: Set<Seq<char>>, n: Seq<char>)
    ensures
        spec_toggle(spec_toggle(s, n), n) == s,
{
    if s.contains(n) {
        assert(spec_toggle(s, n) == s.remove(n));
        assert(!s.remove(n).contains(n));
        assert(s.remove(n).insert(n) =~= s);
    } else {
        assert(spec_toggle(s, n) == s.insert(n));
        assert(s.insert(n).remove(n) =~= s);
    }
}

/// Law: selecting all upgradable names on an empty selection and then
/// deselecting them leaves the selection empty again.
pub proof fn lemma_select_then_deselect_empty(u: Set<Seq<char>>)
    ensures
        spec_deselect_all(spec_select_all(Set::<Seq<char>>::empty(), u), u) == Set::<
            Seq<char>,
        >::empty(),
{
    assert(spec_deselect_all(spec_select_all(Set::<Seq<char>>::empty(), u), u) =~= Set::<
        Seq<char>,
    >::empty());
}

/// In a duplicate-free sequence, the element at `i` does not occur
/// before `i`.
proof fn lemma_no_dup_prefix_excludes(m: Seq<Seq<char>>, i: int)
    requires
        m.no_duplicates(),
        0 <= i < m.len(),
    ensures
        !m.subrange(0, i).contains(m[i]),
{
    if m.subrange(0, i).contains(m[i]) {
        let j = choose|j: int|
            #![auto]
            0 <= j < m.subrange(0, i).len() && m.subrange(0, i)[j] == m[i];
        assert(m[j] == m[i]);
        assert(false);
    }
}

/// Whether one of the strings reads as `name`.
pub(crate) fn names_contain(v: &Vec<String>, name: &String) -> (r: bool)
    ensures
        r == names_of(v@).contains(name@),
{
    let mut i: usize = 0;
    while i < v.len()
        invariant
            i <= v@.len(),
            forall|j: int| 0 <= j < i ==> names_of(v@)[j] != name@,
        decreases v@.len() - i,
    {
        if v[i] == *name {
            assert(names_of(v@)[i as int] == name@);
            return true;
        }
        i = i + 1;
    }
    false
}

/// The set of package names the operator has marked for syncing.
pub struct SelectionSet {
    names: Vec<String>,
}

impl View for SelectionSet {
    type V = Set<Seq<char>>;

    closed spec fn view(&self) -> Set<Seq<char>> {
        names_of(self.names@).to_set()
    }
}

impl SelectionSet {
    /// No name is stored twice.
    pub closed spec fn wf(&self) -> bool {
        names_of(self.names@).no_duplicates()
    }

    /// An empty selection.
    pub fn new() -> (r: Self)
        ensures
            r@ == Set::<Seq<char>>::empty(),
            r.wf(),
    {
        let r = SelectionSet { names: Vec::new() };
        proof {
            assert(names_of(r.names@) =~= Seq::<Seq<char>>::empty());
            assert(r@ =~= Set::<Seq<char>>::empty());
        }
        r
    }

    /// How many names are selected.
    pub fn len(&self) -> (r: usize)
        requires
            self.wf(),
        ensures
            r == self@.len(),
    {
        proof {
            names_of(self.names@).unique_seq_to_set();
        }
        self.names.len()
    }

    /// Whether nothing is selected.
    pub fn is_empty(&self) -> (r: bool)
        ensures
            r == self@.is_empty(),
    {
        let r = self.names.len() == 0;
        proof {
            if self.names@.len() == 0 {
                assert(self@ =~= Set::<Seq<char>>::empty());
            } else {
                assert(names_of(self.names@)[0] == self.names@[0]@);
                assert(self@.contains(self.names@[0]@));
                assert(!(self@ =~= Set::<Seq<char>>::empty()));
            }
        }
        r
    }

    /// Whether `name` is selected.
    pub fn contains(&self, name: &String) -> (r: bool)
        ensures
            r == self@.contains(name@),
    {
        names_contain(&self.names, name)
    }

    /// The selected names, in the order they were first selected.
    pub fn as_vec(&self) -> (r: &Vec<String>)
        ensures
            names_of(r@).to_set() == self@,
            self.wf() ==> names_of(r@).no_duplicates(),
    {
        &self.names
    }

    /// Add a name that is not yet selected.
    fn push_absent(&mut self, name: String)
        requires
            old(self).wf(),
            !old(self)@.contains(name@),
        ensures
            final(self)@ == old(self)@.insert(name@),
            final(self).wf(),
    {
        self.names.push(name);
        proof {
            let m = names_of(old(self).names@);
            let m2 = names_of(self.names@);
            assert(m2 =~= m.push(name@));
            assert forall|x: Seq<char>| m2.contains(x) implies old(self)@.insert(name@).contains(
                x,
            ) by {
                let j = choose|j: int| #![auto] 0 <= j < m2.len() && m2[j] == x;
                if j < m.len() {
                    assert(m[j] == x);
                }
            };
            assert forall|x: Seq<char>|
                old(self)@.insert(name@).contains(x) implies m2.contains(x) by {
                if old(self)@.contains(x) {
                    let j = choose|j: int| #![auto] 0 <= j < m.len() && m[j] == x;
                    assert(m2[j] == x);
                } else {
                    assert(m2[m.len() as int] == name@);
                }
            };
            assert(self@ =~= old(self)@.insert(name@));
            assert(!m.contains(name@));
            assert(m2.no_duplicates());
        }
    }

    /// Drop the name stored at position `i`.
    fn remove_at(&mut self, i: usize)
        requires
            old(self).wf(),
            i < old(self).names@.len(),
        ensures
            final(self)@ == old(self)@.remove(names_of(old(self).names@)[i as int]),
            final(self).wf(),
    {
        let ghost m = names_of(old(self).names@);
        let ghost nm = m[i as int];
        self.names.remove(i);
        proof {
            let m2 = names_of(self.names@);
            assert(m2 =~= m.remove(i as int));
            assert forall|x: Seq<char>| m2.contains(x) implies (old(self)@.remove(nm).contains(
                x,
            )) by {
                let j = choose|j: int| #![auto] 0 <= j < m2.len() && m2[j] == x;
                if j < i {
                    assert(m[j] == x);
                    assert(j != i && m.no_duplicates() ==> m[j] != m[i as int]);
                } else {
                    assert(m[j + 1] == x);
                    assert(m[j + 1] != m[i as int]);
                }
            };
            assert forall|x: Seq<char>| old(self)@.remove(nm).contains(x) implies m2.contains(
                x,
            ) by {
                let k = choose|k: int| #![auto] 0 <= k < m.len() && m[k] == x;
                assert(k != i);
                if k < i {
                    assert(m2[k] == x);
                } else {
                    assert(m2[k - 1] == x);
                }
            };
            assert(self@ =~= old(self)@.remove(nm));
            assert forall|p: int, q: int|
                0 <= p < m2.len() && 0 <= q < m2.len() && p != q implies m2[p] != m2[q] by {
                let p0 = if p < i { p } else { p + 1 };
                let q0 = if q < i { q } else { q + 1 };
                assert(m2[p] == m[p0] && m2[q] == m[q0] && p0 != q0);
            };
            assert(m2.no_duplicates());
        }
    }

    /// Toggle `name`: drop it when selected, add it when not.
    pub fn toggle(&mut self, name: String)
        requires
            old(self).wf(),
        ensures
            final(self)@ == spec_toggle(old(self)@, name@),
            final(self).wf(),
    {
        let mut idx: Option<usize> = None;
        let mut i: usize = 0;
        while i < self.names.len()
            invariant
                i <= self.names@.len(),
                idx matches Some(k) ==> k < self.names@.len() && names_of(self.names@)[k as int]
                    == name@,
                idx is None ==> forall|j: int| 0 <= j < i ==> names_of(self.names@)[j] != name@,
            decreases self.names@.len() - i,
        {
            if idx.is_none() && self.names[i] == name {
                assert(names_of(self.names@)[i as int] == name@);
                idx = Some(i);
            }
            i = i + 1;
        }
        match idx {
            Some(k) => {
                proof {
                    assert(names_of(self.names@).contains(name@));
                    assert(old(self)@.contains(name@));
                }
                self.remove_at(k);
            },
            None => {
                proof {
                    assert(!names_of(self.names@).contains(name@));
                    assert(!old(self)@.contains(name@));
                }
                self.push_absent(name);
            },
        }
    }

    /// Add every one of `upgradable` to the selection.
    pub fn select_all_upgradable(&mut self, upgradable: &Vec<String>)
        requires
            old(self).wf(),
        ensures
            final(self)@ == spec_select_all(old(self)@, names_of(upgradable@).to_set()),
            final(self).wf(),
    {
        let ghost u = names_of(upgradable@);
        let mut i: usize = 0;
        while i < upgradable.len()
            invariant
                i <= upgradable@.len(),
                u == names_of(upgradable@),
                self.wf(),
                self@ =~= old(self)@.union(u.subrange(0, i as int).to_set()),
            decreases upgradable@.len() - i,
        {
            let ghost prev = self@;
            let cur: &String = &upgradable[i];
            assert(u[i as int] == cur@);
            if !self.contains(cur) {
                self.push_absent(cur.clone());
            }
            proof {
                assert(u.subrange(0, i + 1) =~= u.subrange(0, i as int).push(u[i as int]));
                u.subrange(0, i as int).lemma_push_to_set_commute(u[i as int]);
                assert(self@ =~= old(self)@.union(u.subrange(0, i + 1).to_set()));
            }
            i = i + 1;
        }
        proof {
            assert(u.subrange(0, u.len() as int) =~= u);
        }
    }

    /// Drop every one of `upgradable` from the selection.
    pub fn deselect_all_upgradable(&mut self, upgradable: &Vec<String>)
        requires
            old(self).wf(),
        ensures
            final(self)@ == spec_deselect_all(old(self)@, names_of(upgradable@).to_set()),
            final(self).wf(),
    {
        let ghost u = names_of(upgradable@);
        let ghost m = names_of(old(self).names@);
        let mut kept: Vec<String> = Vec::new();
        let mut i: usize = 0;
        assert(names_of(kept@) =~= Seq::<Seq<char>>::empty());
        while i < self.names.len()
            invariant
                i <= self.names@.len(),
                u == names_of(upgradable@),
                m == names_of(self.names@),
                m.no_duplicates(),
                names_of(kept@).no_duplicates(),
                names_of(kept@).to_set() =~= m.subrange(0, i as int).to_set().difference(
                    u.to_set(),
                ),
            decreases self.names@.len() - i,
        {
            let ghost km = names_of(kept@);
            let cur: &String = &self.names[i];
            assert(m[i as int] == cur@);
            if !names_contain(upgradable, cur) {
                proof {
                    lemma_no_dup_prefix_excludes(m, i as int);
                    if km.contains(cur@) {
                        assert(km.to_set().contains(cur@));
                        assert(m.subrange(0, i as int).to_set().contains(cur@));
                        assert(m.subrange(0, i as int).contains(cur@));
                    }
                    assert(!km.contains(cur@));
                }
                kept.push(cur.clone());
                proof {
                    assert(names_of(kept@) =~= km.push(cur@));
                    km.lemma_push_to_set_commute(cur@);
                    assert(names_of(kept@).no_duplicates());
                }
            }
            proof {
                assert(m.subrange(0, i + 1) =~= m.subrange(0, i as int).push(m[i as int]));
                m.subrange(0, i as int).lemma_push_to_set_commute(m[i as int]);
                assert(names_of(kept@).to_set() =~= m.subrange(0, i + 1).to_set().difference(
                    u.to_set(),
                ));
            }
            i = i + 1;
        }
        proof {
            assert(m.subrange(0, m.len() as int) =~= m);
        }
        self.names = kept;
        proof {
            assert(self@ =~= old(self)@.difference(u.to_set()));
        }
    }
}

} // verus!
