//! The script catalog: scripts keyed by their declared name and kept in
//! name order, bundled ones first and then overlaid by the user's, kept up
//! to date as script files are added, changed or removed.

use vstd::prelude::*;
use crate::script::Script;
use crate::text::{
    lemma_text_lt_irreflexive, lemma_text_lt_total, lemma_text_lt_transitive, same_text, text_less,
    text_lt,
};

verus! {

/// Names strictly ascend, so no two scripts share one.
pub open spec fn names_sorted(s: Seq<Script>) -> bool {
    forall|i: int, j: int|
        0 <= i < j < s.len() ==> text_lt(#[trigger] s[i].metadata.name@, #[trigger] s[j].metadata.name@)
}

/// `p` is where a script named `name` goes among the sorted `s`: every name
/// before it comes first, none from it on does.
pub open spec fn is_slot(s: Seq<Script>, name: Seq<char>, p: int) -> bool {
    &&& 0 <= p <= s.len()
    &&& forall|j: int| 0 <= j < p ==> text_lt(#[trigger] s[j].metadata.name@, name)
    &&& forall|j: int| p <= j < s.len() ==> !text_lt(#[trigger] s[j].metadata.name@, name)
}

pub open spec fn has_name(s: Script, name: Seq<char>) -> bool {
    s.metadata.name@ == name
}

/// The catalog after adding `x`: it takes the place of the script with the
/// same name, if there is one, else it goes in at its place in name order.
pub open spec fn with_script(s: Seq<Script>, x: Script) -> Seq<Script> {
    if exists|i: int| 0 <= i < s.len() && has_name(#[trigger] s[i], x.metadata.name@) {
        let i = choose|i: int| 0 <= i < s.len() && has_name(#[trigger] s[i], x.metadata.name@);
        s.update(i, x)
    } else {
        let p = choose|p: int| is_slot(s, x.metadata.name@, p);
        s.insert(p, x)
    }
}

/// The catalog after adding each of `xs` in turn.
pub open spec fn with_all(s: Seq<Script>, xs: Seq<Script>) -> Seq<Script>
    decreases xs.len(),
{
    if xs.len() == 0 {
        s
    } else {
        with_script(with_all(s, xs.drop_last()), xs.last())
    }
}

pub open spec fn read_from_elsewhere(path: Seq<char>) -> spec_fn(Script) -> bool {
    |s: Script| s.path@ != path
}

/// The catalog without the scripts read from `path`.
pub open spec fn without_path(s: Seq<Script>, path: Seq<char>) -> Seq<Script> {
    s.filter(read_from_elsewhere(path))
}

pub struct ScriptMap {
    pub scripts: Vec<Script>,
}

impl ScriptMap {
    pub open spec fn wf(&self) -> bool {
        names_sorted(self.scripts@)
    }

    pub fn new() -> (r: ScriptMap)
        ensures
            r.wf(),
            r.scripts@.len() == 0,
    {
        ScriptMap { scripts: Vec::new() }
    }

    /// The index of the script named `name`.
    pub fn position(&self, name: &str) -> (r: Option<usize>)
        ensures
            match r {
                Some(i) => i < self.scripts@.len() && has_name(self.scripts@[i as int], name@),
                None => forall|i: int|
                    0 <= i < self.scripts@.len() ==> !has_name(#[trigger] self.scripts@[i], name@),
            },
    {
        let mut i: usize = 0;
        while i < self.scripts.len()
            invariant
                i <= self.scripts@.len(),
                forall|j: int| 0 <= j < i ==> !has_name(#[trigger] self.scripts@[j], name@),
            decreases self.scripts@.len() - i,
        {
            if same_text(self.scripts[i].metadata.name.as_str(), name) {
                return Some(i);
            }
            i = i + 1;
        }
        None
    }

    /// The script named `name`.
    pub fn get(&self, name: &str) -> (r: Option<&Script>)
        ensures
            match r {
                Some(s) => exists|i: int|
                    0 <= i < self.scripts@.len() && self.scripts@[i] == *s && has_name(*s, name@),
                None => forall|i: int|
                    0 <= i < self.scripts@.len() ==> !has_name(#[trigger] self.scripts@[i], name@),
            },
    {
        match self.position(name) {
            Some(i) => Some(&self.scripts[i]),
            None => None,
        }
    }

    /// Adds a script; one of the same name is replaced, else it goes in at
    /// its place in name order.
    pub fn insert(&mut self, script: Script)
        requires
            old(self).wf(),
        ensures
            final(self).wf(),
            final(self).scripts@ == with_script(old(self).scripts@, script),
    {
        let ghost s = self.scripts@;
        let ghost n = script.metadata.name@;
        let mut i: usize = 0;
        while i < self.scripts.len() && text_less(
            self.scripts[i].metadata.name.as_str(),
            script.metadata.name.as_str(),
        )
            invariant
                self.scripts@ == s,
                n == script.metadata.name@,
                names_sorted(s),
                i <= s.len(),
                forall|j: int| 0 <= j < i ==> text_lt(#[trigger] s[j].metadata.name@, n),
            decreases s.len() - i,
        {
            i = i + 1;
        }
        proof {
            assert forall|j: int| i <= j < s.len() implies !text_lt(#[trigger] s[j].metadata.name@, n) by {
                if j > i && text_lt(s[j].metadata.name@, n) {
                    lemma_text_lt_transitive(s[i as int].metadata.name@, s[j].metadata.name@, n);
                }
            }
            assert(is_slot(s, n, i as int));
        }
        if i < self.scripts.len() && same_text(self.scripts[i].metadata.name.as_str(), script.metadata.name.as_str()) {
            proof {
                let k = choose|k: int| 0 <= k < s.len() && has_name(#[trigger] s[k], n);
                if k != i {
                    lemma_text_lt_irreflexive(n);
                    if k < i {
                        assert(text_lt(s[k].metadata.name@, s[i as int].metadata.name@));
                    } else {
                        assert(text_lt(s[i as int].metadata.name@, s[k].metadata.name@));
                    }
                }
            }
            self.scripts.set(i, script);
            assert(self.scripts@ == with_script(s, script));
        } else {
            proof {
                assert forall|k: int| 0 <= k < s.len() implies !has_name(#[trigger] s[k], n) by {
                    lemma_text_lt_irreflexive(n);
                    if k < i {
                    } else if k > i && has_name(s[k], n) {
                        assert(text_lt(s[i as int].metadata.name@, s[k].metadata.name@));
                    }
                }
                let p = choose|p: int| is_slot(s, n, p);
                if p < i {
                    assert(!text_lt(s[p].metadata.name@, n));
                } else if p > i {
                    assert(text_lt(s[i as int].metadata.name@, n));
                }
                assert(p == i);
            }
            self.scripts.insert(i, script);
            proof {
                let t = self.scripts@;
                assert(t == s.insert(i as int, script));
                assert forall|a: int, b: int| 0 <= a < b < t.len() implies text_lt(
                    #[trigger] t[a].metadata.name@,
                    #[trigger] t[b].metadata.name@,
                ) by {
                    if a == i {
                        let e = s[b - 1].metadata.name@;
                        lemma_text_lt_total(n, e);
                        assert(!has_name(s[b - 1], n));
                    } else if b == i {
                    } else if a < i && b > i {
                        assert(text_lt(s[a].metadata.name@, s[b - 1].metadata.name@));
                    } else if a > i {
                        assert(text_lt(s[a - 1].metadata.name@, s[b - 1].metadata.name@));
                    } else {
                        assert(text_lt(s[a].metadata.name@, s[b].metadata.name@));
                    }
                }
            }
            assert(self.scripts@ == with_script(s, script));
        }
    }

    /// Removes every script read from the file at `path`.
    pub fn remove_path(&mut self, path: &str)
        requires
            old(self).wf(),
        ensures
            final(self).wf(),
            final(self).scripts@ == without_path(old(self).scripts@, path@),
    {
        broadcast use vstd::seq_lib::group_seq_properties;
        let ghost orig = self.scripts@;
        let ghost keep = read_from_elsewhere(path@);
        let mut rest: Vec<Script> = Vec::new();
        std::mem::swap(&mut rest, &mut self.scripts);
        let ghost mut k: int = 0;
        while rest.len() > 0
            invariant
                names_sorted(orig),
                0 <= k <= orig.len(),
                rest@ == orig.skip(k),
                self.scripts@ == orig.take(k).filter(keep),
                names_sorted(self.scripts@),
                keep == read_from_elsewhere(path@),
            decreases rest@.len(),
        {
            let x = rest.remove(0);
            assert(orig.take(k + 1) == orig.take(k).push(x));
            assert(x == orig[k]);
            if !same_text(x.path.as_str(), path) {
                proof {
                    assert forall|t: int| 0 <= t < self.scripts@.len() implies text_lt(
                        #[trigger] self.scripts@[t].metadata.name@,
                        x.metadata.name@,
                    ) by {
                        let e = self.scripts@[t];
                        assert(orig.take(k).filter(keep).contains(e));
                        orig.take(k).lemma_filter_contains_rev(keep, e);
                        let m = choose|m: int| 0 <= m < orig.take(k).len() && orig.take(k)[m] == e;
                        assert(orig[m] == e);
                        assert(text_lt(orig[m].metadata.name@, orig[k].metadata.name@));
                    }
                }
                self.scripts.push(x);
            }
            proof {
                orig.take(k).lemma_filter_push(x, keep);
                k = k + 1;
            }
            assert(rest@ =~= orig.skip(k));
        }
        assert(orig.take(k) =~= orig);
    }

    /// Takes in a change to the script file at `path`: whatever was read from
    /// it goes, and the script now read from it, if any, comes in.
    pub fn file_changed(&mut self, path: &str, parsed: Option<Script>)
        requires
            old(self).wf(),
        ensures
            final(self).wf(),
            final(self).scripts@ == match parsed {
                Some(s) => with_script(without_path(old(self).scripts@, path@), s),
                None => without_path(old(self).scripts@, path@),
            },
    {
        self.remove_path(path);
        match parsed {
            Some(s) => self.insert(s),
            None => {},
        }
    }

    /// Adds scripts in order; each replaces one of the same name, so later
    /// ones win.
    pub fn overlay(&mut self, scripts: Vec<Script>)
        requires
            old(self).wf(),
        ensures
            final(self).wf(),
            final(self).scripts@ == with_all(old(self).scripts@, scripts@),
    {
        let ghost orig = self.scripts@;
        let ghost xs = scripts@;
        let mut rest = scripts;
        let ghost mut k: int = 0;
        while rest.len() > 0
            invariant
                self.wf(),
                0 <= k <= xs.len(),
                rest@ == xs.skip(k),
                self.scripts@ == with_all(orig, xs.take(k)),
            decreases rest@.len(),
        {
            let x = rest.remove(0);
            assert(xs.take(k + 1).drop_last() =~= xs.take(k));
            assert(x == xs[k]);
            self.insert(x);
            proof {
                k = k + 1;
            }
            assert(rest@ =~= xs.skip(k));
        }
        assert(xs.take(k) =~= xs);
    }
}

} // verus!
