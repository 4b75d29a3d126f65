//! The ignore policy: records whose port, or whose process name, the user
//! configured to be left alone are dropped. Matching is exact equality.
use vstd::prelude::*;
use std::collections::HashSet;
use crate::process::{ProcessInfo, ProcessView, views};

verus! {

/// A set of process names, held without repetition.
pub struct NameSet {
    names: Vec<String>,
}

impl View for NameSet {
    type V = Set<Seq<char>>;

    closed spec fn view(&self) -> Set<Seq<char>> {
        self.names@.map_values(|s: String| s@).to_set()
    }
}

impl NameSet {
    #[verifier::type_invariant]
    spec fn distinct(&self) -> bool {
        forall|i: int, j: int|
            0 <= i < j < self.names.len() ==> #[trigger] self.names@[i]@ != #[trigger] self.names@[j]@
    }

    pub fn new() -> (r: NameSet)
        ensures
            r@ == Set::<Seq<char>>::empty(),
    {
        let r = NameSet { names: Vec::new() };
        assert(r@ =~= Set::<Seq<char>>::empty());
        r
    }

    pub fn contains(&self, name: &String) -> (r: bool)
        ensures
            r == self@.contains(name@),
    {
        let mut i: usize = 0;
        while i < self.names.len()
            invariant
                i <= self.names.len(),
                forall|j: int| 0 <= j < i ==> #[trigger] self.names@[j]@ != name@,
            decreases self.names.len() - i,
        {
            if self.names[i] == *name {
                assert(self.names@.map_values(|s: String| s@)[i as int] == name@);
                return true;
            }
            i = i + 1;
        }
        assert(!self.names@.map_values(|s: String| s@).contains(name@));
        false
    }

    pub fn len(&self) -> (r: usize)
        ensures
            r == self@.len(),
    {
        proof {
            use_type_invariant(self);
            self.lemma_len();
        }
        self.names.len()
    }

    proof fn lemma_len(&self)
        requires
            self.distinct(),
        ensures
            self@.len() == self.names.len(),
    {
        let s = self.names@.map_values(|s: String| s@);
        assert(s.no_duplicates()) by {
            assert forall|i: int, j: int| 0 <= i < s.len() && 0 <= j < s.len() && i != j implies s[i]
                != s[j] by {
                if i < j {
                    assert(self.names@[i]@ != self.names@[j]@);
                } else {
                    assert(self.names@[j]@ != self.names@[i]@);
                }
            }
        }
        s.unique_seq_to_set();
    }

    /// Adds `name`; a name already present is not added twice.
    pub fn insert(&mut self, name: String)
        ensures
            final(self)@ == old(self)@.insert(name@),
    {
        if !self.contains(&name) {
            proof {
                use_type_invariant(&*self);
            }
            let ghost before = self.names@;
            let mut names: Vec<String> = Vec::new();
            let mut i: usize = 0;
            while i < self.names.len()
                invariant
                    i <= self.names.len(),
                    self.names@ == before,
                    names@ == before.take(i as int),
                decreases self.names.len() - i,
            {
                names.push(self.names[i].clone());
                assert(names@ =~= before.take(i + 1));
                i = i + 1;
            }
            assert(names@ =~= before);
            names.push(name);
            let ghost m = names@.map_values(|s: String| s@);
            let ghost b = before.map_values(|s: String| s@);
            assert(m =~= b.push(name@));
            assert forall|x: Seq<char>| m.contains(x) <==> (b.contains(x) || x == name@) by {
                if b.contains(x) {
                    let k = choose|k: int| 0 <= k < b.len() && b[k] == x;
                    assert(m[k] == x);
                }
                if x == name@ {
                    assert(m[b.len() as int] == x);
                }
                if m.contains(x) {
                    let k = choose|k: int| 0 <= k < m.len() && m[k] == x;
                    if k < b.len() {
                        assert(b[k] == x);
                    }
                }
            }
            assert(forall|i: int| 0 <= i < before.len() ==> before.map_values(|s: String| s@)[i]
                == #[trigger] before[i]@);
            self.names = names;
        } else {
            assert(old(self)@.insert(name@) =~= old(self)@);
        }
        assert(final(self)@ =~= old(self)@.insert(name@));
    }
}

/// The ports and the process names to leave alone.
pub struct IgnoreSet {
    pub ports: HashSet<u16>,
    pub process_names: NameSet,
}

pub struct IgnoreView {
    pub ports: Set<u16>,
    pub process_names: Set<Seq<char>>,
}

impl View for IgnoreSet {
    type V = IgnoreView;

    open spec fn view(&self) -> IgnoreView {
        IgnoreView { ports: self.ports@, process_names: self.process_names@ }
    }
}

/// Whether the policy drops the record `p`.
pub open spec fn is_ignored(p: ProcessView, ignore: IgnoreView) -> bool {
    ignore.ports.contains(p.port) || ignore.process_names.contains(p.name)
}

/// The records of `records` that the policy keeps, in their order.
pub open spec fn kept(records: Seq<ProcessView>, ignore: IgnoreView) -> Seq<ProcessView> {
    records.filter(|p: ProcessView| !is_ignored(p, ignore))
}

impl IgnoreSet {
    /// Whether `port` or `name` is configured to be left alone.
    pub fn ignores(&self, port: u16, name: &String) -> (r: bool)
        ensures
            r == (self@.ports.contains(port) || self@.process_names.contains(name@)),
    {
        self.ports.contains(&port) || self.process_names.contains(name)
    }
}

/// Drops the records that `ignore` covers, keeping the others in order.
pub fn filter(records: Vec<ProcessInfo>, ignore: &IgnoreSet) -> (r: Vec<ProcessInfo>)
    ensures
        views(r@) == kept(views(records@), ignore@),
{
    let mut out: Vec<ProcessInfo> = Vec::new();
    for p in it: records.into_iter()
        invariant
            it.seq() == records@,
            views(out@) == kept(views(it.seq().take(it.index() as int)), ignore@),
    {
        let ghost done = it.seq().take(it.index() as int);
        let ghost next = it.seq().take(it.index() + 1);
        assert(views(next).drop_last() =~= views(done));
        reveal(Seq::filter);
        if !ignore.ignores(p.port, &p.name) {
            let ghost earlier = out@;
            out.push(p);
            assert(views(out@) =~= views(earlier).push(p@));
        }
    }
    proof {
        assert(records@.take(records@.len() as int) =~= records@);
    }
    out
}

/// Filtering drops exactly the ignored records: nothing it returns has an
/// ignored port or name, and every record that has neither is kept.
pub proof fn lemma_filter_drops_exactly_ignored(records: Seq<ProcessView>, ignore: IgnoreView)
    ensures
        forall|p: ProcessView| #[trigger]
            kept(records, ignore).contains(p) ==> records.contains(p) && !ignore.ports.contains(
                p.port,
            ) && !ignore.process_names.contains(p.name),
        forall|p: ProcessView|
            #[trigger] records.contains(p) && !ignore.ports.contains(p.port)
                && !ignore.process_names.contains(p.name) ==> kept(records, ignore).contains(p),
{
    broadcast use vstd::seq_lib::group_filter_ensures;

    let pred = |p: ProcessView| !is_ignored(p, ignore);
    assert forall|p: ProcessView| #[trigger]
        kept(records, ignore).contains(p) implies records.contains(p) && !is_ignored(p, ignore) by {
        let k = kept(records, ignore);
        let i = choose|i: int| 0 <= i < k.len() && k[i] == p;
        records.lemma_filter_pred(pred, i);
        records.lemma_filter_contains_rev(pred, p);
    }
    assert forall|p: ProcessView|
        #[trigger] records.contains(p) && !is_ignored(p, ignore) implies kept(records, ignore).contains(p) by {
        let i = choose|i: int| 0 <= i < records.len() && records[i] == p;
        records.lemma_filter_contains(pred, i);
    }
}

} // verus!
