use vstd::prelude::*;

verus! {

/// The key of one volume counter: an account and a period index
/// (block height divided by the configured period length).
pub type VolumeKey = (u64, u64);

/// Turns a sequence of key-value entries into the map it represents;
/// a later entry for a key wins, though `VolumeTable` never stores a
/// key twice.
pub open spec fn entries_to_map(s: Seq<(VolumeKey, u64)>) -> Map<VolumeKey, u64>
    decreases s.len(),
{
    if s.len() == 0 {
        Map::<VolumeKey, u64>::empty()
    } else {
        entries_to_map(s.drop_last()).insert(s.last().0, s.last().1)
    }
}

/// The accumulated per-period transaction volume of every account,
/// stored as an association list with pairwise-distinct keys.
#[derive(Debug)]
pub struct VolumeTable {
    pub entries: Vec<(VolumeKey, u64)>,
}

impl View for VolumeTable {
    type V = Map<VolumeKey, u64>;

    open spec fn view(&self) -> Map<VolumeKey, u64> {
        entries_to_map(self.entries@)
    }
}

proof fn lemma_map_domain(s: Seq<(VolumeKey, u64)>)
    ensures
        forall|k: VolumeKey|
            entries_to_map(s).contains_key(k) <==> exists|i: int|
                0 <= i < s.len() && s[i].0 == k,
    decreases s.len(),
{
    if s.len() > 0 {
        let prefix = s.drop_last();
        lemma_map_domain(prefix);
        assert forall|k: VolumeKey| entries_to_map(s).contains_key(k) implies exists|i: int|
            0 <= i < s.len() && s[i].0 == k by {
            if k == s.last().0 {
                assert(s[s.len() - 1].0 == k);
            } else {
                assert(entries_to_map(prefix).contains_key(k));
                let i = choose|i: int| 0 <= i < prefix.len() && prefix[i].0 == k;
                assert(prefix[i] == s[i]);
                assert(s[i].0 == k);
            }
        };
        assert forall|k: VolumeKey|
            (exists|i: int| 0 <= i < s.len() && s[i].0 == k)
            implies entries_to_map(s).contains_key(k) by {
            let i = choose|i: int| 0 <= i < s.len() && s[i].0 == k;
            if i < s.len() - 1 {
                assert(prefix[i] == s[i]);
                assert(prefix[i].0 == k);
                assert(entries_to_map(prefix).contains_key(k));
            }
        };
    }
}

/// True when no key occurs twice among the entries.
pub open spec fn distinct_keys(s: Seq<(VolumeKey, u64)>) -> bool {
    forall|i: int, j: int| 0 <= i < j < s.len() ==> s[i].0 != s[j].0
}

proof fn lemma_map_index(s: Seq<(VolumeKey, u64)>)
    requires
        distinct_keys(s),
    ensures
        forall|i: int| 0 <= i < s.len() ==> entries_to_map(s).contains_key(#[trigger] s[i].0)
            && entries_to_map(s)[s[i].0] == s[i].1,
    decreases s.len(),
{
    if s.len() > 0 {
        let prefix = s.drop_last();
        lemma_map_index(prefix);
        assert forall|i: int| 0 <= i < s.len() implies entries_to_map(s).contains_key(
            #[trigger] s[i].0,
        ) && entries_to_map(s)[s[i].0] == s[i].1 by {
            if i < s.len() - 1 {
                assert(prefix[i] == s[i]);
                assert(s[i].0 != s[s.len() - 1].0);
            }
        };
    }
}

impl VolumeTable {
    /// True when no key occurs twice; every operation preserves this.
    pub open spec fn wf(self) -> bool {
        distinct_keys(self.entries@)
    }

    /// An empty table.
    pub fn new() -> (r: VolumeTable)
        ensures
            r.wf(),
            r@ == Map::<VolumeKey, u64>::empty(),
    {
        VolumeTable { entries: Vec::new() }
    }

    /// The accumulated volume of `account` in `period`; zero when no
    /// counter has been written yet.
    pub fn get(&self, account: u64, period: u64) -> (r: u64)
        requires
            self.wf(),
        ensures
            r == if self@.contains_key((account, period)) {
                self@[(account, period)]
            } else {
                0
            },
    {
        let n = self.entries.len();
        let mut i: usize = 0;
        while i < n
            invariant
                n == self.entries@.len(),
                i <= n,
                self.wf(),
                forall|j: int| 0 <= j < i ==> self.entries@[j].0 != (account, period),
            decreases n - i,
        {
            let e = self.entries[i];
            if e.0.0 == account && e.0.1 == period {
                proof {
                    lemma_map_index(self.entries@);
                    assert(e.0 == (account, period));
                }
                return e.1;
            }
            i += 1;
        }
        proof {
            lemma_map_domain(self.entries@);
        }
        0
    }

    /// Writes the counter of `(account, period)`, replacing any earlier
    /// value.
    #[verifier::loop_isolation(false)]
    pub fn set(&mut self, account: u64, period: u64, value: u64)
        requires
            old(self).wf(),
        ensures
            final(self).wf(),
            final(self)@ == old(self)@.insert((account, period), value),
    {
        let ghost orig = self.entries@;
        let n = self.entries.len();
        let mut i: usize = 0;
        while i < n
            invariant
                self.entries@ == orig,
                n == orig.len(),
                i <= n,
                distinct_keys(orig),
                forall|j: int| 0 <= j < i ==> orig[j].0 != (account, period),
            decreases n - i,
        {
            let e = self.entries[i];
            if e.0.0 == account && e.0.1 == period {
                proof {
                    assert(e.0 == (account, period));
                }
                self.entries[i] = ((account, period), value);
                proof {
                    assert(orig[i as int].0 == (account, period));
                    assert(self.entries@ =~= orig.update(i as int, ((account, period), value)));
                    lemma_update_in_place(orig, i as int, (account, period), value);
                    assert(entries_to_map(self.entries@) == entries_to_map(orig).insert(
                        (account, period),
                        value,
                    ));
                }
                return;
            }
            i += 1;
        }
        self.entries.push(((account, period), value));
        proof {
            assert(self.entries@.drop_last() =~= orig);
            lemma_map_domain(orig);
            assert(!entries_to_map(orig).contains_key((account, period)));
            assert forall|a: int, b: int|
                0 <= a < b < self.entries@.len() implies self.entries@[a].0
                != self.entries@[b].0 by {
                if b == self.entries@.len() - 1 {
                    assert(orig[a].0 != (account, period));
                }
            };
        }
    }
}

proof fn lemma_update_in_place(s: Seq<(VolumeKey, u64)>, i: int, k: VolumeKey, v: u64)
    requires
        distinct_keys(s),
        0 <= i < s.len(),
        s[i].0 == k,
    ensures
        distinct_keys(s.update(i, (k, v))),
        entries_to_map(s.update(i, (k, v))) == entries_to_map(s).insert(k, v),
    decreases s.len(),
{
    let su = s.update(i, (k, v));
    assert forall|a: int, b: int| 0 <= a < b < su.len() implies su[a].0 != su[b].0 by {
        assert(s[a].0 != s[b].0);
    };
    if i == s.len() - 1 {
        assert(su.drop_last() =~= s.drop_last());
        assert(entries_to_map(su) == entries_to_map(s.drop_last()).insert(k, v));
        assert(entries_to_map(s).insert(k, v) =~= entries_to_map(s.drop_last()).insert(
            k,
            s[i].1,
        ).insert(k, v));
        assert(entries_to_map(s.drop_last()).insert(k, s[i].1).insert(k, v)
            =~= entries_to_map(s.drop_last()).insert(k, v));
    } else {
        let prefix = s.drop_last();
        assert(su.drop_last() =~= prefix.update(i, (k, v)));
        assert(prefix[i] == s[i]);
        lemma_update_in_place(prefix, i, k, v);
        assert(entries_to_map(su) == entries_to_map(prefix).insert(k, v).insert(
            s.last().0,
            s.last().1,
        ));
        assert(s[i].0 != s[s.len() - 1].0);
        assert(entries_to_map(prefix).insert(k, v).insert(s.last().0, s.last().1)
            =~= entries_to_map(prefix).insert(s.last().0, s.last().1).insert(k, v));
        assert(su.last() == s.last());
    }
}

} // verus!
