use vstd::prelude::*;
use crate::addr::PeerAddr;

verus! {

/// The peers connected to a server, each under its address, in the order in
/// which they connected.
pub struct PeerTable<V> {
    entries: Vec<(PeerAddr, V)>,
}

/// No address occurs twice.
pub open spec fn keys_unique<V>(s: Seq<(PeerAddr, V)>) -> bool {
    forall|i: int, j: int| 0 <= i < s.len() && 0 <= j < s.len() && i != j ==> s[i].0 != s[j].0
}

/// Some entry is under address `a`.
pub open spec fn has_key<V>(s: Seq<(PeerAddr, V)>, a: PeerAddr) -> bool {
    exists|i: int| 0 <= i < s.len() && s[i].0 == a
}

/// The position of the entry under address `a` (meaningful when there is one).
pub open spec fn key_index<V>(s: Seq<(PeerAddr, V)>, a: PeerAddr) -> int {
    choose|i: int| 0 <= i < s.len() && s[i].0 == a
}

/// What the table holds under address `a`.
pub open spec fn lookup<V>(s: Seq<(PeerAddr, V)>, a: PeerAddr) -> Option<V> {
    if has_key(s, a) {
        Some(s[key_index(s, a)].1)
    } else {
        None
    }
}

/// The entries after `v` is put under address `a`: it replaces the value
/// already there, in place, or is added at the end.
pub open spec fn put<V>(s: Seq<(PeerAddr, V)>, a: PeerAddr, v: V) -> Seq<(PeerAddr, V)> {
    if has_key(s, a) {
        s.update(key_index(s, a), (a, v))
    } else {
        s.push((a, v))
    }
}

/// The entries after the one under address `a`, if any, is taken out; the
/// others keep their order.
pub open spec fn take_out<V>(s: Seq<(PeerAddr, V)>, a: PeerAddr) -> Seq<(PeerAddr, V)> {
    if has_key(s, a) {
        s.remove(key_index(s, a))
    } else {
        s
    }
}

/// The values of all entries not under address `a`, in table order: the
/// peers that a broadcast from `a` reaches.
pub open spec fn recipients<V>(s: Seq<(PeerAddr, V)>, a: PeerAddr) -> Seq<V>
    decreases s.len(),
{
    if s.len() == 0 {
        Seq::empty()
    } else if s.last().0 == a {
        recipients(s.drop_last(), a)
    } else {
        recipients(s.drop_last(), a).push(s.last().1)
    }
}

impl<V> View for PeerTable<V> {
    type V = Seq<(PeerAddr, V)>;

    closed spec fn view(&self) -> Seq<(PeerAddr, V)> {
        self.entries@
    }
}

impl<V> PeerTable<V> {
    /// The table is well-formed: no address occurs twice.
    pub open spec fn wf(&self) -> bool {
        keys_unique(self@)
    }

    /// An empty table.
    pub fn new() -> (t: PeerTable<V>)
        ensures
            t@ == Seq::<(PeerAddr, V)>::empty(),
            t.wf(),
    {
        PeerTable { entries: Vec::new() }
    }

    /// The number of peers in the table.
    pub fn len(&self) -> (n: usize)
        ensures
            n == self@.len(),
    {
        self.entries.len()
    }

    /// The position of the entry under `a`, if there is one.
    fn find(&self, a: &PeerAddr) -> (r: Option<usize>)
        requires
            self.wf(),
        ensures
            match r {
                Some(i) => i < self@.len() && self@[i as int].0 == *a && key_index(self@, *a)
                    == i,
                None => !has_key(self@, *a),
            },
    {
        let mut i: usize = 0;
        while i < self.entries.len()
            invariant
                i <= self.entries@.len(),
                self.entries@ == self@,
                keys_unique(self@),
                forall|j: int| 0 <= j < i ==> self@[j].0 != *a,
            decreases self.entries@.len() - i,
        {
            if self.entries[i].0 == *a {
                proof {
                    assert(has_key(self@, *a));
                    let k = key_index(self@, *a);
                    assert(self@[k].0 == *a);
                }
                return Some(i);
            }
            i = i + 1;
        }
        None
    }

    /// Whether a peer is in the table under `a`.
    pub fn contains(&self, a: &PeerAddr) -> (b: bool)
        requires
            self.wf(),
        ensures
            b == has_key(self@, *a),
    {
        self.find(a).is_some()
    }

    /// The peer under `a`, if there is one.
    pub fn get(&self, a: &PeerAddr) -> (r: Option<&V>)
        requires
            self.wf(),
        ensures
            match r {
                Some(v) => lookup(self@, *a) == Some(*v),
                None => lookup(self@, *a) is None,
            },
    {
        match self.find(a) {
            Some(i) => Some(&self.entries[i].1),
            None => None,
        }
    }

    /// Puts `v` under `a`, in place of the peer already there, if any, which
    /// is returned.
    pub fn insert(&mut self, a: PeerAddr, v: V) -> (old_v: Option<V>)
        requires
            old(self).wf(),
        ensures
            final(self)@ == put(old(self)@, a, v),
            final(self).wf(),
            old_v == lookup(old(self)@, a),
    {
        match self.find(&a) {
            Some(i) => {
                let (_, prev) = self.entries.remove(i);
                self.entries.insert(i, (a, v));
                proof {
                    assert(self@ =~= put(old(self)@, a, v));
                }
                Some(prev)
            },
            None => {
                self.entries.push((a, v));
                None
            },
        }
    }

    /// Takes the peer under `a` out of the table, if there is one, and
    /// returns it.
    pub fn remove(&mut self, a: &PeerAddr) -> (old_v: Option<V>)
        requires
            old(self).wf(),
        ensures
            final(self)@ == take_out(old(self)@, *a),
            final(self).wf(),
            old_v == lookup(old(self)@, *a),
    {
        match self.find(a) {
            Some(i) => {
                let (_, prev) = self.entries.remove(i);
                Some(prev)
            },
            None => None,
        }
    }

    /// Empties the table.
    pub fn clear(&mut self)
        ensures
            final(self)@ == Seq::<(PeerAddr, V)>::empty(),
            final(self).wf(),
    {
        self.entries.clear();
    }

    /// The peers that a broadcast from `a` reaches: every peer in the table
    /// except the one under `a`, in table order.
    pub fn recipients(&self, a: &PeerAddr) -> (r: Vec<&V>)
        ensures
            r@.len() == recipients(self@, *a).len(),
            forall|i: int| 0 <= i < r@.len() ==> *r@[i] == recipients(self@, *a)[i],
    {
        let mut r: Vec<&V> = Vec::new();
        let mut i: usize = 0;
        while i < self.entries.len()
            invariant
                i <= self.entries@.len(),
                self.entries@ == self@,
                r@.len() == recipients(self@.take(i as int), *a).len(),
                forall|k: int| 0 <= k < r@.len() ==> *r@[k] == recipients(self@.take(i as int), *a)[k],
            decreases self.entries@.len() - i,
        {
            proof {
                assert(self@.take(i + 1).drop_last() =~= self@.take(i as int));
            }
            if self.entries[i].0 != *a {
                r.push(&self.entries[i].1);
            }
            i = i + 1;
        }
        proof {
            assert(self@.take(self@.len() as int) =~= self@);
        }
        r
    }
}

/// Read after write: once `v` is put under `a`, the table holds `v` under `a`,
/// holds under every other address what it held before, and still has no
/// address twice.
pub proof fn law_lookup_after_put<V>(s: Seq<(PeerAddr, V)>, a: PeerAddr, v: V, b: PeerAddr)
    requires
        keys_unique(s),
    ensures
        keys_unique(put(s, a, v)),
        lookup(put(s, a, v), a) == Some(v),
        b != a ==> lookup(put(s, a, v), b) == lookup(s, b),
{
    let t = put(s, a, v);
    if has_key(s, a) {
        let k = key_index(s, a);
        assert(t[k].0 == a);
    } else {
        assert(t[s.len() as int].0 == a);
    }
    assert(has_key(t, a));
    let ka = key_index(t, a);
    assert(t[ka].0 == a);
    if b != a {
        if has_key(s, b) {
            let kb = key_index(s, b);
            assert(t[kb] == s[kb]);
            assert(has_key(t, b));
        }
        if has_key(t, b) {
            let kb = key_index(t, b);
            assert(t[kb].0 == b);
            assert(s[kb] == t[kb]);
            assert(has_key(s, b));
        }
    }
}

/// Once the peer under `a` is taken out, the table holds nothing under `a`,
/// holds under every other address what it held before, and still has no
/// address twice.
pub proof fn law_lookup_after_take_out<V>(s: Seq<(PeerAddr, V)>, a: PeerAddr, b: PeerAddr)
    requires
        keys_unique(s),
    ensures
        keys_unique(take_out(s, a)),
        lookup(take_out(s, a), a) is None,
        b != a ==> lookup(take_out(s, a), b) == lookup(s, b),
{
    let t = take_out(s, a);
    if has_key(s, a) {
        let k = key_index(s, a);
        assert(s[k].0 == a);
        assert forall|i: int, j: int| 0 <= i < t.len() && 0 <= j < t.len() && i != j implies t[i].0
            != t[j].0 by {
            let si = if i < k { i } else { i + 1 };
            let sj = if j < k { j } else { j + 1 };
            assert(t[i] == s[si]);
            assert(t[j] == s[sj]);
        }
        if has_key(t, a) {
            let i = key_index(t, a);
            let si = if i < k { i } else { i + 1 };
            assert(t[i] == s[si]);
        }
        if b != a {
            if has_key(s, b) {
                let kb = key_index(s, b);
                assert(s[kb].0 == b);
                let ti = if kb < k { kb } else { kb - 1 };
                assert(t[ti] == s[kb]);
                assert(has_key(t, b));
                let tb = key_index(t, b);
                let sb = if tb < k { tb } else { tb + 1 };
                assert(t[tb] == s[sb]);
            }
            if has_key(t, b) {
                let tb = key_index(t, b);
                let sb = if tb < k { tb } else { tb + 1 };
                assert(t[tb] == s[sb]);
                assert(has_key(s, b));
            }
        }
    }
}

/// A peer that connects and then leaves, under an address the table did not
/// hold, leaves the table exactly as it was.
pub proof fn law_put_then_take_out<V>(s: Seq<(PeerAddr, V)>, a: PeerAddr, v: V)
    requires
        keys_unique(s),
        !has_key(s, a),
    ensures
        take_out(put(s, a, v), a) == s,
{
    let t = put(s, a, v);
    assert(t[s.len() as int].0 == a);
    assert(has_key(t, a));
    let k = key_index(t, a);
    assert(k == s.len()) by {
        if k != s.len() {
            assert(s[k].0 == a);
        }
    }
    assert(take_out(t, a) =~= s);
}

/// Count of the entries of `s` under address `a`.
pub open spec fn count_key<V>(s: Seq<(PeerAddr, V)>, a: PeerAddr) -> nat
    decreases s.len(),
{
    if s.len() == 0 {
        0
    } else {
        count_key(s.drop_last(), a) + (if s.last().0 == a { 1nat } else { 0nat })
    }
}

proof fn lemma_count_key<V>(s: Seq<(PeerAddr, V)>, a: PeerAddr)
    requires
        keys_unique(s),
    ensures
        count_key(s, a) == (if has_key(s, a) { 1nat } else { 0nat }),
        recipients(s, a).len() + count_key(s, a) == s.len(),
    decreases s.len(),
{
    if s.len() > 0 {
        let p = s.drop_last();
        assert(keys_unique(p));
        lemma_count_key(p, a);
        if s.last().0 == a {
            assert(s[s.len() - 1].0 == a);
            if has_key(p, a) {
                let k = key_index(p, a);
                assert(s[k].0 == a);
            }
        } else {
            if has_key(s, a) {
                let k = key_index(s, a);
                assert(p[k] == s[k]);
            }
            if has_key(p, a) {
                let k = key_index(p, a);
                assert(p[k] == s[k]);
            }
        }
    }
}

proof fn lemma_recipients_members<V>(s: Seq<(PeerAddr, V)>, a: PeerAddr)
    ensures
        forall|i: int|
            0 <= i < recipients(s, a).len() ==> exists|j: int|
                0 <= j < s.len() && s[j].0 != a && s[j].1 == #[trigger] recipients(s, a)[i],
        forall|j: int|
            0 <= j < s.len() && s[j].0 != a ==> exists|i: int|
                0 <= i < recipients(s, a).len() && recipients(s, a)[i] == #[trigger] s[j].1,
    decreases s.len(),
{
    if s.len() > 0 {
        let p = s.drop_last();
        lemma_recipients_members(p, a);
        let rp = recipients(p, a);
        let r = recipients(s, a);
        assert forall|i: int| 0 <= i < r.len() implies exists|j: int|
            0 <= j < s.len() && s[j].0 != a && s[j].1 == #[trigger] r[i] by {
            if i < rp.len() {
                assert(r[i] == rp[i]);
                let j = choose|j: int| 0 <= j < p.len() && p[j].0 != a && p[j].1 == rp[i];
                assert(s[j] == p[j]);
            } else {
                assert(s[s.len() - 1].1 == r[i]);
            }
        }
        assert forall|j: int| 0 <= j < s.len() && s[j].0 != a implies exists|i: int|
            0 <= i < r.len() && r[i] == #[trigger] s[j].1 by {
            if j < s.len() - 1 {
                assert(p[j] == s[j]);
                let i = choose|i: int| 0 <= i < rp.len() && rp[i] == p[j].1;
                assert(r[i] == rp[i]);
            } else {
                assert(r[r.len() - 1] == s[j].1);
            }
        }
    }
}

/// A broadcast from `a` reaches every other peer and no one else: each
/// recipient is the peer of an entry under another address, each peer under
/// another address is a recipient, and there is one recipient per such peer,
/// so one fewer than the table holds when the sender is in it.
pub proof fn law_broadcast_reaches_all_others<V>(s: Seq<(PeerAddr, V)>, a: PeerAddr)
    requires
        keys_unique(s),
    ensures
        recipients(s, a).len() + (if has_key(s, a) { 1int } else { 0int }) == s.len(),
        forall|i: int|
            0 <= i < recipients(s, a).len() ==> exists|j: int|
                0 <= j < s.len() && s[j].0 != a && s[j].1 == #[trigger] recipients(s, a)[i],
        forall|j: int|
            0 <= j < s.len() && s[j].0 != a ==> exists|i: int|
                0 <= i < recipients(s, a).len() && recipients(s, a)[i] == #[trigger] s[j].1,
{
    lemma_count_key(s, a);
    lemma_recipients_members(s, a);
}

} // verus!
