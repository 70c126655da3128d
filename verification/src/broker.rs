//! The rendezvous broker's list semantics: named first-in-first-out queues
//! of opaque string values. `push` appends a value to the queue of a key, as
//! the broker's `RPUSH` does; `pop` removes and returns the oldest pending
//! value of a key, the value that the broker's `BLPOP` hands to a waiter.
//! This is the reference model the rendezvous contracts are stated against,
//! and an in-process broker for test-scoped runs.

use vstd::prelude::*;

verus! {

/// One named queue: a key and its pending values, oldest first.
struct Entry {
    key: String,
    values: Vec<String>,
}

/// The broker's state: a set of named queues. Keys are looked up by first
/// match, and `push` never creates a second entry for an existing key.
pub struct Broker {
    entries: Vec<Entry>,
}

/// The pending values of key `k` in `entries`, oldest first: those of the
/// first entry whose key is `k`, none when no entry matches.
spec fn spec_pending(entries: Seq<Entry>, k: Seq<char>) -> Seq<Seq<char>>
    decreases entries.len(),
{
    if entries.len() == 0 {
        Seq::<Seq<char>>::empty()
    } else if entries[0].key@ == k {
        entries[0].values@.map_values(|v: String| v@)
    } else {
        spec_pending(entries.skip(1), k)
    }
}

/// Whether some entry of `entries` carries key `k`.
spec fn spec_has_key(entries: Seq<Entry>, k: Seq<char>) -> bool
    decreases entries.len(),
{
    if entries.len() == 0 {
        false
    } else {
        entries[0].key@ == k || spec_has_key(entries.skip(1), k)
    }
}

/// Without an entry for `k`, nothing is pending at `k`.
proof fn lemma_no_key_no_pending(entries: Seq<Entry>, k: Seq<char>)
    requires
        !spec_has_key(entries, k),
    ensures
        spec_pending(entries, k) == Seq::<Seq<char>>::empty(),
    decreases entries.len(),
{
    if entries.len() > 0 {
        lemma_no_key_no_pending(entries.skip(1), k);
    }
}

/// The pending values of `k` are those of the first entry carrying `k`.
proof fn lemma_pending_first_match(entries: Seq<Entry>, k: Seq<char>, i: int)
    requires
        0 <= i < entries.len(),
        entries[i].key@ == k,
        forall|j: int| 0 <= j < i ==> entries[j].key@ != k,
    ensures
        spec_pending(entries, k) == entries[i].values@.map_values(|v: String| v@),
    decreases i,
{
    if i > 0 {
        lemma_pending_first_match(entries.skip(1), k, i - 1);
    }
}

/// Replacing an entry by one with the same key leaves every other key's
/// pending values as they were.
proof fn lemma_pending_update_other(entries: Seq<Entry>, i: int, e: Entry, k2: Seq<char>)
    requires
        0 <= i < entries.len(),
        e.key@ == entries[i].key@,
        k2 != entries[i].key@,
    ensures
        spec_pending(entries.update(i, e), k2) == spec_pending(entries, k2),
    decreases i,
{
    let upd = entries.update(i, e);
    if i == 0 {
        assert(upd.skip(1) =~= entries.skip(1));
    } else {
        assert(upd[0] == entries[0]);
        assert(upd.skip(1) =~= entries.skip(1).update(i - 1, e));
        lemma_pending_update_other(entries.skip(1), i - 1, e, k2);
    }
}

/// Appending an entry for a fresh key `k` makes its values pending at `k`
/// and leaves every other key's pending values as they were.
proof fn lemma_pending_append(entries: Seq<Entry>, e: Entry, k2: Seq<char>)
    requires
        !spec_has_key(entries, e.key@),
    ensures
        spec_pending(entries.push(e), e.key@) == e.values@.map_values(|v: String| v@),
        k2 != e.key@ ==> spec_pending(entries.push(e), k2) == spec_pending(entries, k2),
    decreases entries.len(),
{
    let ext = entries.push(e);
    assert(spec_pending(Seq::<Entry>::empty(), k2) == Seq::<Seq<char>>::empty());
    if entries.len() == 0 {
        assert(ext[0] == e);
        assert(ext.skip(1) =~= Seq::<Entry>::empty());
        if k2 != e.key@ {
            assert(spec_pending(ext, k2) == spec_pending(ext.skip(1), k2));
            assert(spec_pending(entries, k2) == Seq::<Seq<char>>::empty());
        }
    } else {
        assert(ext[0] == entries[0]);
        assert(ext.skip(1) =~= entries.skip(1).push(e));
        lemma_pending_append(entries.skip(1), e, k2);
        assert(entries[0].key@ != e.key@);
        assert(spec_pending(ext, e.key@) == spec_pending(ext.skip(1), e.key@));
        assert(spec_pending(entries.skip(1).push(e), e.key@) == e.values@.map_values(
            |v: String| v@,
        ));
        if k2 != e.key@ {
            if entries[0].key@ == k2 {
                assert(spec_pending(ext, k2) == ext[0].values@.map_values(|v: String| v@));
                assert(spec_pending(entries, k2) == entries[0].values@.map_values(
                    |v: String| v@,
                ));
            } else {
                assert(spec_pending(ext, k2) == spec_pending(ext.skip(1), k2));
                assert(spec_pending(entries, k2) == spec_pending(entries.skip(1), k2));
            }
        }
    }
}

impl Broker {
    /// The pending values at key `k`, oldest first.
    pub closed spec fn pending(self, k: Seq<char>) -> Seq<Seq<char>> {
        spec_pending(self.entries@, k)
    }

    /// A broker with nothing pending at any key.
    pub fn new() -> (b: Broker)
        ensures
            forall|k: Seq<char>| b.pending(k) == Seq::<Seq<char>>::empty(),
    {
        Broker { entries: Vec::new() }
    }

    /// The index of the first entry carrying `key`, if any.
    fn find(&self, key: &str) -> (r: Option<usize>)
        ensures
            match r {
                Some(i) => {
                    &&& i < self.entries@.len()
                    &&& self.entries@[i as int].key@ == key@
                    &&& forall|j: int| 0 <= j < i ==> self.entries@[j].key@ != key@
                },
                None => !spec_has_key(self.entries@, key@),
            },
    {
        let ghost es = self.entries@;
        let key_owned: String = key.to_owned();
        let mut i: usize = 0;
        while i < self.entries.len()
            invariant
                i <= es.len(),
                es == self.entries@,
                key_owned@ == key@,
                forall|j: int| 0 <= j < i ==> es[j].key@ != key@,
            decreases es.len() - i,
        {
            if self.entries[i].key.eq(&key_owned) {
                return Some(i);
            }
            i = i + 1;
        }
        proof {
            lemma_no_has_key_from_scan(es, key@);
        }
        None
    }

    /// Appends `value` to the queue of `key`, as the broker's `RPUSH` does:
    /// the value becomes the newest pending value of that key, and no other
    /// key is touched. Acknowledged by construction: the in-process broker
    /// is always reachable.
    pub fn push(&mut self, key: &str, value: String)
        ensures
            final(self).pending(key@) == old(self).pending(key@).push(value@),
            forall|k2: Seq<char>| k2 != key@ ==> final(self).pending(k2) == old(self).pending(k2),
    {
        let found = self.find(key);
        match found {
            Some(i) => {
                let ghost es0 = self.entries@;
                let mut entry = self.entries.remove(i);
                let ghost vs0 = entry.values@;
                entry.values.push(value);
                let ghost e1 = entry;
                self.entries.insert(i, entry);
                proof {
                    assert(self.entries@ =~= es0.update(i as int, e1));
                    lemma_pending_first_match(es0, key@, i as int);
                    lemma_pending_first_match(es0.update(i as int, e1), key@, i as int);
                    assert(e1.values@.map_values(|v: String| v@) =~= vs0.map_values(
                        |v: String| v@,
                    ).push(value@));
                    assert forall|k2: Seq<char>| k2 != key@ implies spec_pending(
                        self.entries@,
                        k2,
                    ) == spec_pending(es0, k2) by {
                        lemma_pending_update_other(es0, i as int, e1, k2);
                    }
                }
            },
            None => {
                let ghost es0 = self.entries@;
                let mut values = Vec::new();
                values.push(value);
                let entry = Entry { key: key.to_owned(), values };
                let ghost e = entry;
                self.entries.push(entry);
                proof {
                    assert(self.entries@ =~= es0.push(e));
                    lemma_no_key_no_pending(es0, key@);
                    assert forall|k2: Seq<char>| k2 != key@ implies spec_pending(
                        self.entries@,
                        k2,
                    ) == spec_pending(es0, k2) by {
                        lemma_pending_append(es0, e, k2);
                    }
                    lemma_pending_append(es0, e, key@);
                    assert(e.values@.map_values(|v: String| v@) =~= Seq::<
                        Seq<char>,
                    >::empty().push(value@));
                }
            },
        }
    }

    /// Removes and returns the oldest pending value of `key`: the value that
    /// the broker's `BLPOP` would hand to a waiter. Returns nothing, and
    /// changes nothing, when no value is pending at `key`.
    pub fn pop(&mut self, key: &str) -> (r: Option<String>)
        ensures
            old(self).pending(key@).len() == 0 ==> {
                &&& r is None
                &&& *final(self) == *old(self)
            },
            old(self).pending(key@).len() > 0 ==> {
                &&& r matches Some(v) && v@ == old(self).pending(key@)[0]
                &&& final(self).pending(key@) == old(self).pending(key@).drop_first()
                &&& forall|k2: Seq<char>| k2 != key@ ==> final(self).pending(k2) == old(
                    self,
                ).pending(k2)
            },
    {
        let found = self.find(key);
        match found {
            Some(i) => {
                proof {
                    lemma_pending_first_match(self.entries@, key@, i as int);
                }
                if self.entries[i].values.len() == 0 {
                    return None;
                }
                let ghost es0 = self.entries@;
                let mut entry = self.entries.remove(i);
                let ghost vs0 = entry.values@;
                let v = entry.values.remove(0);
                let ghost e1 = entry;
                self.entries.insert(i, entry);
                proof {
                    assert(self.entries@ =~= es0.update(i as int, e1));
                    lemma_pending_first_match(es0.update(i as int, e1), key@, i as int);
                    assert(e1.values@.map_values(|v2: String| v2@) =~= vs0.map_values(
                        |v2: String| v2@,
                    ).drop_first());
                    assert forall|k2: Seq<char>| k2 != key@ implies spec_pending(
                        self.entries@,
                        k2,
                    ) == spec_pending(es0, k2) by {
                        lemma_pending_update_other(es0, i as int, e1, k2);
                    }
                }
                Some(v)
            },
            None => {
                proof {
                    lemma_no_key_no_pending(self.entries@, key@);
                }
                None
            },
        }
    }
}

/// A scan that matched no entry shows the key is absent.
proof fn lemma_no_has_key_from_scan(entries: Seq<Entry>, k: Seq<char>)
    requires
        forall|j: int| 0 <= j < entries.len() ==> entries[j].key@ != k,
    ensures
        !spec_has_key(entries, k),
    decreases entries.len(),
{
    if entries.len() > 0 {
        assert(forall|j: int|
            0 <= j < entries.skip(1).len() ==> entries.skip(1)[j] == entries[j + 1]);
        lemma_no_has_key_from_scan(entries.skip(1), k);
    }
}

/// A value pushed onto a key with nothing pending is exactly what the next
/// pop of that key hands out, after which nothing is pending there again:
/// `b1` is `b0` after `push(k, v)`, and what `pop(k)` returns and leaves
/// behind is fixed by `b1`'s pending values.
pub proof fn law_push_then_pop(b0: Broker, b1: Broker, k: Seq<char>, v: Seq<char>)
    requires
        b0.pending(k).len() == 0,
        b1.pending(k) == b0.pending(k).push(v),
    ensures
        b1.pending(k).len() > 0,
        b1.pending(k)[0] == v,
        b1.pending(k).drop_first() == b0.pending(k),
{
    assert(b0.pending(k).push(v).drop_first() =~= b0.pending(k));
}

/// First-in-first-out: two values pushed under one key come back out of two
/// pops in the order they were pushed. `b1` is `b0` after `push(k, v1)` and
/// `b2` is `b1` after `push(k, v2)`; the first pop of `k` hands out `v1` and
/// leaves `v2` the next value, and the second hands out `v2` and leaves
/// nothing.
pub proof fn law_fifo_order(b0: Broker, b1: Broker, b2: Broker, k: Seq<char>, v1: Seq<char>, v2: Seq<char>)
    requires
        b0.pending(k).len() == 0,
        b1.pending(k) == b0.pending(k).push(v1),
        b2.pending(k) == b1.pending(k).push(v2),
    ensures
        b2.pending(k)[0] == v1,
        b2.pending(k).drop_first()[0] == v2,
        b2.pending(k).drop_first().drop_first() == b0.pending(k),
{
    assert(b2.pending(k).drop_first() =~= b0.pending(k).push(v2));
    assert(b0.pending(k).push(v2).drop_first() =~= b0.pending(k));
}

} // verus!
