use vstd::prelude::*;

verus! {

/// Hard bound on the number of headers the cache retains.
pub const MAX_HEADER_CACHE_ENTRIES: usize = 100;

/// Whether some entry of `s` has the key `h`.
pub open spec fn has_key<H>(s: Seq<(bitcoin::BlockHash, H)>, h: bitcoin::BlockHash) -> bool {
    exists|i: int| 0 <= i < s.len() && s[i].0 == h
}

/// The index of the entry with key `h` (unique under well-formedness).
pub open spec fn key_index<H>(s: Seq<(bitcoin::BlockHash, H)>, h: bitcoin::BlockHash) -> int {
    choose|i: int| 0 <= i < s.len() && s[i].0 == h
}

/// What connecting a block does to the cache contents: any entry under the
/// same hash is dropped, the oldest entry is evicted if the cache is full, and
/// the new entry is appended as the newest.
pub open spec fn connect_spec<H>(
    s: Seq<(bitcoin::BlockHash, H)>,
    h: bitcoin::BlockHash,
    v: H,
) -> Seq<(bitcoin::BlockHash, H)> {
    let pruned = if has_key(s, h) {
        s.remove(key_index(s, h))
    } else {
        s
    };
    let evicted = if pruned.len() >= MAX_HEADER_CACHE_ENTRIES {
        pruned.drop_first()
    } else {
        pruned
    };
    evicted.push((h, v))
}

/// An insertion-ordered map from block hash to validated header with a hard
/// capacity bound; when full, the oldest entry is evicted first.
///
/// The header payload `H` is whatever the block-sync collaborator hands back
/// for a validated block; the cache never looks inside it.
pub struct BoundedHeaderCache<H> {
    entries: Vec<(bitcoin::BlockHash, H)>,
}

impl<H> View for BoundedHeaderCache<H> {
    type V = Seq<(bitcoin::BlockHash, H)>;

    closed spec fn view(&self) -> Seq<(bitcoin::BlockHash, H)> {
        self.entries@
    }
}

impl<H> BoundedHeaderCache<H> {
    /// Well-formed: block hashes are unique and the capacity bound holds.
    pub open spec fn wf(&self) -> bool {
        &&& self@.len() <= MAX_HEADER_CACHE_ENTRIES
        &&& forall|i: int, j: int| 0 <= i < j < self@.len() ==> self@[i].0 != self@[j].0
    }

    /// An empty cache.
    pub fn new() -> (r: Self)
        ensures
            r.wf(),
            r@ == Seq::<(bitcoin::BlockHash, H)>::empty(),
    {
        BoundedHeaderCache { entries: Vec::new() }
    }

    /// How many headers are cached.
    pub fn len(&self) -> (r: usize)
        ensures
            r == self@.len(),
    {
        self.entries.len()
    }

    /// The cached header for this block hash, if any.
    pub fn look_up(&self, block_hash: &bitcoin::BlockHash) -> (r: Option<&H>)
        requires
            self.wf(),
        ensures
            r is Some <==> has_key(self@, *block_hash),
            r matches Some(v) ==> 0 <= key_index(self@, *block_hash) < self@.len() && self@[
                key_index(self@, *block_hash)
            ] == (*block_hash, *v),
    {
        let n = self.entries.len();
        let mut i: usize = 0;
        while i < n
            invariant
                i <= n,
                n == self@.len(),
                self.wf(),
                forall|j: int| 0 <= j < i ==> self@[j].0 != *block_hash,
            decreases n - i,
        {
            if self.entries[i].0 == *block_hash {
                proof {
                    assert(self@[i as int].0 == *block_hash);
                    assert(has_key(self@, *block_hash));
                    let ki = key_index(self@, *block_hash);
                    assert(0 <= ki < self@.len() && self@[ki].0 == *block_hash);
                    assert(ki == i as int);
                    assert(self@[i as int] =~= (*block_hash, self@[i as int].1));
                }
                return Some(&self.entries[i].1);
            }
            i = i + 1;
        }
        None
    }

    /// Records the header of a newly connected block: replaces any entry under
    /// the same hash, evicts the oldest entry when full, and appends the new
    /// one as the newest.
    pub fn block_connected(&mut self, block_hash: bitcoin::BlockHash, header: H)
        requires
            old(self).wf(),
        ensures
            final(self).wf(),
            final(self)@ == connect_spec(old(self)@, block_hash, header),
    {
        let ghost s0 = self@;
        self.remove_key(&block_hash);
        let ghost pruned = self@;
        if self.entries.len() >= MAX_HEADER_CACHE_ENTRIES {
            self.entries.remove(0);
            proof {
                assert(self@ =~= pruned.drop_first());
                assert forall|j: int| 0 <= j < self@.len() implies self@[j].0 != block_hash by {
                    assert(self@[j] == pruned[j + 1]);
                }
                assert forall|p: int, q: int|
                    0 <= p < q < self@.len() implies self@[p].0 != self@[q].0 by {
                    assert(self@[p] == pruned[p + 1]);
                    assert(self@[q] == pruned[q + 1]);
                }
            }
        }
        let ghost evicted = self@;
        proof {
            assert(!has_key(evicted, block_hash));
            assert(evicted.len() < MAX_HEADER_CACHE_ENTRIES);
        }
        self.entries.push((block_hash, header));
        proof {
            assert(self@ =~= evicted.push((block_hash, header)));
            assert forall|p: int, q: int|
                0 <= p < q < self@.len() implies self@[p].0 != self@[q].0 by {
                if q == self@.len() - 1 {
                    assert(self@[p] == evicted[p]);
                    assert(self@[q] == (block_hash, header));
                    assert(!(exists|k: int|
                        0 <= k < evicted.len() && evicted[k].0 == block_hash));
                } else {
                    assert(self@[p] == evicted[p]);
                    assert(self@[q] == evicted[q]);
                }
            }
            assert(self@ =~= connect_spec(s0, block_hash, header));
        }
    }

    /// Forgets the header of a disconnected block and returns it, if it was
    /// cached.
    pub fn block_disconnected(&mut self, block_hash: &bitcoin::BlockHash) -> (r: Option<H>)
        requires
            old(self).wf(),
        ensures
            final(self).wf(),
            r is Some <==> has_key(old(self)@, *block_hash),
            r matches Some(v) ==> old(self)@[key_index(old(self)@, *block_hash)] == (
                *block_hash,
                v,
            ) && final(self)@ == old(self)@.remove(key_index(old(self)@, *block_hash)),
            r is None ==> final(self)@ == old(self)@,
    {
        let ghost s0 = self@;
        let n = self.entries.len();
        let mut i: usize = 0;
        while i < n
            invariant
                i <= n,
                n == s0.len(),
                s0 == old(self)@,
                self@ == s0,
                self.wf(),
                forall|j: int| 0 <= j < i ==> s0[j].0 != *block_hash,
            decreases n - i,
        {
            if self.entries[i].0 == *block_hash {
                proof {
                    assert(s0[i as int].0 == *block_hash);
                    assert(has_key(s0, *block_hash));
                    let ki = key_index(s0, *block_hash);
                    assert(0 <= ki < s0.len() && s0[ki].0 == *block_hash);
                    assert(ki == i as int);
                }
                let entry = self.entries.remove(i);
                proof {
                    assert(s0[i as int] =~= (*block_hash, entry.1));
                    let s1 = self@;
                    assert(s1 =~= s0.remove(i as int));
                    lemma_remove_keeps_unique(s0, i as int);
                }
                return Some(entry.1);
            }
            i = i + 1;
        }
        None
    }

    /// Removes the entry under this hash, if any, keeping the order of the
    /// remaining entries.
    fn remove_key(&mut self, block_hash: &bitcoin::BlockHash)
        requires
            old(self).wf(),
        ensures
            final(self).wf(),
            !has_key(final(self)@, *block_hash),
            final(self)@ == (if has_key(old(self)@, *block_hash) {
                old(self)@.remove(key_index(old(self)@, *block_hash))
            } else {
                old(self)@
            }),
    {
        let ghost s0 = self@;
        let n = self.entries.len();
        let mut i: usize = 0;
        while i < n
            invariant
                i <= n,
                n == s0.len(),
                s0 == old(self)@,
                self@ == s0,
                self.wf(),
                forall|j: int| 0 <= j < i ==> s0[j].0 != *block_hash,
            decreases n - i,
        {
            if self.entries[i].0 == *block_hash {
                proof {
                    assert(s0[i as int].0 == *block_hash);
                    assert(has_key(s0, *block_hash));
                    let ki = key_index(s0, *block_hash);
                    assert(0 <= ki < s0.len() && s0[ki].0 == *block_hash);
                    assert(ki == i as int);
                }
                self.entries.remove(i);
                proof {
                    let s1 = self@;
                    assert(s1 =~= s0.remove(i as int));
                    lemma_remove_keeps_unique(s0, i as int);
                    assert forall|j: int| 0 <= j < s1.len() implies s1[j].0 != *block_hash by {
                        if j < i {
                            assert(s1[j] == s0[j]);
                        } else {
                            assert(s1[j] == s0[j + 1]);
                        }
                    }
                }
                return ;
            }
            i = i + 1;
        }
    }
}

/// Removing one entry of a sequence with pairwise distinct keys leaves the
/// keys pairwise distinct.
proof fn lemma_remove_keeps_unique<H>(s: Seq<(bitcoin::BlockHash, H)>, i: int)
    requires
        0 <= i < s.len(),
        forall|p: int, q: int| 0 <= p < q < s.len() ==> s[p].0 != s[q].0,
    ensures
        forall|p: int, q: int|
            0 <= p < q < s.remove(i).len() ==> s.remove(i)[p].0 != s.remove(i)[q].0,
{
    let s1 = s.remove(i);
    assert forall|p: int, q: int| 0 <= p < q < s1.len() implies s1[p].0 != s1[q].0 by {
        let p0 = if p < i {
            p
        } else {
            p + 1
        };
        let q0 = if q < i {
            q
        } else {
            q + 1
        };
        assert(s1[p] == s[p0]);
        assert(s1[q] == s[q0]);
    }
}

} // verus!
