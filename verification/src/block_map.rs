//! A map from digests, pruned by height.

use crate::chain::{Block, Digest, Height};
use std::sync::Arc;
use vstd::prelude::*;

verus! {

/// What stands at a height of the chain.
pub trait AtHeight {
    /// The height.
    spec fn height_of(&self) -> Height;

    /// The height.
    fn height(&self) -> (height: Height)
        ensures
            height == self.height_of(),
    ;
}

impl AtHeight for Height {
    open spec fn height_of(&self) -> Height {
        *self
    }

    fn height(&self) -> (height: Height) {
        *self
    }
}

impl<B> AtHeight for Arc<Block<B>> {
    open spec fn height_of(&self) -> Height {
        self.height
    }

    fn height(&self) -> (height: Height) {
        self.height
    }
}

/// A map from digests to values of type `T`.
pub struct BlockMap<T> {
    entries: Vec<(Digest, T)>,
}

/// Whether no digest occurs twice.
spec fn distinct<T>(entries: Seq<(Digest, T)>) -> bool {
    forall|i: int, j: int|
        0 <= i < j < entries.len() ==> (#[trigger] entries[i]).0 != (#[trigger] entries[j]).0
}

/// The map whose entries are listed.
spec fn listed<T>(entries: Seq<(Digest, T)>) -> Map<Digest, T>
    decreases entries.len(),
{
    if entries.len() == 0 {
        Map::empty()
    } else {
        listed(entries.drop_last()).insert(entries.last().0, entries.last().1)
    }
}

/// A listed map has the digests of the list, and where they are distinct,
/// with the values beside them.
proof fn lemma_listed<T>(entries: Seq<(Digest, T)>)
    ensures
        forall|digest: Digest| #[trigger]
            listed(entries).contains_key(digest) <==> exists|i: int|
                0 <= i < entries.len() && (#[trigger] entries[i]).0 == digest,
        distinct(entries) ==> forall|i: int|
            0 <= i < entries.len() ==> listed(entries)[(#[trigger] entries[i]).0] == entries[i].1,
    decreases entries.len(),
{
    if entries.len() > 0 {
        let rest = entries.drop_last();
        lemma_listed(rest);
        assert(forall|i: int| 0 <= i < rest.len() ==> rest[i] == entries[i]);
        assert forall|digest: Digest| #[trigger]
            listed(entries).contains_key(digest) <==> exists|i: int|
                0 <= i < entries.len() && (#[trigger] entries[i]).0 == digest by {
            if listed(entries).contains_key(digest) {
                if digest == entries.last().0 {
                    assert(entries[entries.len() - 1].0 == digest);
                } else {
                    assert(listed(rest).contains_key(digest));
                    let i = choose|i: int| 0 <= i < rest.len() && (#[trigger] rest[i]).0 == digest;
                    assert(entries[i].0 == digest);
                }
            }
            if exists|i: int| 0 <= i < entries.len() && (#[trigger] entries[i]).0 == digest {
                let i = choose|i: int| 0 <= i < entries.len() && (#[trigger] entries[i]).0 == digest;
                if i < rest.len() {
                    assert(rest[i].0 == digest);
                    assert(listed(rest).contains_key(digest));
                } else {
                    assert(entries[i] == entries.last());
                }
                assert(listed(entries).contains_key(digest));
            }
        }
        if distinct(entries) {
            assert(distinct(rest)) by {
                assert forall|i: int, j: int| 0 <= i < j < rest.len() implies (#[trigger] rest[i]).0
                    != (#[trigger] rest[j]).0 by {
                    assert(entries[i].0 != entries[j].0);
                }
            }
            assert forall|i: int| 0 <= i < entries.len() implies listed(
                entries,
            )[(#[trigger] entries[i]).0] == entries[i].1 by {
                if i < rest.len() {
                    assert(entries[i].0 != entries[entries.len() - 1].0);
                    assert(listed(rest)[rest[i].0] == rest[i].1);
                }
            }
        }
    }
}

impl<T> View for BlockMap<T> {
    type V = Map<Digest, T>;

    closed spec fn view(&self) -> Map<Digest, T> {
        listed(self.entries@)
    }
}

impl<T> BlockMap<T> {
    /// Whether no digest is listed twice.
    pub closed spec fn wf(&self) -> bool {
        distinct(self.entries@)
    }

    /// The empty map.
    pub fn new() -> (map: BlockMap<T>)
        ensures
            map.wf(),
            map@ == Map::<Digest, T>::empty(),
    {
        BlockMap { entries: Vec::new() }
    }

    /// Where a digest is listed.
    fn position(&self, digest: Digest) -> (found: Option<usize>)
        ensures
            match found {
                Some(i) => i < self.entries@.len() && self.entries@[i as int].0 == digest,
                None => forall|i: int|
                    0 <= i < self.entries@.len() ==> (#[trigger] self.entries@[i]).0 != digest,
            },
    {
        let mut i: usize = 0;
        while i < self.entries.len()
            invariant
                i <= self.entries@.len(),
                forall|j: int| 0 <= j < i ==> (#[trigger] self.entries@[j]).0 != digest,
            decreases self.entries@.len() - i,
        {
            if self.entries[i].0 == digest {
                return Some(i);
            }
            i += 1;
        }
        None
    }

    /// The value of a digest.
    pub fn get(&self, digest: Digest) -> (found: Option<&T>)
        requires
            self.wf(),
        ensures
            found == (if self@.contains_key(digest) {
                Some(&self@[digest])
            } else {
                None
            }),
    {
        proof {
            lemma_listed(self.entries@);
        }
        match self.position(digest) {
            Some(i) => Some(&self.entries[i].1),
            None => None,
        }
    }

    /// Removes a digest and its value.
    pub fn remove(&mut self, digest: Digest)
        requires
            old(self).wf(),
        ensures
            final(self).wf(),
            final(self)@ == old(self)@.remove(digest),
    {
        let ghost before = self.entries@;
        proof {
            lemma_listed(before);
        }
        if let Some(i) = self.position(digest) {
            let _ = self.entries.swap_remove(i);
            let ghost after = self.entries@;
            proof {
                let last = before.len() - 1;
                assert forall|j: int| 0 <= j < after.len() implies after[j] == (if j == i {
                    before[last]
                } else {
                    before[j]
                }) by {}
                assert(distinct(after));
                lemma_listed(after);
                assert forall|d: Digest| listed(after).contains_key(d) <==> listed(before).remove(
                    digest,
                ).contains_key(d) by {
                    if listed(after).contains_key(d) {
                        let j = choose|j: int| 0 <= j < after.len() && (#[trigger] after[j]).0 == d;
                        let k = if j == i { last } else { j };
                        assert(before[k].0 == d);
                        assert(before[k].0 != before[i as int].0);
                    }
                    if listed(before).remove(digest).contains_key(d) {
                        let k = choose|k: int|
                            0 <= k < before.len() && (#[trigger] before[k]).0 == d;
                        let j = if k == last { i as int } else { k };
                        assert(after[j].0 == d);
                    }
                }
                assert forall|d: Digest| #[trigger] listed(after).contains_key(d) implies listed(
                    after,
                )[d] == listed(before)[d] by {
                    let j = choose|j: int| 0 <= j < after.len() && (#[trigger] after[j]).0 == d;
                    let k = if j == i { last } else { j };
                    assert(before[k].0 == d);
                }
                assert(listed(after) =~= listed(before).remove(digest));
            }
        } else {
            assert(listed(before) =~= listed(before).remove(digest));
        }
    }

    /// Gives a digest a value, in place of the one it had.
    pub fn insert(&mut self, digest: Digest, value: T)
        requires
            old(self).wf(),
        ensures
            final(self).wf(),
            final(self)@ == old(self)@.insert(digest, value),
    {
        let ghost held = self@;
        self.remove(digest);
        let ghost before = self.entries@;
        proof {
            lemma_listed(before);
        }
        self.entries.push((digest, value));
        proof {
            let after = self.entries@;
            assert(after.drop_last() =~= before);
            assert forall|i: int, j: int| 0 <= i < j < after.len() implies (#[trigger] after[i]).0
                != (#[trigger] after[j]).0 by {
                if j == after.len() - 1 {
                    assert(before[i].0 == after[i].0);
                    assert(listed(before).contains_key(before[i].0));
                } else {
                    assert(before[i].0 != before[j].0);
                }
            }
            assert(listed(after) =~= held.insert(digest, value));
        }
    }
}

impl<T: AtHeight> BlockMap<T> {
    /// Keeps only what stands above `height`.
    pub fn retain_above(&mut self, height: Height)
        requires
            old(self).wf(),
        ensures
            final(self).wf(),
            final(self)@ == above(old(self)@, height),
    {
        let ghost before = self.entries@;
        let mut kept: Vec<(Digest, T)> = Vec::new();
        proof {
            assert(above(listed(before), height).union_prefer_right(Map::empty()) =~= above(
                listed(before),
                height,
            ));
        }
        while self.entries.len() > 0
            invariant
                distinct(self.entries@),
                distinct(kept@),
                forall|i: int, j: int|
                    0 <= i < self.entries@.len() && 0 <= j < kept@.len() ==> (
                    #[trigger] self.entries@[i]).0 != (#[trigger] kept@[j]).0,
                above(listed(self.entries@), height).union_prefer_right(listed(kept@)) == above(
                    listed(before),
                    height,
                ),
            decreases self.entries@.len(),
        {
            let ghost entries0 = self.entries@;
            let ghost kept0 = kept@;
            proof {
                lemma_listed(entries0);
                lemma_listed(kept0);
                lemma_listed(entries0.drop_last());
            }
            if let Some(entry) = self.entries.pop() {
                proof {
                    assert(self.entries@ =~= entries0.drop_last());
                    assert(entries0[entries0.len() - 1] == entry);
                    assert(!listed(entries0.drop_last()).contains_key(entry.0)) by {
                        assert forall|i: int| 0 <= i < entries0.len() - 1 implies (
                        #[trigger] entries0.drop_last()[i]).0 != entry.0 by {
                            assert(entries0[i].0 != entries0[entries0.len() - 1].0);
                        }
                    }
                    assert forall|i: int, j: int| 0 <= i < j < self.entries@.len() implies (
                    #[trigger] self.entries@[i]).0 != (#[trigger] self.entries@[j]).0 by {
                        assert(entries0[i].0 != entries0[j].0);
                    }
                }
                if entry.1.height() > height {
                    kept.push(entry);
                    proof {
                        assert(kept@.drop_last() =~= kept0);
                        lemma_listed(kept@);
                    }
                }
                proof {
                    assert(above(listed(self.entries@), height).union_prefer_right(listed(kept@))
                        =~= above(listed(entries0), height).union_prefer_right(listed(kept0)));
                }
            }
        }
        assert(above(listed(self.entries@), height).union_prefer_right(listed(kept@)) =~= listed(
            kept@,
        ));
        self.entries = kept;
    }
}

/// The part of a map that stands above `height`.
pub open spec fn above<T: AtHeight>(map: Map<Digest, T>, height: Height) -> Map<Digest, T> {
    map.restrict(map.dom().filter(|digest: Digest| map[digest].height_of() > height))
}

} // verus!
