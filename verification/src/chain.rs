//! Rounds, digests and blocks.

use std::sync::Arc;
use vstd::prelude::*;

verus! {

/// A block height.
pub type Height = u64;

/// A span of time, in nanoseconds.
pub type Nanos = u128;

/// The longest span of time that can be accounted for: `u64::MAX` seconds and
/// 999,999,999 nanoseconds.
pub const NANOS_MAX: u128 = 18_446_744_073_709_551_615_999_999_999;

/// Whether two strings of 32 bytes are equal.
fn same_bytes(a: &[u8; 32], b: &[u8; 32]) -> (same: bool)
    ensures
        same == (*a == *b),
{
    let mut i: usize = 0;
    while i < 32
        invariant
            i <= 32,
            forall|j: int| 0 <= j < i ==> a[j] == b[j],
        decreases 32 - i,
    {
        if a[i] != b[i] {
            return false;
        }
        i += 1;
    }
    assert(*a =~= *b);
    true
}

/// The hash that identifies a block.
#[derive(Clone, Copy, Debug, Eq)]
pub struct Digest(pub [u8; 32]);

impl PartialEq for Digest {
    fn eq(&self, other: &Digest) -> (same: bool) {
        same_bytes(&self.0, &other.0)
    }
}

impl vstd::std_specs::cmp::PartialEqSpecImpl for Digest {
    open spec fn obeys_eq_spec() -> bool {
        true
    }

    open spec fn eq_spec(&self, other: &Digest) -> bool {
        *self == *other
    }
}

/// The public key of a consensus participant.
#[derive(Clone, Copy, Debug, Eq)]
pub struct PublicKey(pub [u8; 32]);

impl PartialEq for PublicKey {
    fn eq(&self, other: &PublicKey) -> (same: bool) {
        same_bytes(&self.0, &other.0)
    }
}

impl vstd::std_specs::cmp::PartialEqSpecImpl for PublicKey {
    open spec fn obeys_eq_spec() -> bool {
        true
    }

    open spec fn eq_spec(&self, other: &PublicKey) -> bool {
        *self == *other
    }
}

/// A round of consensus: a view within an epoch.
#[derive(Clone, Copy, Debug, PartialEq, Eq, Structural)]
pub struct Round {
    pub epoch: u64,
    pub view: u64,
}

impl Round {
    /// Whether this round comes after `other`: epochs first, then views.
    pub open spec fn after(self, other: Round) -> bool {
        self.epoch > other.epoch || (self.epoch == other.epoch && self.view > other.view)
    }

    /// The round of `view` in `epoch`.
    pub fn new(epoch: u64, view: u64) -> (round: Round)
        ensures
            round == (Round { epoch, view }),
    {
        Round { epoch, view }
    }

    /// Whether this round comes after `other`.
    pub fn is_after(self, other: Round) -> (after: bool)
        ensures
            after == self.after(other),
    {
        self.epoch > other.epoch || (self.epoch == other.epoch && self.view > other.view)
    }
}

/// The consensus context of a block or a request: the round it belongs to,
/// and the view and the digest of the parent selected for that round. The
/// parent's view lies in the round's own epoch.
#[derive(Clone, Copy, Debug)]
pub struct Context {
    pub round: Round,
    pub parent: (u64, Digest),
}

impl Context {
    /// The round in which the selected parent was notarized.
    pub open spec fn parent_round_of(self) -> Round {
        Round { epoch: self.round.epoch, view: self.parent.0 }
    }

    /// The round in which the selected parent was notarized.
    pub fn parent_round(&self) -> (round: Round)
        ensures
            round == self.parent_round_of(),
    {
        Round::new(self.round.epoch, self.parent.0)
    }
}

/// A block: what the executor reads of it, and its body, which it only passes
/// on.
#[derive(Debug)]
pub struct Block<B> {
    pub digest: Digest,
    pub height: Height,
    pub parent_digest: Digest,
    /// The context in which the block was proposed.
    pub context: Context,
    /// Who proposed the block, where its header says so.
    pub proposer: Option<PublicKey>,
    pub body: B,
}

/// The height just below `height`, or the lowest height of all.
pub open spec fn height_below(height: Height) -> Height {
    if height == 0 {
        0
    } else {
        (height - 1) as u64
    }
}

/// Another pointer to a shared value. Calls `Arc::clone`, which makes a
/// pointer to the same allocation: the value behind it is the same value.
#[verifier::external_body]
pub(crate) fn share<T>(value: &Arc<T>) -> (shared: Arc<T>)
    ensures
        shared == *value,
{
    Arc::clone(value)
}

} // verus!
