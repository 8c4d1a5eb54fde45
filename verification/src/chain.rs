//! The chain: an append-only sequence of blocks, genesis first, each block
//! linked to its predecessor's hash.

use vstd::prelude::*;
use crate::block::Block;
use crate::block::BlockData;

verus! {

/// An ordered, append-only container of blocks. The genesis block is created
/// with the chain and stands at position 0.
#[derive(Debug)]
pub struct Blockchain<T: BlockData> {
    pub chain: Vec<Block<T>>,
}

impl<T: BlockData> Blockchain<T> {
    /// What `is_valid` checks: every block after the genesis carries the
    /// digest of its own preimage and links to its predecessor's hash.
    pub open spec fn spec_chain_valid(s: Seq<Block<T>>) -> bool {
        forall|i: int|
            1 <= i < s.len() ==> (#[trigger] s[i]).spec_valid() && s[i].previous_hash@ == s[i
                - 1].hash@
    }

    /// A chain as the public constructors alone build it: never empty, the
    /// genesis at position 0 with the sentinel predecessor hash, every block
    /// indexed by its position and carrying the digest of its own preimage,
    /// and every non-genesis block linked to its predecessor's hash.
    pub open spec fn wf(self) -> bool {
        &&& self.chain@.len() > 0
        &&& self.chain@[0].index == 0
        &&& self.chain@[0].previous_hash@ == "0"@
        &&& self.chain@[0].spec_valid()
        &&& forall|i: int| 0 <= i < self.chain@.len() ==> (#[trigger] self.chain@[i]).index == i
        &&& Self::spec_chain_valid(self.chain@)
    }

    /// Builds a chain holding exactly one block: the genesis, with index 0,
    /// the sentinel predecessor hash, and the given payload. The fresh chain
    /// is well-formed, and `is_valid` holds of it.
    pub fn new(genesis_data: T) -> (c: Self)
        ensures
            c.chain@.len() == 1,
            c.chain@[0].index == 0,
            c.chain@[0].previous_hash@ == "0"@,
            c.chain@[0].data == genesis_data,
            c.chain@[0].nonce_wf(),
            c.wf(),
            Self::spec_chain_valid(c.chain@),
    {
        let genesis_block = Block::new(0, "0".to_owned(), genesis_data);
        Blockchain { chain: vec![genesis_block] }
    }

    /// Returns the final block of the sequence.
    pub fn get_last_block(&self) -> (b: &Block<T>)
        requires
            self.chain@.len() > 0,
        ensures
            *b == self.chain@.last(),
    {
        &self.chain[self.chain.len() - 1]
    }

    /// Appends one block holding the given payload: its index is the current
    /// tail's index plus one, and its predecessor hash is the current tail's
    /// hash. Every earlier block stays as it was, and a well-formed chain
    /// stays well-formed.
    pub fn add_block(&mut self, data: T)
        requires
            old(self).chain@.len() > 0,
            old(self).chain@.last().index < u64::MAX,
        ensures
            final(self).chain@.len() == old(self).chain@.len() + 1,
            forall|i: int|
                0 <= i < old(self).chain@.len() ==> #[trigger] final(self).chain@[i] == old(
                    self,
                ).chain@[i],
            final(self).chain@.last().index == old(self).chain@.last().index + 1,
            final(self).chain@.last().previous_hash@ == old(self).chain@.last().hash@,
            final(self).chain@.last().data == data,
            final(self).chain@.last().spec_valid(),
            final(self).chain@.last().nonce_wf(),
            old(self).wf() ==> final(self).wf(),
    {
        let last_index: u64;
        let last_hash: String;
        {
            let last_block = self.get_last_block();
            last_index = last_block.index;
            last_hash = last_block.hash.clone();
        }
        let new_block = Block::new(last_index + 1, last_hash, data);
        self.chain.push(new_block);
        proof {
            let s = old(self).chain@;
            let t = self.chain@;
            if old(self).wf() {
                assert forall|i: int| 0 <= i < t.len() implies (#[trigger] t[i]).index == i by {
                    if i < s.len() {
                        assert(t[i] == s[i]);
                    } else {
                        assert(s.last().index == s.len() - 1);
                    }
                }
                assert forall|i: int|
                    1 <= i < t.len() implies (#[trigger] t[i]).spec_valid() && t[i].previous_hash@
                    == t[i - 1].hash@ by {
                    if i < s.len() {
                        assert(t[i] == s[i]);
                        assert(t[i - 1] == s[i - 1]);
                    } else {
                        assert(t[i - 1] == s.last());
                    }
                }
            }
        }
    }

    /// Walks the chain from position 1: every block must carry the digest of
    /// its own preimage and link to its predecessor's hash. Returns false on
    /// the first violation, true otherwise (vacuously true for a chain of one
    /// block). Reads the chain only, so repeated calls on an unchanged chain
    /// return the same verdict.
    pub fn is_valid(&self) -> (r: bool)
        ensures
            r == Self::spec_chain_valid(self.chain@),
    {
        let n = self.chain.len();
        let mut i: usize = 1;
        while i < n
            invariant
                1 <= i,
                n == self.chain@.len(),
                n == 0 || i <= n,
                forall|j: int|
                    1 <= j < i ==> (#[trigger] self.chain@[j]).spec_valid()
                        && self.chain@[j].previous_hash@ == self.chain@[j - 1].hash@,
            decreases n - i,
        {
            let block_ok = self.chain[i].is_valid();
            if !block_ok {
                return false;
            }
            let linked = self.chain[i].previous_hash == self.chain[i - 1].hash;
            if !linked {
                return false;
            }
            i += 1;
        }
        true
    }

    /// In a well-formed chain, blocks are indexed by position, every block
    /// after the genesis links to its predecessor's hash and carries the
    /// digest of its own preimage; so `is_valid` returns true of it.
    pub proof fn lemma_wf_chain_validates(c: Blockchain<T>)
        requires
            c.wf(),
        ensures
            forall|i: int| 0 <= i < c.chain@.len() ==> (#[trigger] c.chain@[i]).index == i,
            forall|i: int|
                1 <= i < c.chain@.len() ==> (#[trigger] c.chain@[i]).previous_hash@ == c.chain@[i
                    - 1].hash@ && c.chain@[i].spec_valid(),
            Self::spec_chain_valid(c.chain@),
    {
    }

    /// Validation is idempotent: `is_valid` borrows the chain immutably and
    /// its result equals `spec_chain_valid` of the unchanged block sequence,
    /// so any two verdicts on the same sequence agree.
    pub proof fn lemma_validate_idempotent(s: Seq<Block<T>>, r1: bool, r2: bool)
        requires
            r1 == Self::spec_chain_valid(s),
            r2 == Self::spec_chain_valid(s),
        ensures
            r1 == r2,
    {
    }
}

} // verus!
