//! Blocks: immutable records whose hash binds their content to their
//! predecessor's hash.

use vstd::prelude::*;
use vstd::string::StringExecFns;
use std::time::SystemTime;
use std::time::UNIX_EPOCH;
use crate::decimal::decimal_string;
use crate::decimal::spec_decimal;
use crate::digest::digest_of;
use crate::digest::md5_hex;
use crate::nonce::generate_random_chars;
use crate::nonce::is_ascii_letter;

verus! {

/// A payload that a block can store: it supplies the deterministic canonical
/// text that enters the hash preimage.
pub trait BlockData: Clone {
    /// The canonical text of the payload, which `to_string` returns.
    spec fn text(&self) -> Seq<char>;

    /// Returns the canonical text of the payload.
    fn to_string(&self) -> (s: String)
        ensures
            s@ == self.text(),
    ;
}

/// Creation metadata of a block. None of it is recomputed after construction.
#[derive(Debug, Clone)]
pub struct BlockMetadata {
    /// Milliseconds since the Unix epoch, captured at construction.
    pub timestamp: u128,
    /// A 4-character nonce of ASCII letters, drawn at construction.
    pub chars: String,
    /// A fixed format tag.
    pub version: String,
    /// A free-form annotation.
    pub additional_info: Option<String>,
}

/// An immutable record holding its position, the predecessor's hash, its own
/// hash, the payload, and creation metadata.
#[derive(Debug, Clone)]
pub struct Block<T: BlockData> {
    pub index: u64,
    pub previous_hash: String,
    pub hash: String,
    pub data: T,
    pub metadata: BlockMetadata,
}

/// Relies on `std::time::SystemTime::now` and `duration_since(UNIX_EPOCH)`:
/// milliseconds since the Unix epoch. What the clock reads depends on the
/// machine, so nothing is stated of the value. A clock that reads earlier
/// than the epoch aborts block construction: a deliberate fatal case, not a
/// recoverable error.
#[verifier::external_body]
fn current_timestamp_millis() -> u128 {
    SystemTime::now().duration_since(UNIX_EPOCH).expect("Time went backwards").as_millis()
}

impl<T: BlockData> Block<T> {
    /// The canonical preimage of the block: the separator-free concatenation
    /// of index, timestamp, predecessor hash, payload text and nonce.
    pub open spec fn spec_preimage(self) -> Seq<char> {
        spec_decimal(self.index as nat) + spec_decimal(self.metadata.timestamp as nat)
            + self.previous_hash@ + self.data.text() + self.metadata.chars@
    }

    /// The stored hash equals the digest of the block's own preimage: what
    /// `is_valid` checks.
    pub open spec fn spec_valid(self) -> bool {
        self.hash@ == digest_of(self.spec_preimage())
    }

    /// The nonce is 4 ASCII letters.
    pub open spec fn nonce_wf(self) -> bool {
        self.metadata.chars@.len() == 4 && forall|i: int|
            0 <= i < self.metadata.chars@.len() ==> is_ascii_letter(#[trigger] self.metadata.chars@[i])
    }

    /// Builds a block: captures the clock, draws a nonce, and computes the
    /// hash of the canonical preimage. The block is valid by construction.
    pub fn new(index: u64, previous_hash: String, data: T) -> (b: Block<T>)
        ensures
            b.index == index,
            b.previous_hash@ == previous_hash@,
            b.data == data,
            b.metadata.version@ == "1.0"@,
            b.metadata.additional_info is None,
            b.nonce_wf(),
            b.spec_valid(),
    {
        let timestamp = current_timestamp_millis();
        let chars = generate_random_chars();
        let metadata = BlockMetadata {
            timestamp,
            chars,
            version: "1.0".to_owned(),
            additional_info: None,
        };
        let mut block = Block { index, previous_hash, hash: String::new(), data, metadata };
        let hash = block.calculate_hash();
        block.hash = hash;
        block
    }

    fn calculate_hash(&self) -> (h: String)
        ensures
            h@ == digest_of(self.spec_preimage()),
    {
        let mut preimage = decimal_string(self.index as u128);
        let timestamp_text = decimal_string(self.metadata.timestamp);
        preimage.append(timestamp_text.as_str());
        preimage.append(self.previous_hash.as_str());
        let data_text = self.data.to_string();
        preimage.append(data_text.as_str());
        preimage.append(self.metadata.chars.as_str());
        proof {
            assert(preimage@ =~= self.spec_preimage());
        }
        md5_hex(preimage.as_str())
    }

    /// Recomputes the digest of the block's own stored fields and compares it
    /// with the stored hash.
    pub fn is_valid(&self) -> (r: bool)
        ensures
            r == self.spec_valid(),
    {
        let computed = self.calculate_hash();
        self.hash == computed
    }
}

/// A payload that stores a plain string; its canonical text is the string
/// itself.
#[derive(Debug, Clone)]
pub struct StringData(pub String);

impl BlockData for StringData {
    open spec fn text(&self) -> Seq<char> {
        self.0@
    }

    fn to_string(&self) -> (s: String) {
        self.0.clone()
    }
}

} // verus!
