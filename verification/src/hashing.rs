//! Hashing the first bytes of a file, as they are read piece by piece.
use vstd::prelude::*;

use sha2::{Digest, Sha256};

use crate::message::Share;

verus! {

/// The hasher of `sha2`.
#[verifier::external_type_specification]
#[verifier::external_body]
pub struct ExSha256(sha2::Sha256);

/// The bytes that a hasher was fed with so far, in their order.
pub uninterp spec fn fed(hasher: sha2::Sha256) -> Seq<u8>;

/// The SHA-256 digest of `data`.
pub uninterp spec fn sha256(data: Seq<u8>) -> Seq<u8>;

/// Calls `sha2`'s `Sha256::new`: a hasher that was fed with nothing.
#[verifier::external_body]
fn new_hasher() -> (r: Sha256)
    ensures
        fed(r) == Seq::<u8>::empty(),
{
    Sha256::new()
}

/// Calls `sha2`'s `Sha256::update`: the hasher is fed with `data` behind what it was fed with
/// before, however the bytes were cut into calls. The hasher counts its blocks, and 64 bits must be
/// enough for that.
#[verifier::external_body]
fn feed(hasher: &mut Sha256, data: &[u8])
    requires
        fed(*old(hasher)).len() + data@.len() <= u64::MAX,
    ensures
        fed(*final(hasher)) == fed(*old(hasher)) + data@,
{
    hasher.update(data);
}

/// Calls `sha2`'s `Sha256::finalize`: the digest, of 32 bytes, of what the hasher was fed with. The
/// length of that in bits must fit 64 bits.
#[verifier::external_body]
fn finish(hasher: Sha256) -> (r: Vec<u8>)
    requires
        fed(hasher).len() <= MAX_HASHED,
    ensures
        r@ == sha256(fed(hasher)),
        r@.len() == 32,
{
    hasher.finalize().to_vec()
}

/// The greatest number of bytes whose length in bits fits 64 bits.
pub const MAX_HASHED: u64 = 2_305_843_009_213_693_951;

/// The number of bytes that are read at once.
pub const PIECE: usize = 1_048_576;

/// A file of which the first bytes are being hashed.
pub struct HashRun {
    hasher: Sha256,
    total: u64,
    remaining: u64,
}

/// The contents of a [`HashRun`].
pub struct HashView {
    /// The bytes hashed so far.
    pub data: Seq<u8>,
    /// The number of bytes to hash, where the file has as many.
    pub total: u64,
}

impl View for HashRun {
    type V = HashView;

    closed spec fn view(&self) -> HashView {
        HashView { data: fed(self.hasher), total: self.total }
    }
}

impl HashView {
    /// The start of a run over `total` bytes.
    pub open spec fn start(total: u64) -> HashView {
        HashView { data: seq![], total }
    }

    /// The number of bytes to read next.
    pub open spec fn wants(self) -> nat {
        let left = (self.total - self.data.len()) as nat;
        if left < PIECE {
            left
        } else {
            PIECE as nat
        }
    }

    /// The run with `chunk` hashed too.
    pub open spec fn with(self, chunk: Seq<u8>) -> HashView {
        HashView { data: self.data + chunk, ..self }
    }

    /// Of a device, how far the whole verification is: its second half goes with the bytes hashed.
    pub open spec fn share(self) -> Share {
        Share { halves: 1, done: self.data.len() as u64, total: self.total }
    }
}

impl HashRun {
    /// No more than the asked number of bytes was hashed.
    pub closed spec fn valid(&self) -> bool {
        &&& self.remaining <= self.total
        &&& fed(self.hasher).len() == self.total - self.remaining
    }

    /// No more than the asked number of bytes was hashed.
    pub proof fn valid_len(&self)
        requires
            self.valid(),
        ensures
            self@.data.len() <= self@.total,
    {
    }

    /// Starts a run over `total` bytes.
    pub fn new(total: u64) -> (r: HashRun)
        ensures
            r.valid(),
            r@ == HashView::start(total),
    {
        HashRun { hasher: new_hasher(), total, remaining: total }
    }

    /// The number of bytes to hash, where the file has as many.
    pub fn total(&self) -> (r: u64)
        ensures
            r == self@.total,
    {
        self.total
    }

    /// The number of bytes to read next: the rest, but no more than [`PIECE`].
    pub fn next_len(&self) -> (r: usize)
        requires
            self.valid(),
        ensures
            r == self@.wants(),
    {
        if self.remaining < PIECE as u64 {
            self.remaining as usize
        } else {
            PIECE
        }
    }

    /// Hashes the bytes that were read.
    pub fn absorb(self, chunk: &Vec<u8>) -> (r: HashRun)
        requires
            self.valid(),
            chunk@.len() <= self@.wants(),
        ensures
            r.valid(),
            r@ == self@.with(chunk@),
    {
        let mut hasher = self.hasher;
        feed(&mut hasher, chunk.as_slice());
        HashRun { hasher, total: self.total, remaining: self.remaining - chunk.len() as u64 }
    }

    /// Of a device, how far the whole verification is.
    pub fn progress(&self) -> (r: Share)
        requires
            self.valid(),
        ensures
            r == self@.share(),
    {
        Share { halves: 1, done: self.total - self.remaining, total: self.total }
    }

    /// Whether `more` bytes can still be hashed.
    pub fn has_room(&self, more: usize) -> (r: bool)
        requires
            self.valid(),
        ensures
            r == (self@.data.len() + more <= MAX_HASHED),
    {
        let done: u64 = self.total - self.remaining;
        done <= MAX_HASHED && more as u64 <= MAX_HASHED - done
    }

    /// The digest of the bytes that were hashed.
    pub fn digest(self) -> (r: Vec<u8>)
        requires
            self.valid(),
            self@.data.len() <= MAX_HASHED,
        ensures
            r@ == sha256(self@.data),
            r@.len() == 32,
    {
        finish(self.hasher)
    }
}

} // verus!
