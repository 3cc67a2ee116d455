//! The content hasher: streams a file's bytes, in chunks of any size, into a
//! cryptographic hash state and renders the digest as 64 lowercase
//! hexadecimal characters.
//!
//! The hash function itself is an outside collaborator; what this module
//! proves is the bookkeeping around it: which bytes have been absorbed, and
//! that the digest is a function of those bytes alone.

use vstd::prelude::*;

verus! {

#[verifier::external_type_specification]
#[verifier::external_body]
pub struct ExHasher(blake3::Hasher);

/// The bytes a hash state has absorbed so far, oldest first.
pub uninterp spec fn absorbed(h: blake3::Hasher) -> Seq<u8>;

/// The digest of `input`, rendered as lowercase hexadecimal: what finalizing
/// a hash state that absorbed exactly `input` returns.
pub uninterp spec fn blake3_hex(input: Seq<u8>) -> Seq<char>;

/// A lowercase hexadecimal digit.
pub open spec fn is_lower_hex_digit(c: char) -> bool {
    ('0' <= c && c <= '9') || ('a' <= c && c <= 'f')
}

/// A digest string: 64 lowercase hexadecimal digits, the rendering of a
/// 256-bit hash output.
pub open spec fn is_digest(s: Seq<char>) -> bool {
    s.len() == 64 && forall|i: int| 0 <= i < s.len() ==> is_lower_hex_digit(#[trigger] s[i])
}

/// Relies on blake3::Hasher::new: a fresh hash state has absorbed nothing.
#[verifier::external_body]
fn hasher_new() -> (h: blake3::Hasher)
    ensures
        absorbed(h) == Seq::<u8>::empty(),
{
    blake3::Hasher::new()
}

/// Relies on blake3::Hasher::update: appends the chunk to the absorbed input.
/// It returns on every input for a state made by blake3::Hasher::new (only
/// states given a nonzero input offset through blake3's hazmat interface can
/// panic, and this crate builds all its states with new).
#[verifier::external_body]
fn hasher_update(h: &mut blake3::Hasher, chunk: &[u8])
    ensures
        absorbed(*final(h)) == absorbed(*old(h)) + chunk@,
{
    h.update(chunk);
}

/// Relies on blake3::Hasher::finalize and blake3::Hash::to_hex: the digest is
/// a function of the absorbed bytes alone, and to_hex writes its 32 bytes as
/// 64 lowercase hexadecimal characters.  Like update, finalize returns on
/// every state made by blake3::Hasher::new.
#[verifier::external_body]
fn hasher_finalize_hex(h: &blake3::Hasher) -> (r: String)
    ensures
        r@ == blake3_hex(absorbed(*h)),
        is_digest(r@),
{
    h.finalize().to_hex().as_str().to_string()
}

/// A streaming content hasher: feed the file's bytes chunk by chunk, then
/// read the digest off.  `bytes_fed` tracks exactly which bytes went in.
pub struct ContentHasher {
    inner: blake3::Hasher,
    fed: Ghost<Seq<u8>>,
}

impl ContentHasher {
    /// The bytes fed so far, oldest first.
    pub closed spec fn bytes_fed(&self) -> Seq<u8> {
        self.fed@
    }

    /// The hash state has absorbed exactly the bytes fed.
    pub closed spec fn wf(&self) -> bool {
        absorbed(self.inner) == self.fed@
    }

    /// A fresh hasher, with nothing fed yet.
    pub fn new() -> (h: ContentHasher)
        ensures
            h.wf(),
            h.bytes_fed() == Seq::<u8>::empty(),
    {
        ContentHasher { inner: hasher_new(), fed: Ghost(Seq::empty()) }
    }

    /// Feeds the next chunk of the content.
    pub fn feed(&mut self, chunk: &[u8])
        requires
            old(self).wf(),
        ensures
            final(self).wf(),
            final(self).bytes_fed() == old(self).bytes_fed() + chunk@,
    {
        hasher_update(&mut self.inner, chunk);
        self.fed = Ghost(self.fed@ + chunk@);
    }

    /// The digest of everything fed so far, as 64 lowercase hexadecimal
    /// characters.
    pub fn digest_hex(&self) -> (r: String)
        requires
            self.wf(),
        ensures
            r@ == blake3_hex(self.bytes_fed()),
            is_digest(r@),
    {
        hasher_finalize_hex(&self.inner)
    }
}

/// Hashes a complete content held in memory: the digest of `data`.
pub fn hash_bytes(data: &[u8]) -> (r: String)
    ensures
        r@ == blake3_hex(data@),
        is_digest(r@),
{
    let mut h = ContentHasher::new();
    h.feed(data);
    proof {
        assert(h.bytes_fed() =~= data@);
    }
    h.digest_hex()
}

/// Hashing is deterministic: two runs over the same content, in the same or
/// in separate invocations, yield the identical digest string.
pub proof fn lemma_digest_deterministic(content: Seq<u8>, d1: Seq<char>, d2: Seq<char>)
    requires
        d1 == blake3_hex(content),
        d2 == blake3_hex(content),
    ensures
        d1 == d2,
{
}

} // verus!
