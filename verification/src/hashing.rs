//! Content fingerprints: XXH3-64 over a byte stream.

use std::hash::Hasher;
use twox_hash::XxHash3_64;
use vstd::bytes::spec_u64_to_le_bytes;
use vstd::bytes::u64_to_le_bytes;
use vstd::prelude::*;
use vstd::utf8::encode_utf8;

verus! {

#[verifier::external_type_specification]
#[verifier::external_body]
pub struct ExXxHash3_64(XxHash3_64);

/// The XXH3-64 digest, under the default seed and secret, of a byte string.
pub uninterp spec fn xxh3_64(bytes: Seq<u8>) -> u64;

/// Every byte a hasher has been fed since it was made, in order.
pub uninterp spec fn absorbed(hasher: XxHash3_64) -> Seq<u8>;

/// Whether a hasher was made with the default seed and secret.
pub uninterp spec fn default_keyed(hasher: XxHash3_64) -> bool;

/// `XxHash3_64::default`: a hasher with the default seed and secret that has
/// been fed nothing.
#[verifier::external_body]
pub(crate) fn hasher_new() -> (hasher: XxHash3_64)
    ensures
        absorbed(hasher) == Seq::<u8>::empty(),
        default_keyed(hasher),
{
    XxHash3_64::default()
}

/// `Hasher::write` of `XxHash3_64`: the bytes are appended to what the hasher
/// has been fed; its seed and secret stay.
#[verifier::external_body]
pub(crate) fn hasher_write(hasher: &mut XxHash3_64, bytes: &[u8])
    ensures
        absorbed(*final(hasher)) == absorbed(*old(hasher)) + bytes@,
        default_keyed(*final(hasher)) == default_keyed(*old(hasher)),
{
    hasher.write(bytes)
}

/// `Hasher::finish` of `XxHash3_64`: the digest of a hasher with the default
/// seed and secret depends only on the bytes fed so far, however they were
/// split over the writes.
#[verifier::external_body]
pub(crate) fn hasher_finish(hasher: &XxHash3_64) -> (digest: u64)
    ensures
        default_keyed(*hasher) ==> digest == xxh3_64(absorbed(*hasher)),
{
    hasher.finish()
}

/// A reader paired with a hasher that is fed every byte read through it.
pub struct Hashing<R, H> {
    reader: R,
    hasher: H,
}

impl<R, H> Hashing<R, H> {
    /// The wrapped reader.
    pub closed spec fn reader(&self) -> R {
        self.reader
    }

    /// The hasher.
    pub closed spec fn hasher(&self) -> H {
        self.hasher
    }

    /// Pairs a reader with a hasher.
    pub fn new(reader: R, hasher: H) -> (hashing: Self)
        ensures
            hashing.reader() == reader,
            hashing.hasher() == hasher,
    {
        Self { reader, hasher }
    }

    /// The wrapped reader.
    pub fn get_ref(&self) -> (reader: &R)
        ensures
            *reader == self.reader(),
    {
        &self.reader
    }

    /// The wrapped reader, to read from; the hasher is left as it is.
    pub fn get_mut(&mut self) -> (reader: &mut R)
        ensures
            *reader == old(self).reader(),
            final(self).reader() == *final(reader),
            final(self).hasher() == old(self).hasher(),
    {
        &mut self.reader
    }
}

impl<R> Hashing<R, XxHash3_64> {
    /// The bytes that have passed through so far.
    pub open spec fn fed(&self) -> Seq<u8> {
        absorbed(self.hasher())
    }

    /// Whether the hasher has the default seed and secret, so that its
    /// digest is a fingerprint.
    pub open spec fn keyed(&self) -> bool {
        default_keyed(self.hasher())
    }

    /// Wraps a reader with a fresh hasher.
    pub fn with_hashing(reader: R) -> (hashing: Self)
        ensures
            hashing.reader() == reader,
            hashing.fed() == Seq::<u8>::empty(),
            hashing.keyed(),
    {
        Self { reader, hasher: hasher_new() }
    }

    /// Records bytes that were just read from the wrapped reader.
    pub fn absorb(&mut self, bytes: &[u8])
        ensures
            final(self).reader() == old(self).reader(),
            final(self).fed() == old(self).fed() + bytes@,
            final(self).keyed() == old(self).keyed(),
    {
        hasher_write(&mut self.hasher, bytes);
    }

    /// The digest of everything read: its fingerprint, where the hasher has
    /// the default seed and secret.
    pub fn hash(self) -> (digest: u64)
        ensures
            self.keyed() ==> digest == xxh3_64(self.fed()),
    {
        hasher_finish(&self.hasher)
    }
}

/// Wraps any reader with a fresh hasher.
pub trait WithHashingExt: Sized {
    fn with_hashing(self) -> (hashing: Hashing<Self, XxHash3_64>)
        ensures
            hashing.reader() == self,
            hashing.fed() == Seq::<u8>::empty(),
            hashing.keyed(),
    {
        Hashing::with_hashing(self)
    }
}

impl<R> WithHashingExt for R {
}

/// The fingerprint of a byte string.
pub fn fingerprint(bytes: &[u8]) -> (digest: u64)
    ensures
        digest == xxh3_64(bytes@),
{
    let mut hasher = hasher_new();
    hasher_write(&mut hasher, bytes);
    assert(Seq::<u8>::empty() + bytes@ =~= bytes@);
    hasher_finish(&hasher)
}

/// The chunks of a stream, put end to end.
pub open spec fn concat_chunks(chunks: Seq<Vec<u8>>) -> Seq<u8>
    decreases chunks.len(),
{
    if chunks.len() == 0 {
        Seq::empty()
    } else {
        concat_chunks(chunks.drop_last()) + chunks.last()@
    }
}

/// The fingerprint of a stream read in chunks: that of the bytes, however
/// the reads split them.
pub fn fingerprint_chunks(chunks: &Vec<Vec<u8>>) -> (digest: u64)
    ensures
        digest == xxh3_64(concat_chunks(chunks@)),
{
    let mut hashing = Hashing::with_hashing(());
    let mut i: usize = 0;
    while i < chunks.len()
        invariant
            i <= chunks@.len(),
            hashing.keyed(),
            hashing.fed() == concat_chunks(chunks@.take(i as int)),
        decreases chunks@.len() - i,
    {
        hashing.absorb(chunks[i].as_slice());
        assert(chunks@.take(i + 1).drop_last() =~= chunks@.take(i as int));
        i += 1;
    }
    assert(chunks@.take(i as int) =~= chunks@);
    hashing.hash()
}

/// The little-endian bytes of a list of hashes, eight bytes each, in order.
pub open spec fn le_bytes_of(hashes: Seq<u64>) -> Seq<u8>
    decreases hashes.len(),
{
    if hashes.len() == 0 {
        Seq::empty()
    } else {
        le_bytes_of(hashes.drop_last()) + spec_u64_to_le_bytes(hashes.last())
    }
}

/// One fingerprint for several: the fingerprint of their little-endian
/// bytes, in the order given.
pub fn combine_fingerprints(hashes: &Vec<u64>) -> (digest: u64)
    ensures
        digest == xxh3_64(le_bytes_of(hashes@)),
{
    let mut hasher = hasher_new();
    let mut i: usize = 0;
    while i < hashes.len()
        invariant
            i <= hashes@.len(),
            default_keyed(hasher),
            absorbed(hasher) == le_bytes_of(hashes@.take(i as int)),
        decreases hashes@.len() - i,
    {
        let bytes = u64_to_le_bytes(hashes[i]);
        hasher_write(&mut hasher, bytes.as_slice());
        assert(hashes@.take(i + 1).drop_last() =~= hashes@.take(i as int));
        i += 1;
    }
    assert(hashes@.take(i as int) =~= hashes@);
    hasher_finish(&hasher)
}

/// The UTF-8 bytes of a list of texts, put end to end.
pub open spec fn utf8_of(texts: Seq<Seq<char>>) -> Seq<u8>
    decreases texts.len(),
{
    if texts.len() == 0 {
        Seq::empty()
    } else {
        utf8_of(texts.drop_last()) + encode_utf8(texts.last())
    }
}

/// The fingerprint of a list of texts: that of their UTF-8 bytes, put end to
/// end in the order given.
pub fn fingerprint_texts(texts: &Vec<String>) -> (digest: u64)
    ensures
        digest == xxh3_64(utf8_of(texts.deep_view())),
{
    let mut hasher = hasher_new();
    let mut i: usize = 0;
    while i < texts.len()
        invariant
            i <= texts@.len(),
            default_keyed(hasher),
            absorbed(hasher) == utf8_of(texts.deep_view().take(i as int)),
        decreases texts@.len() - i,
    {
        hasher_write(&mut hasher, texts[i].as_str().as_bytes());
        assert(texts.deep_view().take(i + 1).drop_last() =~= texts.deep_view().take(i as int));
        assert(texts.deep_view().take(i + 1).last() == texts@[i as int]@);
        i += 1;
    }
    assert(texts.deep_view().take(i as int) =~= texts.deep_view());
    hasher_finish(&hasher)
}

} // verus!
