//! Digesters: what turns the encoding of a value into a digest.
use crate::byte_order::ByteOrder;
use crate::digester_writer::DigestWriter;
use crate::digestible::Digestible;
use vstd::prelude::*;

verus! {

/// Something that takes in the encoding of a value and gives a digest of
/// it.
pub trait Digester: Sized {
    /// The digest.
    type Target;

    /// Whether `target` is a digest that this digester may give once it
    /// took in `stream`.
    spec fn digests_to(self, stream: Seq<u8>, target: Self::Target) -> bool;

    /// Takes in the encoding of `data` under `order` and gives the digest.
    fn digest<D: Digestible>(self, order: ByteOrder, data: &D) -> (target: Self::Target)
        ensures
            data.deterministic() ==> self.digests_to(data.encoding(order), target),
    ;

    /// [`digest`](Digester::digest) under the byte order of the machine,
    /// which is one of the two.
    fn digest_native<D: Digestible>(self, data: &D) -> (target: Self::Target)
        ensures
            data.deterministic() ==> self.digests_to(data.encoding(ByteOrder::BigEndian), target)
                || self.digests_to(data.encoding(ByteOrder::LittleEndian), target),
    {
        self.digest(ByteOrder::native(), data)
    }

    /// [`digest`](Digester::digest) with the most significant byte first.
    fn digest_big_endian<D: Digestible>(self, data: &D) -> (target: Self::Target)
        ensures
            data.deterministic() ==> self.digests_to(data.encoding(ByteOrder::BigEndian), target),
    {
        self.digest(ByteOrder::BigEndian, data)
    }

    /// [`digest`](Digester::digest) with the least significant byte first.
    fn digest_little_endian<D: Digestible>(self, data: &D) -> (target: Self::Target)
        ensures
            data.deterministic() ==> self.digests_to(data.encoding(ByteOrder::LittleEndian), target),
    {
        self.digest(ByteOrder::LittleEndian, data)
    }
}

/// A SHA-256 hash function in the making: the hash function `Sha256` of
/// the crate `sha2`, with what it was given so far.
#[verifier::external_body]
pub struct Sha256Digester {
    inner: sha2::Sha256,
}

/// The bytes that a SHA-256 digester was given so far, in the order in
/// which they came.
pub uninterp spec fn sha256_absorbed(digester: Sha256Digester) -> Seq<u8>;

/// The SHA-256 hash of `message`: the 32 bytes that `Sha256` of the crate
/// `sha2` gives once it was given `message` and nothing else.
pub uninterp spec fn sha256(message: Seq<u8>) -> Seq<u8>;

/// `Digest::new` of the crate `digest`, on `Sha256` of the crate `sha2`:
/// a hash function that was given nothing yet.
#[verifier::external_body]
fn sha256_new() -> (digester: Sha256Digester)
    ensures
        sha256_absorbed(digester) == Seq::<u8>::empty(),
{
    Sha256Digester { inner: <sha2::Sha256 as digest::Digest>::new() }
}

/// `Digest::update` of the crate `digest`, on `Sha256` of the crate
/// `sha2`: the hash function was then given `data` as well.
#[verifier::external_body]
fn sha256_update(digester: &mut Sha256Digester, data: &[u8])
    ensures
        sha256_absorbed(*final(digester)) == sha256_absorbed(*old(digester)) + data@,
{
    digest::Digest::update(&mut digester.inner, data)
}

/// `Digest::finalize` of the crate `digest`, on `Sha256` of the crate
/// `sha2`, with the bytes of the result handed out in a vector: the hash
/// of all that the hash function was given.
#[verifier::external_body]
fn sha256_finalize(digester: Sha256Digester) -> (hash: Vec<u8>)
    ensures
        hash@ == sha256(sha256_absorbed(digester)),
{
    digest::Digest::finalize(digester.inner).to_vec()
}

impl Sha256Digester {
    /// A digester that was given nothing yet.
    pub fn new() -> (digester: Sha256Digester)
        ensures
            digester.written() == Seq::<u8>::empty(),
    {
        sha256_new()
    }

    /// The hash of all that this digester was given.
    pub fn finalize(self) -> (hash: Vec<u8>)
        ensures
            hash@ == sha256(self.written()),
    {
        sha256_finalize(self)
    }
}

impl DigestWriter for Sha256Digester {
    open spec fn written(&self) -> Seq<u8> {
        sha256_absorbed(*self)
    }

    fn write(&mut self, data: &[u8]) {
        sha256_update(self, data)
    }
}

impl Digester for Sha256Digester {
    type Target = Vec<u8>;

    /// The SHA-256 hash of what the digester was given before and of the
    /// stream behind it.
    open spec fn digests_to(self, stream: Seq<u8>, target: Vec<u8>) -> bool {
        target@ == sha256(self.written() + stream)
    }

    fn digest<D: Digestible>(self, order: ByteOrder, data: &D) -> (target: Vec<u8>) {
        let mut digester = self;
        data.digest(order, &mut digester);
        digester.finalize()
    }
}

} // verus!
