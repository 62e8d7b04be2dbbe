//! Digests shown as Base64 text.
use crate::byte_order::ByteOrder;
use crate::digester::Digester;
use crate::digestible::Digestible;
use vstd::prelude::*;

verus! {

/// The Base64 text of `bytes`, in the standard alphabet and with padding:
/// what `base64::engine::general_purpose::STANDARD` encodes them to.
pub uninterp spec fn base64_standard(bytes: Seq<u8>) -> Seq<char>;

/// Whether the Base64 text of `len` bytes is short enough to be counted on
/// this machine. The text has four characters for every three bytes or
/// part of three bytes.
pub open spec fn base64_fits(len: nat) -> bool {
    4 * ((len + 2) / 3) <= usize::MAX
}

/// `Engine::encode` of the crate `base64`, on its engine `STANDARD`: the
/// Base64 text of `bytes`. The engine stops the program where it cannot
/// count the length of the text, so such input is kept from it.
#[verifier::external_body]
fn encode_standard(bytes: &[u8]) -> (text: String)
    requires
        base64_fits(bytes@.len()),
    ensures
        text@ == base64_standard(bytes@),
{
    base64::Engine::encode(&base64::engine::general_purpose::STANDARD, bytes)
}

/// What `text` has to be for it to be the Base64 text of `bytes`, or the
/// sign that there is none on this machine.
pub open spec fn is_base64_of(text: Option<String>, bytes: Seq<u8>) -> bool {
    match text {
        Some(text) => base64_fits(bytes.len()) && text@ == base64_standard(bytes),
        None => !base64_fits(bytes.len()),
    }
}

/// A digest that can be read as bytes.
pub trait AsBytes {
    /// The bytes of the digest.
    spec fn bytes(&self) -> Seq<u8>;

    fn as_bytes(&self) -> (bytes: &[u8])
        ensures
            bytes@ == self.bytes(),
    ;
}

impl AsBytes for Vec<u8> {
    open spec fn bytes(&self) -> Seq<u8> {
        self@
    }

    fn as_bytes(&self) -> (bytes: &[u8]) {
        self.as_slice()
    }
}

impl<const N: usize> AsBytes for [u8; N] {
    open spec fn bytes(&self) -> Seq<u8> {
        self@
    }

    fn as_bytes(&self) -> (bytes: &[u8]) {
        self.as_slice()
    }
}

/// A digester whose digest is the Base64 text of another digester's
/// digest.
#[derive(Debug, Clone)]
pub struct ToBase64<D>(D);

impl<D> ToBase64<D> {
    /// The digester whose digest is turned into text.
    pub closed spec fn inner(self) -> D {
        self.0
    }

    pub fn new(d: D) -> (wrapped: Self)
        ensures
            wrapped.inner() == d,
    {
        ToBase64(d)
    }

    pub fn into_inner(self) -> (d: D)
        ensures
            d == self.inner(),
    {
        self.0
    }

    pub fn as_ref(&self) -> (d: &D)
        ensures
            *d == self.inner(),
    {
        &self.0
    }

    pub fn as_mut(&mut self) -> (d: &mut D)
        ensures
            *d == old(self).inner(),
            final(self).inner() == *final(d),
    {
        &mut self.0
    }

    /// The Base64 text of `bytes`, or `None` where the text would be too
    /// long to be counted on this machine.
    pub fn encode_base64(bytes: &[u8]) -> (text: Option<String>)
        ensures
            is_base64_of(text, bytes@),
    {
        let len = bytes.len();
        let chunks = len / 3 + if len % 3 == 0 {
            0
        } else {
            1
        };
        assert(chunks == (len + 2) / 3);
        if chunks <= usize::MAX / 4 {
            Some(encode_standard(bytes))
        } else {
            None
        }
    }
}

/// Digesters that can be made to give their digest as Base64 text.
pub trait IntoBase64: Sized {
    fn into_base64(self) -> (wrapped: ToBase64<Self>)
        ensures
            wrapped.inner() == self,
    ;
}

impl<A: AsBytes, D: Digester<Target = A>> IntoBase64 for D {
    fn into_base64(self) -> (wrapped: ToBase64<Self>) {
        ToBase64::new(self)
    }
}

/// Whether `text` is the Base64 text of a digest that `inner` may give
/// once it took in `stream`, or the sign that such a digest has no Base64
/// text on this machine.
pub open spec fn is_base64_digest<A: AsBytes, D: Digester<Target = A>>(
    inner: D,
    stream: Seq<u8>,
    text: Option<String>,
) -> bool {
    exists|digest: A| #[trigger]
        inner.digests_to(stream, digest) && is_base64_of(text, digest.bytes())
}

impl<A: AsBytes, I: Digester<Target = A>> Digester for ToBase64<I> {
    type Target = Option<String>;

    open spec fn digests_to(self, stream: Seq<u8>, target: Option<String>) -> bool {
        is_base64_digest(self.inner(), stream, target)
    }

    fn digest<D: Digestible>(self, order: ByteOrder, data: &D) -> (target: Option<String>) {
        let digest = self.into_inner().digest(order, data);
        let text = ToBase64::<I>::encode_base64(digest.as_bytes());
        proof {
            if data.deterministic() {
                assert(self.inner().digests_to(data.encoding(order), digest));
            }
        }
        text
    }
}

} // verus!
