//! Streaming SHA-256 digests: bytes go in chunk by chunk, a fixed-length
//! lowercase hex fingerprint comes out.

use sha2::Digest;
use vstd::prelude::*;

verus! {

/// The SHA-256 digest (32 bytes) of a byte sequence. The value is fixed by
/// the algorithm and depends on the bytes alone; it is not restated here.
pub uninterp spec fn sha256_of(bytes: Seq<u8>) -> Seq<u8>;

/// The 64-character lowercase hex fingerprint of a byte sequence.
pub open spec fn sha256_hex_of(bytes: Seq<u8>) -> Seq<char> {
    crate::hex::hex_of_bytes(sha256_of(bytes))
}

/// Holds the sha2 hasher; its state is opaque to the verifier.
#[verifier::external_body]
struct DigestState {
    inner: sha2::Sha256,
}

/// Relies on sha2::Sha256::new (Digest::new): a hasher in its initial state,
/// with no bytes processed yet.
#[verifier::external_body]
fn digest_new() -> DigestState {
    DigestState { inner: sha2::Sha256::new() }
}

/// Relies on sha2::Sha256::update (Digest::update): processes more input;
/// the digest eventually produced is that of all input so far, in order.
#[verifier::external_body]
fn digest_update(st: &mut DigestState, chunk: &[u8]) {
    st.inner.update(chunk);
}

/// An incremental SHA-256 computation, tracking the bytes fed so far.
pub struct Sha256Stream {
    st: DigestState,
    fed: Ghost<Seq<u8>>,
}

impl Sha256Stream {
    /// The bytes fed into the digest so far, in order.
    pub closed spec fn fed_bytes(&self) -> Seq<u8> {
        self.fed@
    }

    pub fn new() -> (s: Self)
        ensures
            s.fed_bytes() == Seq::<u8>::empty(),
    {
        Sha256Stream { st: digest_new(), fed: Ghost(Seq::empty()) }
    }

    pub fn update(&mut self, chunk: &[u8])
        ensures
            final (self).fed_bytes() == old(self).fed_bytes() + chunk@,
    {
        digest_update(&mut self.st, chunk);
        self.fed = Ghost(self.fed@ + chunk@);
    }

    /// Relies on sha2::Sha256::finalize (Digest::finalize): returns the
    /// SHA-256 digest, 32 bytes, of exactly the bytes fed in since new.
    #[verifier::external_body]
    pub fn finalize(self) -> (d: Vec<u8>)
        ensures
            d@ == sha256_of(self.fed_bytes()),
            d@.len() == 32,
    {
        self.st.inner.finalize().to_vec()
    }
}

/// Bytes handed to the hasher per update call, bounding each read.
pub const CHUNK_SIZE: usize = 1024;

/// The SHA-256 fingerprint of the given bytes as a 64-character lowercase
/// hex string, computed by streaming the bytes in bounded chunks.
pub fn sha256_hex(bytes: &[u8]) -> (r: String)
    ensures
        r@ == sha256_hex_of(bytes@),
        r@.len() == 64,
{
    let mut st = Sha256Stream::new();
    let mut i: usize = 0;
    while i < bytes.len()
        invariant
            i <= bytes.len(),
            st.fed_bytes() == bytes@.take(i as int),
        decreases bytes.len() - i,
    {
        let end = if bytes.len() - i < CHUNK_SIZE {
            bytes.len()
        } else {
            i + CHUNK_SIZE
        };
        let chunk = vstd::slice::slice_subrange(bytes, i, end);
        st.update(chunk);
        proof {
            assert(bytes@.take(i as int) + bytes@.subrange(i as int, end as int) =~= bytes@.take(
            end as int));
        }
        i = end;
    }
    proof {
        assert(bytes@.take(bytes.len() as int) =~= bytes@);
    }
    let digest = st.finalize();
    crate::hex::bytes_to_hex(digest.as_slice())
}

} // verus!
