//! The digest engine: streaming, constant-memory computation of the four
//! sidecar checksum algorithms, finishing in lowercase hexadecimal.

use vstd::prelude::*;

use crate::hex::{hex_of, hex_lower};

verus! {

/// The closed set of sidecar digest algorithms. Statically enumerated; never
/// constructed from user input.
#[derive(Clone, Copy, PartialEq, Eq, Structural, Debug)]
pub enum Algo {
    Md5,
    Sha1,
    Sha256,
    Sha512,
}

/// The MD5 digest of a byte stream, as the md5 crate computes it.
pub uninterp spec fn md5_of(data: Seq<u8>) -> Seq<u8>;

/// The SHA-1 digest of a byte stream, as ring computes it.
pub uninterp spec fn sha1_of(data: Seq<u8>) -> Seq<u8>;

/// The SHA-256 digest of a byte stream, as ring computes it.
pub uninterp spec fn sha256_of(data: Seq<u8>) -> Seq<u8>;

/// The SHA-512 digest of a byte stream, as ring computes it.
pub uninterp spec fn sha512_of(data: Seq<u8>) -> Seq<u8>;

/// The digest an algorithm yields for a byte stream.
pub open spec fn digest_of(alg: Algo, data: Seq<u8>) -> Seq<u8> {
    match alg {
        Algo::Md5 => md5_of(data),
        Algo::Sha1 => sha1_of(data),
        Algo::Sha256 => sha256_of(data),
        Algo::Sha512 => sha512_of(data),
    }
}

/// Each algorithm's digest size in bytes.
pub open spec fn digest_len(alg: Algo) -> nat {
    match alg {
        Algo::Md5 => 16,
        Algo::Sha1 => 20,
        Algo::Sha256 => 32,
        Algo::Sha512 => 64,
    }
}

/// What a sidecar file for an algorithm and a file content holds: the digest
/// rendered as lowercase hexadecimal.
pub open spec fn sidecar_content_spec(alg: Algo, data: Seq<u8>) -> Seq<char> {
    hex_of(digest_of(alg, data))
}

/// Whatever the algorithm and the content, a sidecar's content is two
/// characters per digest byte, all lowercase hexadecimal: the format the
/// MD5 path and the SHA paths converge on.
pub proof fn lemma_sidecar_content_format(alg: Algo, data: Seq<u8>)
    ensures
        sidecar_content_spec(alg, data).len() == 2 * digest_of(alg, data).len(),
        forall|i: int|
            0 <= i < sidecar_content_spec(alg, data).len() ==> crate::hex::is_lower_hex_char(
                #[trigger] sidecar_content_spec(alg, data)[i],
            ),
{
    crate::hex::lemma_hex_of_lowercase(digest_of(alg, data));
}

/// The longest byte stream one digest accepts. ring's SHA implementations
/// refuse longer inputs when finishing, so the hashers stay below it.
pub open spec fn max_input_len() -> nat {
    0x1fff_ffff_ffff_ffff
}

#[verifier::external_type_specification]
#[verifier::external_body]
pub struct ExRingDigestContext(ring::digest::Context);

#[verifier::external_type_specification]
#[verifier::external_body]
pub struct ExMd5Context(md5::Context);

struct Md5Stream {
    ctx: md5::Context,
    fed: Ghost<Seq<u8>>,
}

struct ShaStream {
    ctx: ring::digest::Context,
    alg: Algo,
    fed: Ghost<Seq<u8>>,
}

/// Relies on md5::Context::new: a fresh context has absorbed no bytes.
#[verifier::external_body]
fn md5_stream_new() -> (s: Md5Stream)
    ensures
        s.fed@ == Seq::<u8>::empty(),
{
    Md5Stream { ctx: md5::Context::new(), fed: Ghost(Seq::empty()) }
}

/// Relies on md5::Context::consume: absorbs the chunk after everything
/// absorbed before it.
#[verifier::external_body]
fn md5_stream_consume(s: &mut Md5Stream, chunk: &[u8])
    ensures
        final(s).fed@ == old(s).fed@ + chunk@,
{
    s.ctx.consume(chunk);
}

/// Relies on md5::Context::finalize and on md5::Digest's LowerHex rendering,
/// which writes each of the 16 digest bytes as "{:02x}": the MD5 digest of
/// the absorbed stream, formatted directly as lowercase hexadecimal.
#[verifier::external_body]
fn md5_stream_hex(s: Md5Stream) -> (r: String)
    ensures
        r@ == hex_of(md5_of(s.fed@)),
        r@.len() == 32,
{
    format!("{:x}", s.ctx.finalize())
}

/// Relies on ring::digest::Context::new with the algorithm's constant
/// (SHA1_FOR_LEGACY_USE_ONLY, SHA256, SHA512): a fresh context has absorbed
/// no bytes.
#[verifier::external_body]
fn sha_stream_new(alg: Algo) -> (s: ShaStream)
    requires
        alg != Algo::Md5,
    ensures
        s.alg == alg,
        s.fed@ == Seq::<u8>::empty(),
{
    let a = match alg {
        Algo::Sha1 => &ring::digest::SHA1_FOR_LEGACY_USE_ONLY,
        Algo::Sha512 => &ring::digest::SHA512,
        // the precondition rules Md5 out
        _ => &ring::digest::SHA256,
    };
    ShaStream { ctx: ring::digest::Context::new(a), alg, fed: Ghost(Seq::empty()) }
}

/// Relies on ring::digest::Context::update: absorbs the chunk after
/// everything absorbed before it.
#[verifier::external_body]
fn sha_stream_update(s: &mut ShaStream, chunk: &[u8])
    requires
        old(s).fed@.len() + chunk@.len() <= max_input_len(),
    ensures
        final(s).alg == old(s).alg,
        final(s).fed@ == old(s).fed@ + chunk@,
{
    s.ctx.update(chunk);
}

/// Relies on ring::digest::Context::finish and Digest::as_ref: the digest of
/// the absorbed stream, output_len bytes long (SHA-1: 20, SHA-256: 32,
/// SHA-512: 64). finish refuses over-long inputs; the precondition keeps
/// those out.
#[verifier::external_body]
fn sha_stream_finish(s: ShaStream) -> (r: Vec<u8>)
    requires
        s.alg != Algo::Md5,
        s.fed@.len() <= max_input_len(),
    ensures
        s.alg == Algo::Sha1 ==> r@ == sha1_of(s.fed@),
        s.alg == Algo::Sha256 ==> r@ == sha256_of(s.fed@),
        s.alg == Algo::Sha512 ==> r@ == sha512_of(s.fed@),
        r@.len() == digest_len(s.alg),
{
    s.ctx.finish().as_ref().to_vec()
}

enum HasherInner {
    Md5(Md5Stream),
    Sha(ShaStream),
}

/// A streaming digest computation: absorbs byte chunks in constant memory and
/// finishes with the lowercase-hex digest of everything absorbed.
pub struct Hasher {
    inner: HasherInner,
}

impl Hasher {
    /// The algorithm this hasher computes.
    pub closed spec fn alg(self) -> Algo {
        match self.inner {
            HasherInner::Md5(_) => Algo::Md5,
            HasherInner::Sha(s) => s.alg,
        }
    }

    /// The bytes absorbed so far.
    pub closed spec fn fed(self) -> Seq<u8> {
        match self.inner {
            HasherInner::Md5(s) => s.fed@,
            HasherInner::Sha(s) => s.fed@,
        }
    }

    /// Internal consistency: the stream kind matches the algorithm tag.
    pub closed spec fn wf(self) -> bool {
        match self.inner {
            HasherInner::Md5(_) => true,
            HasherInner::Sha(s) => s.alg != Algo::Md5,
        }
    }

    /// A fresh hasher for the algorithm, with nothing absorbed yet.
    pub fn new(alg: Algo) -> (h: Hasher)
        ensures
            h.wf(),
            h.alg() == alg,
            h.fed() == Seq::<u8>::empty(),
    {
        match alg {
            Algo::Md5 => Hasher { inner: HasherInner::Md5(md5_stream_new()) },
            _ => Hasher { inner: HasherInner::Sha(sha_stream_new(alg)) },
        }
    }

    /// Absorb one chunk of the stream.
    pub fn update(&mut self, chunk: &[u8])
        requires
            old(self).wf(),
            old(self).fed().len() + chunk@.len() <= max_input_len(),
        ensures
            final(self).wf(),
            final(self).alg() == old(self).alg(),
            final(self).fed() == old(self).fed() + chunk@,
    {
        match &mut self.inner {
            HasherInner::Md5(s) => md5_stream_consume(s, chunk),
            HasherInner::Sha(s) => sha_stream_update(s, chunk),
        }
    }

    /// Finish the computation: the digest of the absorbed stream, rendered in
    /// lowercase hexadecimal, two characters per digest byte.
    pub fn finish_hex(self) -> (r: String)
        requires
            self.wf(),
            self.fed().len() <= max_input_len(),
        ensures
            r@ == sidecar_content_spec(self.alg(), self.fed()),
            r@.len() == 2 * digest_len(self.alg()),
    {
        match self.inner {
            HasherInner::Md5(s) => md5_stream_hex(s),
            HasherInner::Sha(s) => {
                let d = sha_stream_finish(s);
                hex_lower(d.as_slice())
            },
        }
    }
}

/// One-shot digest of an in-memory byte source, streamed through a hasher in
/// fixed-size chunks: the sidecar content for the algorithm and those bytes.
pub fn digest_hex(alg: Algo, data: &[u8]) -> (r: String)
    requires
        data@.len() <= max_input_len(),
    ensures
        r@ == sidecar_content_spec(alg, data@),
        r@.len() == 2 * digest_len(alg),
{
    let mut h = Hasher::new(alg);
    let len = data.len();
    let mut i: usize = 0;
    while i < len
        invariant
            h.wf(),
            h.alg() == alg,
            i <= len,
            len == data@.len(),
            data@.len() <= max_input_len(),
            h.fed() == data@.subrange(0, i as int),
        decreases len - i,
    {
        let end = if len - i < 1024 {
            len
        } else {
            i + 1024
        };
        let chunk = vstd::slice::slice_subrange(data, i, end);
        h.update(chunk);
        proof {
            assert(data@.subrange(0, i as int) + data@.subrange(i as int, end as int)
                =~= data@.subrange(0, end as int));
        }
        i = end;
    }
    proof {
        assert(data@.subrange(0, len as int) =~= data@);
    }
    h.finish_hex()
}

} // verus!
