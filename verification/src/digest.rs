//! Content digests: SHA-1 over a stream of chunks, rendered in lower-case
//! hex, and the comparison that gates every download.

use crate::text::str_equal;
use ring::digest::Context;
use vstd::prelude::*;

verus! {

/// The digit of a value below 16, in lower-case hex.
pub open spec fn hex_digit(value: int) -> char {
    seq!['0', '1', '2', '3', '4', '5', '6', '7', '8', '9', 'a', 'b', 'c', 'd', 'e', 'f'][value]
}

/// The lower-case hex rendering of `bytes`: two digits for each byte, the
/// high half first.
pub open spec fn hex_lower(bytes: Seq<u8>) -> Seq<char> {
    Seq::new(
        2 * bytes.len(),
        |i: int|
            if i % 2 == 0 {
                hex_digit(bytes[i / 2] as int / 16)
            } else {
                hex_digit(bytes[i / 2] as int % 16)
            },
    )
}

/// The SHA-1 digest of `data`, as `ring` computes it.
pub uninterp spec fn sha1(data: Seq<u8>) -> Seq<u8>;

/// Everything a digest context has been fed so far, in order.
pub uninterp spec fn context_input(context: Context) -> Seq<u8>;

/// Whether a digest context was made for SHA-1.
pub uninterp spec fn context_is_sha1(context: Context) -> bool;

/// The number of bytes from which on `ring` cannot finish a digest: the
/// length in bits no longer fits in 64 bits.
pub const DIGEST_INPUT_LIMIT: u64 = 0x2000_0000_0000_0000;

/// `ring::digest::Context`: the state of a digest computation under way.
/// Nothing is known of what is inside; it is only handed on.
#[verifier::external_type_specification]
#[verifier::external_body]
pub struct ExContext(Context);

/// `hex::encode`: each byte becomes two lower-case hex digits, the high half
/// first.
#[verifier::external_body]
fn hex_encode(data: &[u8]) -> (text: String)
    ensures
        text@ == hex_lower(data@),
{
    hex::encode(data)
}

/// `ring::digest::Context::new` with `SHA1_FOR_LEGACY_USE_ONLY`: a SHA-1
/// context that has been fed nothing.
#[verifier::external_body]
fn sha1_context() -> (context: Context)
    ensures
        context_is_sha1(context),
        context_input(context) == Seq::<u8>::empty(),
{
    Context::new(&ring::digest::SHA1_FOR_LEGACY_USE_ONLY)
}

/// `ring::digest::Context::update`: the context has been fed `data` after
/// all it was fed before, and is for the algorithm it was made for.
#[verifier::external_body]
fn context_update(context: &mut Context, data: &[u8])
    ensures
        context_is_sha1(*final(context)) == context_is_sha1(*old(context)),
        context_input(*final(context)) == context_input(*old(context)) + data@,
{
    context.update(data)
}

/// `ring::digest::Context::finish`: the digest of everything the context was
/// fed. It panics where the input's length in bits does not fit in 64 bits,
/// which `requires` rules out.
#[verifier::external_body]
fn context_finish(context: Context) -> (digest: Vec<u8>)
    requires
        context_is_sha1(context),
        context_input(context).len() < DIGEST_INPUT_LIMIT,
    ensures
        digest@ == sha1(context_input(context)),
{
    context.finish().as_ref().to_vec()
}

/// An incremental SHA-1 computation over the chunks of one response body.
/// No chunk is kept: memory use does not grow with the body.
pub struct HashAccumulator {
    context: Context,
    length: u64,
}

impl View for HashAccumulator {
    type V = Seq<u8>;

    /// All bytes fed so far, in order.
    closed spec fn view(&self) -> Seq<u8> {
        context_input(self.context)
    }
}

impl HashAccumulator {
    /// The invariant of an accumulator: it computes SHA-1, and knows how
    /// many bytes it has seen.
    pub closed spec fn wf(self) -> bool {
        &&& context_is_sha1(self.context)
        &&& self.length == if context_input(self.context).len() <= u64::MAX {
            context_input(self.context).len()
        } else {
            u64::MAX as nat
        }
    }

    /// An accumulator that has seen no byte.
    pub fn new() -> (accumulator: HashAccumulator)
        ensures
            accumulator.wf(),
            accumulator@ == Seq::<u8>::empty(),
    {
        HashAccumulator { context: sha1_context(), length: 0 }
    }

    /// Feeds the next chunk of the body.
    pub fn update(&mut self, chunk: &[u8])
        requires
            old(self).wf(),
        ensures
            final(self).wf(),
            final(self)@ == old(self)@ + chunk@,
    {
        let added = chunk.len() as u64;
        self.length = if added > u64::MAX - self.length {
            u64::MAX
        } else {
            self.length + added
        };
        context_update(&mut self.context, chunk);
    }

    /// The digest of all bytes fed, in lower-case hex; `None` if they are
    /// too many for a digest to be computed.
    pub fn finish(self) -> (digest: Option<String>)
        requires
            self.wf(),
        ensures
            match digest {
                Some(text) => self@.len() < DIGEST_INPUT_LIMIT && text@ == hex_lower(sha1(self@)),
                None => self@.len() >= DIGEST_INPUT_LIMIT,
            },
    {
        if self.length >= DIGEST_INPUT_LIMIT {
            return None;
        }
        let raw = context_finish(self.context);
        Some(hex_encode(raw.as_slice()))
    }
}

/// Whether a computed digest is the expected one. Both are lower-case hex;
/// the comparison is exact, so an expected digest in upper case matches
/// nothing.
pub fn hash_matches(actual_hash: &str, expected_hash: &str) -> (matches: bool)
    ensures
        matches == (actual_hash@ == expected_hash@),
{
    str_equal(actual_hash, expected_hash)
}

} // verus!
