//! Cryptographic digests: SHA-1 and SHA-2, computed by `ring`.

use vstd::prelude::*;
use ring::digest::Context;

verus! {

/// The digest algorithms on offer.
#[derive(Clone, Copy, Debug, PartialEq, Eq)]
pub enum HashAlgorithm {
    Sha1,
    Sha256,
    Sha384,
    Sha512,
}

impl HashAlgorithm {
    /// The length of the algorithm's digests, in bytes.
    pub open spec fn output_len(self) -> nat {
        match self {
            HashAlgorithm::Sha1 => 20,
            HashAlgorithm::Sha256 => 32,
            HashAlgorithm::Sha384 => 48,
            HashAlgorithm::Sha512 => 64,
        }
    }
}

/// The longest input that can be digested: its length in bits must fit in
/// 64 bits.
pub open spec fn max_input_len() -> nat {
    0x1fff_ffff_ffff_ffff
}

/// The digest of `data` under `algorithm`.
pub uninterp spec fn digest_bytes(algorithm: HashAlgorithm, data: Seq<u8>) -> Seq<u8>;

/// `ring::digest::Context`, a digest in the making. Nothing of its inside
/// is known here.
#[verifier::external_type_specification]
#[verifier::external_body]
pub struct ExContext(Context);

/// Every byte that a digest context has been given, in order.
pub uninterp spec fn context_input(context: Context) -> Seq<u8>;

/// The algorithm that a digest context was made for.
pub uninterp spec fn context_algorithm(context: Context) -> HashAlgorithm;

/// `ring::digest::digest` returns the digest of the data under the
/// algorithm, as long as the algorithm's output. It panics on data too
/// long for its bit length to be counted.
#[verifier::external_body]
fn digest(algorithm: HashAlgorithm, data: &[u8]) -> (r: Vec<u8>)
    requires
        data@.len() <= max_input_len(),
    ensures
        r@ == digest_bytes(algorithm, data@),
        r@.len() == algorithm.output_len(),
{
    let algorithm = match algorithm {
        HashAlgorithm::Sha1 => &ring::digest::SHA1_FOR_LEGACY_USE_ONLY,
        HashAlgorithm::Sha256 => &ring::digest::SHA256,
        HashAlgorithm::Sha384 => &ring::digest::SHA384,
        HashAlgorithm::Sha512 => &ring::digest::SHA512,
    };
    ring::digest::digest(algorithm, data).as_ref().to_vec()
}

/// `ring::digest::Context::new` makes a context for the algorithm that
/// has been given nothing yet.
#[verifier::external_body]
fn context_new(algorithm: HashAlgorithm) -> (r: Context)
    ensures
        context_input(r) == Seq::<u8>::empty(),
        context_algorithm(r) == algorithm,
{
    Context::new(
        match algorithm {
            HashAlgorithm::Sha1 => &ring::digest::SHA1_FOR_LEGACY_USE_ONLY,
            HashAlgorithm::Sha256 => &ring::digest::SHA256,
            HashAlgorithm::Sha384 => &ring::digest::SHA384,
            HashAlgorithm::Sha512 => &ring::digest::SHA512,
        },
    )
}

/// `ring::digest::Context::update` gives the context all of the data,
/// after what it was given before.
#[verifier::external_body]
fn context_update(context: &mut Context, data: &[u8])
    ensures
        context_input(*final(context)) == context_input(*old(context)) + data@,
        context_algorithm(*final(context)) == context_algorithm(*old(context)),
{
    context.update(data);
}

/// `ring::digest::Context::finish` returns the digest of all that the
/// context was given, as `ring::digest::digest` would of the same data. It
/// panics where that was too long for its bit length to be counted.
#[verifier::external_body]
fn context_finish(context: Context) -> (r: Vec<u8>)
    requires
        context_input(context).len() <= max_input_len(),
    ensures
        r@ == digest_bytes(context_algorithm(context), context_input(context)),
        r@.len() == context_algorithm(context).output_len(),
{
    context.finish().as_ref().to_vec()
}

/// A digest that takes its input piece by piece.
pub struct IncrementalHash {
    context: Context,
}

impl IncrementalHash {
    /// The algorithm of the digest.
    pub closed spec fn algorithm(&self) -> HashAlgorithm {
        context_algorithm(self.context)
    }

    /// Every byte taken so far.
    pub closed spec fn input(&self) -> Seq<u8> {
        context_input(self.context)
    }

    pub fn new(algorithm: HashAlgorithm) -> (r: IncrementalHash)
        ensures
            r.algorithm() == algorithm,
            r.input() == Seq::<u8>::empty(),
    {
        let context = context_new(algorithm);

        IncrementalHash { context }
    }

    /// Takes `data` after what was taken before.
    pub fn update(&mut self, data: &[u8])
        ensures
            final(self).algorithm() == old(self).algorithm(),
            final(self).input() == old(self).input() + data@,
    {
        context_update(&mut self.context, data);
    }

    /// The digest of all that was taken. What was taken must not be longer
    /// than the longest input.
    pub fn finish(self) -> (r: Hash)
        requires
            self.input().len() <= max_input_len(),
        ensures
            r@ == digest_bytes(self.algorithm(), self.input()),
            r@.len() == self.algorithm().output_len(),
    {
        let digest = context_finish(self.context);

        Hash { digest }
    }
}

/// A digest value.
pub struct Hash {
    digest: Vec<u8>,
}

impl View for Hash {
    type V = Seq<u8>;

    /// The bytes of the digest.
    closed spec fn view(&self) -> Seq<u8> {
        self.digest@
    }
}

impl Hash {
    /// The bytes of the digest.
    pub fn as_ref(&self) -> (r: &[u8])
        ensures
            r@ == self@,
    {
        self.digest.as_slice()
    }
}

/// The digest of `data` under `algorithm`. `data` must not be longer than
/// the longest input.
pub fn hash_slice(data: &[u8], algorithm: HashAlgorithm) -> (r: Hash)
    requires
        data@.len() <= max_input_len(),
    ensures
        r@ == digest_bytes(algorithm, data@),
        r@.len() == algorithm.output_len(),
{
    let digest = digest(algorithm, data);

    Hash { digest }
}

} // verus!
