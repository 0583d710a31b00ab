//! Incremental digests: three hashers fed together, chunk by chunk.
use openssl::error::ErrorStack;
use openssl::hash::{Hasher, MessageDigest};
use vstd::prelude::*;

verus! {

#[verifier::external_type_specification]
#[verifier::external_body]
pub struct ExHasher(openssl::hash::Hasher);

#[verifier::external_type_specification]
#[verifier::external_body]
pub struct ExErrorStack(openssl::error::ErrorStack);

/// The digest algorithms of a sample's fingerprint.
#[derive(Debug, Clone, Copy, PartialEq, Eq, Structural)]
pub enum DigestAlgorithm {
    Md5,
    Sha256,
    Sha512,
}

/// What a hasher has been fed since it was made or last finished.
pub uninterp spec fn hasher_input(h: Hasher) -> Seq<u8>;

/// The algorithm a hasher was made with.
pub uninterp spec fn hasher_algorithm(h: Hasher) -> DigestAlgorithm;

/// The digest of `data` under `algorithm`.
pub uninterp spec fn digest_of(algorithm: DigestAlgorithm, data: Seq<u8>) -> Seq<u8>;

/// Relies on openssl's Hasher::new, given MessageDigest::md5, ::sha256 or
/// ::sha512: a hasher of the chosen algorithm that has been fed nothing.
#[verifier::external_body]
fn new_hasher(algorithm: DigestAlgorithm) -> (r: Result<Hasher, ErrorStack>)
    ensures
        r is Ok ==> hasher_input(r->Ok_0) == Seq::<u8>::empty() && hasher_algorithm(r->Ok_0)
            == algorithm,
{
    let md = match algorithm {
        DigestAlgorithm::Md5 => MessageDigest::md5(),
        DigestAlgorithm::Sha256 => MessageDigest::sha256(),
        DigestAlgorithm::Sha512 => MessageDigest::sha512(),
    };
    Hasher::new(md)
}

/// Relies on openssl's Hasher::update: the bytes follow what the hasher has
/// been fed; its algorithm stays.
#[verifier::external_body]
fn hasher_update(h: &mut Hasher, data: &[u8]) -> (r: Result<(), ErrorStack>)
    ensures
        hasher_algorithm(*final(h)) == hasher_algorithm(*old(h)),
        r is Ok ==> hasher_input(*final(h)) == hasher_input(*old(h)) + data@,
{
    h.update(data)
}

/// Relies on openssl's Hasher::finish: the digest of what the hasher has been
/// fed, after which it starts over.
#[verifier::external_body]
fn hasher_finish(h: &mut Hasher) -> (r: Result<Vec<u8>, ErrorStack>)
    ensures
        hasher_algorithm(*final(h)) == hasher_algorithm(*old(h)),
        r is Ok ==> r->Ok_0@ == digest_of(hasher_algorithm(*old(h)), hasher_input(*old(h)))
            && hasher_input(*final(h)) == Seq::<u8>::empty(),
{
    h.finish().map(|d| d.to_vec())
}

/// The number of bytes of a digest under each algorithm.
pub open spec fn digest_width(algorithm: DigestAlgorithm) -> nat {
    match algorithm {
        DigestAlgorithm::Md5 => 16,
        DigestAlgorithm::Sha256 => 32,
        DigestAlgorithm::Sha512 => 64,
    }
}

/// The three digests of one stream of bytes.
#[derive(Debug)]
pub struct Digests {
    pub md5: Vec<u8>,
    pub sha256: Vec<u8>,
    pub sha512: Vec<u8>,
}

/// Whether each algorithm's digest of `data` has that algorithm's width.
pub open spec fn widths_fit(data: Seq<u8>) -> bool {
    &&& digest_of(DigestAlgorithm::Md5, data).len() == digest_width(DigestAlgorithm::Md5)
    &&& digest_of(DigestAlgorithm::Sha256, data).len() == digest_width(DigestAlgorithm::Sha256)
    &&& digest_of(DigestAlgorithm::Sha512, data).len() == digest_width(DigestAlgorithm::Sha512)
}

impl Digests {
    /// Takes three digests as they are where each has its algorithm's width,
    /// and refuses them otherwise.
    pub fn checked(md5: Vec<u8>, sha256: Vec<u8>, sha512: Vec<u8>) -> (r: Result<
        Digests,
        DigestError,
    >)
        ensures
            r is Ok <==> (md5@.len() == 16 && sha256@.len() == 32 && sha512@.len() == 64),
            r is Ok ==> (r->Ok_0.md5 == md5 && r->Ok_0.sha256 == sha256 && r->Ok_0.sha512
                == sha512),
            r is Err ==> r->Err_0 == DigestError::Width,
    {
        if md5.len() == 16 && sha256.len() == 32 && sha512.len() == 64 {
            Ok(Digests { md5, sha256, sha512 })
        } else {
            Err(DigestError::Width)
        }
    }

    /// The digests of `data`, each of its width.
    pub open spec fn of(&self, data: Seq<u8>) -> bool {
        &&& self.md5@ == digest_of(DigestAlgorithm::Md5, data)
        &&& self.sha256@ == digest_of(DigestAlgorithm::Sha256, data)
        &&& self.sha512@ == digest_of(DigestAlgorithm::Sha512, data)
        &&& self.md5@.len() == digest_width(DigestAlgorithm::Md5)
        &&& self.sha256@.len() == digest_width(DigestAlgorithm::Sha256)
        &&& self.sha512@.len() == digest_width(DigestAlgorithm::Sha512)
    }
}

/// Why digests could not be had: the hashing library reported an error, or
/// gave a digest of another width than its algorithm's.
#[derive(Debug, Clone, Copy, PartialEq, Eq, Structural)]
pub enum DigestError {
    Library,
    Width,
}

/// Three hashers, MD5, SHA-256 and SHA-512, fed the same bytes.
pub struct DigestState {
    md5: Hasher,
    sha256: Hasher,
    sha512: Hasher,
}

impl DigestState {
    /// The bytes fed so far.
    pub closed spec fn fed(&self) -> Seq<u8> {
        hasher_input(self.md5)
    }

    /// Each hasher has its algorithm, and all have been fed the same bytes.
    pub closed spec fn wf(&self) -> bool {
        &&& hasher_algorithm(self.md5) == DigestAlgorithm::Md5
        &&& hasher_algorithm(self.sha256) == DigestAlgorithm::Sha256
        &&& hasher_algorithm(self.sha512) == DigestAlgorithm::Sha512
        &&& hasher_input(self.sha256) == hasher_input(self.md5)
        &&& hasher_input(self.sha512) == hasher_input(self.md5)
    }

    /// Three hashers that have been fed nothing.
    pub fn new() -> (r: Result<DigestState, DigestError>)
        ensures
            r is Ok ==> r->Ok_0.wf() && r->Ok_0.fed() == Seq::<u8>::empty(),
            r is Err ==> r->Err_0 == DigestError::Library,
    {
        let md5 = match new_hasher(DigestAlgorithm::Md5) {
            Ok(h) => h,
            Err(_) => return Err(DigestError::Library),
        };
        let sha256 = match new_hasher(DigestAlgorithm::Sha256) {
            Ok(h) => h,
            Err(_) => return Err(DigestError::Library),
        };
        let sha512 = match new_hasher(DigestAlgorithm::Sha512) {
            Ok(h) => h,
            Err(_) => return Err(DigestError::Library),
        };
        Ok(DigestState { md5, sha256, sha512 })
    }

    /// Feeds the next chunk to all three hashers.
    pub fn update(&mut self, chunk: &[u8]) -> (r: Result<(), DigestError>)
        requires
            old(self).wf(),
        ensures
            r is Ok ==> final(self).wf() && final(self).fed() == old(self).fed() + chunk@,
            r is Err ==> r->Err_0 == DigestError::Library,
    {
        if hasher_update(&mut self.sha256, chunk).is_err() {
            return Err(DigestError::Library);
        }
        if hasher_update(&mut self.sha512, chunk).is_err() {
            return Err(DigestError::Library);
        }
        if hasher_update(&mut self.md5, chunk).is_err() {
            return Err(DigestError::Library);
        }
        Ok(())
    }

    /// The three digests of all that was fed.
    pub fn finish(self) -> (r: Result<Digests, DigestError>)
        requires
            self.wf(),
        ensures
            r is Ok ==> r->Ok_0.of(self.fed()),
            r is Err && r->Err_0 == DigestError::Width ==> !widths_fit(self.fed()),
    {
        let mut state = self;
        let md5 = match hasher_finish(&mut state.md5) {
            Ok(d) => d,
            Err(_) => return Err(DigestError::Library),
        };
        let sha256 = match hasher_finish(&mut state.sha256) {
            Ok(d) => d,
            Err(_) => return Err(DigestError::Library),
        };
        let sha512 = match hasher_finish(&mut state.sha512) {
            Ok(d) => d,
            Err(_) => return Err(DigestError::Library),
        };
        Digests::checked(md5, sha256, sha512)
    }
}

} // verus!
