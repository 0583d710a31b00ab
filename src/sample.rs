//! A sample: its fingerprint, its classification, where it is stored, and
//! what has been noted and learnt of it.
use crate::digest::{
    digest_of, digest_width, widths_fit, DigestAlgorithm, DigestError, DigestState, Digests,
};
use crate::hex_text::{
    digest_from_hex, encode_hex, hex_bytes, hex_text, is_hex_text, lemma_hex_round_trip,
};
use crate::local_report::{tag_set, LocalReport};
use crate::vt_report::VtReport;
use vstd::prelude::*;

verus! {

/// The content type that magic-byte sniffing gives for some bytes.
pub uninterp spec fn mime_of(content: Seq<u8>) -> Seq<char>;

/// Relies on tree_magic::from_u8 (with its built-in rules only): the type
/// depends on the bytes alone.
#[verifier::external_body]
fn sniff(content: &[u8]) -> (r: String)
    ensures
        r@ == mime_of(content@),
{
    tree_magic::from_u8(content).to_string()
}

/// The content type of some bytes, by their magic numbers, never by a name.
pub fn classify(content: &[u8]) -> (r: String)
    ensures
        r@ == mime_of(content@),
{
    sniff(content)
}

/// Classifying the same content twice gives the same type.
pub proof fn lemma_classification_deterministic(a: Seq<u8>, b: Seq<u8>)
    requires
        a == b,
    ensures
        mime_of(a) == mime_of(b),
{
}

/// How many leading bytes of a file its classification looks at.
pub const CLASSIFY_WINDOW: usize = 65536;

/// The leading bytes that classification looks at.
pub open spec fn window(data: Seq<u8>) -> Seq<u8> {
    if data.len() <= CLASSIFY_WINDOW {
        data
    } else {
        data.take(CLASSIFY_WINDOW as int)
    }
}

/// Why a file could not be made into a sample: it could not be read, the
/// hashing library failed, or it gave a digest of another width than its
/// algorithm's. Classification itself cannot fail: bytes that match no rule
/// still get the generic binary type.
#[derive(Debug, Clone, Copy, PartialEq, Eq, Structural)]
pub enum IngestError {
    Unreadable,
    DigestFailed,
    DigestWidth,
}

/// One pass over a file: its chunks feed the three digests, and its leading
/// bytes are kept for classification.
pub struct Fingerprinter {
    digests: DigestState,
    head: Vec<u8>,
}

impl Fingerprinter {
    /// The bytes fed so far.
    pub closed spec fn fed(&self) -> Seq<u8> {
        self.digests.fed()
    }

    /// The digests have been fed what was read, and the kept bytes are its
    /// leading window.
    pub closed spec fn wf(&self) -> bool {
        &&& self.digests.wf()
        &&& self.head@ == window(self.digests.fed())
    }

    /// A pass that has read nothing yet.
    pub fn new() -> (r: Result<Fingerprinter, IngestError>)
        ensures
            r is Ok ==> r->Ok_0.wf() && r->Ok_0.fed() == Seq::<u8>::empty(),
            r is Err ==> r->Err_0 == IngestError::DigestFailed,
    {
        match DigestState::new() {
            Ok(digests) => {
                let head: Vec<u8> = Vec::new();
                assert(head@ =~= window(digests.fed()));
                Ok(Fingerprinter { digests, head })
            },
            Err(_) => Err(IngestError::DigestFailed),
        }
    }

    /// Takes the next chunk of the file.
    pub fn update(&mut self, chunk: &[u8]) -> (r: Result<(), IngestError>)
        requires
            old(self).wf(),
        ensures
            r is Ok ==> final(self).wf() && final(self).fed() == old(self).fed() + chunk@,
            r is Err ==> r->Err_0 == IngestError::DigestFailed,
    {
        let ghost before = self.digests.fed();
        if self.digests.update(chunk).is_err() {
            return Err(IngestError::DigestFailed);
        }
        let room: usize = CLASSIFY_WINDOW - self.head.len();
        let take: usize = if chunk.len() < room {
            chunk.len()
        } else {
            room
        };
        let mut i: usize = 0;
        while i < take
            invariant
                take <= chunk@.len(),
                take <= room,
                room == CLASSIFY_WINDOW - window(before).len(),
                self.digests.wf(),
                self.digests.fed() == before + chunk@,
                self.head@ == window(before) + chunk@.take(i as int),
                i <= take,
            decreases take - i,
        {
            self.head.push(chunk[i]);
            assert(chunk@.take(i + 1) =~= chunk@.take(i as int).push(chunk@[i as int]));
            i = i + 1;
        }
        proof {
            let after = before + chunk@;
            if before.len() >= CLASSIFY_WINDOW {
                assert(window(after) =~= window(before));
                assert(chunk@.take(0) =~= Seq::<u8>::empty());
            } else {
                assert(window(before) == before);
                assert(window(after) =~= before + chunk@.take(take as int));
            }
            assert(self.head@ =~= window(after));
        }
        Ok(())
    }
}

/// A sample of a workspace.
#[derive(Debug)]
pub struct Sample {
    pub name: String,
    pub path: String,
    pub magic: String,
    pub md5: Vec<u8>,
    pub sha256: Vec<u8>,
    pub sha512: Vec<u8>,
    pub local_report: Option<LocalReport>,
    pub vt_report: Option<VtReport>,
}

/// Why a persisted sample could not be read back: one of its digests is not
/// hexadecimal text of its algorithm's width.
#[derive(Debug, Clone, Copy, PartialEq, Eq, Structural)]
pub enum HashDecodeError {
    Md5,
    Sha256,
    Sha512,
}

impl Sample {
    /// Each digest has its width, and local notes are present only with a
    /// tag.
    pub open spec fn wf(&self) -> bool {
        &&& self.md5@.len() == digest_width(DigestAlgorithm::Md5)
        &&& self.sha256@.len() == digest_width(DigestAlgorithm::Sha256)
        &&& self.sha512@.len() == digest_width(DigestAlgorithm::Sha512)
        &&& match self.local_report {
            Some(lr) => lr.wf() && lr.custom_tags is Some,
            None => true,
        }
    }

    /// The sample's tags.
    pub open spec fn tags(&self) -> Set<Seq<char>> {
        match self.local_report {
            Some(lr) => lr.tags(),
            None => Set::empty(),
        }
    }

    /// The sample that one pass over a file gives: its name, its digests, and
    /// the type of its leading bytes; it is not stored anywhere yet, and
    /// nothing has been noted or learnt of it.
    pub fn new(name: &str, fingerprint: Fingerprinter) -> (r: Result<Sample, IngestError>)
        requires
            fingerprint.wf(),
        ensures
            r is Ok ==> {
                let s = r->Ok_0;
                &&& s.wf()
                &&& s.name@ == name@
                &&& s.path@ == Seq::<char>::empty()
                &&& s.magic@ == mime_of(window(fingerprint.fed()))
                &&& s.md5@ == digest_of(DigestAlgorithm::Md5, fingerprint.fed())
                &&& s.sha256@ == digest_of(DigestAlgorithm::Sha256, fingerprint.fed())
                &&& s.sha512@ == digest_of(DigestAlgorithm::Sha512, fingerprint.fed())
                &&& s.local_report is None
                &&& s.vt_report is None
            },
            r is Err ==> r->Err_0 == IngestError::DigestFailed || r->Err_0
                == IngestError::DigestWidth,
            r is Err && r->Err_0 == IngestError::DigestWidth ==> !widths_fit(fingerprint.fed()),
    {
        let magic = classify(fingerprint.head.as_slice());
        let digests = match fingerprint.digests.finish() {
            Ok(d) => d,
            Err(DigestError::Width) => return Err(IngestError::DigestWidth),
            Err(DigestError::Library) => return Err(IngestError::DigestFailed),
        };
        Ok(
            Sample {
                name: name.to_string(),
                path: String::new(),
                magic,
                md5: digests.md5,
                sha256: digests.sha256,
                sha512: digests.sha512,
                local_report: None,
                vt_report: None,
            },
        )
    }

    /// The directory that holds the sample: the one named after its type.
    pub fn storage_dir(&self) -> (r: String)
        ensures
            r@ == self.magic@,
    {
        self.magic.clone()
    }

    /// Where the sample is stored, relative to the workspace: its file name
    /// under the directory of its type.
    pub fn storage_path(&self) -> (r: String)
        ensures
            r@ == self.magic@ + "/"@ + self.name@,
    {
        let dir = self.magic.clone();
        let with_slash = dir.concat("/");
        with_slash.concat(self.name.as_str())
    }

    /// The MD5 digest in hex.
    pub fn md5_hex(&self) -> (r: String)
        ensures
            r@ == hex_text(self.md5@),
    {
        encode_hex(self.md5.as_slice())
    }

    /// The SHA-256 digest in hex, the key of the sample at the
    /// threat-intelligence service.
    pub fn sha256_hex(&self) -> (r: String)
        ensures
            r@ == hex_text(self.sha256@),
    {
        encode_hex(self.sha256.as_slice())
    }

    /// The SHA-512 digest in hex.
    pub fn sha512_hex(&self) -> (r: String)
        ensures
            r@ == hex_text(self.sha512@),
    {
        encode_hex(self.sha512.as_slice())
    }

    /// Adds a tag; the first one brings the local notes into being.
    pub fn add_tag(&mut self, tag: &str)
        requires
            old(self).wf(),
        ensures
            final(self).wf(),
            final(self).tags() == old(self).tags().insert(tag@),
            final(self).local_report is Some,
            final(self).name == old(self).name,
            final(self).path == old(self).path,
            final(self).magic == old(self).magic,
            final(self).md5 == old(self).md5,
            final(self).sha256 == old(self).sha256,
            final(self).sha512 == old(self).sha512,
            final(self).vt_report == old(self).vt_report,
    {
        match &mut self.local_report {
            Some(lr) => {
                lr.add_tag(tag);
            },
            None => {
                let mut lr = LocalReport::new();
                lr.add_tag(tag);
                self.local_report = Some(lr);
            },
        }
    }

    /// Takes a tag away; once the last one is gone the local notes are absent
    /// again, never present and empty.
    pub fn remove_tag(&mut self, tag: &str)
        requires
            old(self).wf(),
        ensures
            final(self).wf(),
            final(self).tags() == old(self).tags().remove(tag@),
            final(self).local_report is None <==> final(self).tags().is_empty(),
            final(self).name == old(self).name,
            final(self).path == old(self).path,
            final(self).magic == old(self).magic,
            final(self).md5 == old(self).md5,
            final(self).sha256 == old(self).sha256,
            final(self).sha512 == old(self).sha512,
            final(self).vt_report == old(self).vt_report,
    {
        let mut gone = false;
        match &mut self.local_report {
            Some(lr) => {
                lr.remove_tag(tag);
                gone = lr.custom_tags.is_none();
            },
            None => {
                assert(Set::<Seq<char>>::empty() =~= Set::<Seq<char>>::empty().remove(tag@));
            },
        }
        if gone {
            self.local_report = None;
        }
    }

    /// Reads a sample back from its persisted form, where digests are hex and
    /// tags a list: fails where a digest is not hexadecimal text of its
    /// algorithm's width; repeated tags count once, and no tags at all leave
    /// the local notes absent.
    pub fn from_persisted(
        name: String,
        path: String,
        magic: String,
        md5: &str,
        sha256: &str,
        sha512: &str,
        custom_tags: Option<Vec<String>>,
        vt_report: Option<VtReport>,
    ) -> (r: Result<Sample, HashDecodeError>)
        ensures
            !(is_hex_text(md5@) && hex_bytes(md5@).len() == 16) ==> r == Err::<Sample, _>(
                HashDecodeError::Md5,
            ),
            (is_hex_text(md5@) && hex_bytes(md5@).len() == 16) && !(is_hex_text(sha256@)
                && hex_bytes(sha256@).len() == 32) ==> r == Err::<Sample, _>(
                HashDecodeError::Sha256,
            ),
            (is_hex_text(md5@) && hex_bytes(md5@).len() == 16) && (is_hex_text(sha256@)
                && hex_bytes(sha256@).len() == 32) && !(is_hex_text(sha512@) && hex_bytes(
                sha512@,
            ).len() == 64) ==> r == Err::<Sample, _>(HashDecodeError::Sha512),
            r is Ok <==> (is_hex_text(md5@) && hex_bytes(md5@).len() == 16) && (is_hex_text(
                sha256@,
            ) && hex_bytes(sha256@).len() == 32) && (is_hex_text(sha512@) && hex_bytes(
                sha512@,
            ).len() == 64),
            r is Ok ==> {
                let s = r->Ok_0;
                &&& s.wf()
                &&& s.name == name
                &&& s.path == path
                &&& s.magic == magic
                &&& s.md5@ == hex_bytes(md5@)
                &&& s.sha256@ == hex_bytes(sha256@)
                &&& s.sha512@ == hex_bytes(sha512@)
                &&& s.tags() == match custom_tags {
                    Some(v) => tag_set(v@),
                    None => Set::<Seq<char>>::empty(),
                }
                &&& s.vt_report == vt_report
            },
    {
        let md5_bytes = match digest_from_hex(md5, 16) {
            Some(b) => b,
            None => return Err(HashDecodeError::Md5),
        };
        let sha256_bytes = match digest_from_hex(sha256, 32) {
            Some(b) => b,
            None => return Err(HashDecodeError::Sha256),
        };
        let sha512_bytes = match digest_from_hex(sha512, 64) {
            Some(b) => b,
            None => return Err(HashDecodeError::Sha512),
        };
        let mut sample = Sample {
            name,
            path,
            magic,
            md5: md5_bytes,
            sha256: sha256_bytes,
            sha512: sha512_bytes,
            local_report: None,
            vt_report,
        };
        if let Some(tags) = custom_tags {
            let mut i: usize = 0;
            while i < tags.len()
                invariant
                    i <= tags@.len(),
                    sample.wf(),
                    sample.name == name,
                    sample.path == path,
                    sample.magic == magic,
                    sample.md5@ == hex_bytes(md5@),
                    sample.sha256@ == hex_bytes(sha256@),
                    sample.sha512@ == hex_bytes(sha512@),
                    sample.vt_report == vt_report,
                    sample.tags() == tag_set(tags@.take(i as int)),
                decreases tags.len() - i,
            {
                sample.add_tag(tags[i].as_str());
                proof {
                    let before = tags@.take(i as int);
                    let after = tags@.take(i + 1);
                    assert forall|x: Seq<char>| #[trigger]
                        tag_set(after).contains(x) == tag_set(before).insert(
                            tags@[i as int]@,
                        ).contains(x) by {
                        if tag_set(before).contains(x) {
                            let k = choose|k: int| 0 <= k < before.len() && before[k]@ == x;
                            assert(after[k] == before[k]);
                        }
                        if tag_set(after).contains(x) && x != tags@[i as int]@ {
                            let k = choose|k: int| 0 <= k < after.len() && after[k]@ == x;
                            assert(k != i);
                            assert(before[k] == after[k]);
                        }
                        assert(after[i as int] == tags@[i as int]);
                    }
                    assert(tag_set(after) =~= tag_set(before).insert(tags@[i as int]@));
                }
                i = i + 1;
            }
            assert(tags@.take(tags@.len() as int) =~= tags@);
        } else {
            assert(sample.tags() =~= Set::<Seq<char>>::empty());
        }
        Ok(sample)
    }
}

/// Reading back what was persisted of a well-formed sample restores it: each
/// digest's hex decodes to that digest, at its algorithm's width, and the
/// list of tags that is written out holds exactly the sample's tags.
pub proof fn lemma_persisted_round_trip(s: Sample)
    requires
        s.wf(),
    ensures
        is_hex_text(hex_text(s.md5@)) && hex_bytes(hex_text(s.md5@)) == s.md5@,
        is_hex_text(hex_text(s.sha256@)) && hex_bytes(hex_text(s.sha256@)) == s.sha256@,
        is_hex_text(hex_text(s.sha512@)) && hex_bytes(hex_text(s.sha512@)) == s.sha512@,
        hex_bytes(hex_text(s.md5@)).len() == 16,
        hex_bytes(hex_text(s.sha256@)).len() == 32,
        hex_bytes(hex_text(s.sha512@)).len() == 64,
        s.tags() == match s.local_report {
            Some(lr) => tag_set(lr.custom_tags->Some_0@),
            None => Set::<Seq<char>>::empty(),
        },
{
    lemma_hex_round_trip(s.md5@);
    lemma_hex_round_trip(s.sha256@);
    lemma_hex_round_trip(s.sha512@);
}

/// The hex text of each of the three digests of any bytes decodes back to
/// exactly that digest, at its algorithm's width.
pub proof fn lemma_digest_hex_round_trip(d: Digests, data: Seq<u8>)
    requires
        d.of(data),
    ensures
        is_hex_text(hex_text(digest_of(DigestAlgorithm::Md5, data))),
        hex_bytes(hex_text(digest_of(DigestAlgorithm::Md5, data))) == digest_of(
            DigestAlgorithm::Md5,
            data,
        ),
        is_hex_text(hex_text(digest_of(DigestAlgorithm::Sha256, data))),
        hex_bytes(hex_text(digest_of(DigestAlgorithm::Sha256, data))) == digest_of(
            DigestAlgorithm::Sha256,
            data,
        ),
        is_hex_text(hex_text(digest_of(DigestAlgorithm::Sha512, data))),
        hex_bytes(hex_text(digest_of(DigestAlgorithm::Sha512, data))) == digest_of(
            DigestAlgorithm::Sha512,
            data,
        ),
        hex_bytes(hex_text(d.md5@)).len() == 16,
        hex_bytes(hex_text(d.sha256@)).len() == 32,
        hex_bytes(hex_text(d.sha512@)).len() == 64,
{
    lemma_hex_round_trip(d.md5@);
    lemma_hex_round_trip(d.sha256@);
    lemma_hex_round_trip(d.sha512@);
}

} // verus!
