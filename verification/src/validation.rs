//! Integrity: the SHA-256 digest of a file's content, and the comparison of
//! two files by their digests.
//!
//! Reading the files is the driver's part. What it has read it feeds to a
//! [`FileDigest`] chunk by chunk; what it has found of a file it hands over
//! as a [`FileProbe`].

use crate::file_ops::{IoFailure, IoFailureView};
use crate::text::{hex_lower, hex_string};
use vstd::prelude::*;
use vstd::slice::slice_subrange;

verus! {

/// The number of bytes that a digest takes in at a time.
pub const DIGEST_CHUNK: usize = 8192;

/// A digest in the making: a `sha2::Sha256` hasher. The hasher's type is an
/// instance of a generic type of the `digest` crate whose arguments cannot
/// be declared one by one, so the hasher is kept out of sight here and is
/// known only by what it has taken in.
#[verifier::external_body]
pub struct FileDigest {
    hasher: sha2::Sha256,
}

/// All the bytes that a hasher has been fed since it was made, in order.
pub uninterp spec fn absorbed(digest: FileDigest) -> Seq<u8>;

/// The SHA-256 digest of a message, as `sha2` computes it.
pub uninterp spec fn sha256(message: Seq<u8>) -> Seq<u8>;

/// The digest of a content as text: its SHA-256 in lower-case hexadecimal.
pub open spec fn digest_text(content: Seq<u8>) -> Seq<char> {
    hex_lower(sha256(content))
}

/// `new` of the `Digest` trait on `sha2::Sha256`: a hasher that has been
/// fed nothing yet.
#[verifier::external_body]
fn hasher_new() -> (digest: FileDigest)
    ensures
        absorbed(digest) == Seq::<u8>::empty(),
{
    FileDigest { hasher: <sha2::Sha256 as sha2::Digest>::new() }
}

/// `update` of the `Digest` trait on `sha2::Sha256`: the hasher takes the
/// chunk in after all that it has been fed before.
#[verifier::external_body]
fn hasher_update(digest: &mut FileDigest, chunk: &[u8])
    ensures
        absorbed(*final(digest)) == absorbed(*old(digest)) + chunk@,
{
    sha2::Digest::update(&mut digest.hasher, chunk);
}

/// `finalize` of the `Digest` trait on `sha2::Sha256`: the SHA-256 digest,
/// 32 bytes long, of all that the hasher has been fed.
#[verifier::external_body]
fn hasher_finalize(digest: FileDigest) -> (raw: Vec<u8>)
    ensures
        raw@ == sha256(absorbed(digest)),
        raw@.len() == 32,
{
    sha2::Digest::finalize(digest.hasher).to_vec()
}

impl View for FileDigest {
    type V = Seq<u8>;

    /// The content taken in so far.
    open spec fn view(&self) -> Seq<u8> {
        absorbed(*self)
    }
}

impl FileDigest {
    /// A digest that has taken in nothing.
    pub fn new() -> (digest: FileDigest)
        ensures
            digest@ == Seq::<u8>::empty(),
    {
        hasher_new()
    }

    /// Takes in the next chunk of the content.
    pub fn update(&mut self, chunk: &[u8])
        ensures
            final(self)@ == old(self)@ + chunk@,
    {
        hasher_update(self, chunk);
    }

    /// The digest of all that was taken in, as text of 64 characters.
    pub fn finish(self) -> (text: String)
        ensures
            text@ == digest_text(self@),
            text@.len() == 64,
    {
        let raw: Vec<u8> = hasher_finalize(self);
        hex_string(raw.as_slice())
    }
}

/// The digest of `content` as text, taken in chunks of [`DIGEST_CHUNK`]
/// bytes.
pub fn calculate_sha256(content: &[u8]) -> (text: String)
    ensures
        text@ == digest_text(content@),
        text@.len() == 64,
{
    let mut digest = FileDigest::new();
    let mut done: usize = 0;
    while done < content.len()
        invariant
            done <= content.len(),
            digest@ == content@.take(done as int),
        decreases content.len() - done,
    {
        let left: usize = content.len() - done;
        let step: usize = if left < DIGEST_CHUNK {
            left
        } else {
            DIGEST_CHUNK
        };
        let chunk: &[u8] = slice_subrange(content, done, done + step);
        digest.update(chunk);
        assert(content@.take(done as int) + content@.subrange(done as int, done + step)
            =~= content@.take(done + step));
        done = done + step;
    }
    assert(content@.take(content.len() as int) =~= content@);
    digest.finish()
}

/// What the driver has found of one file.
#[derive(Debug)]
pub enum FileProbe {
    /// Nothing lies at the path.
    Missing,
    /// The file is there and could not be read to its end.
    Unreadable(IoFailure),
    /// The digest of the file's content, as text.
    Digest(String),
}

/// What a [`FileProbe`] says.
pub enum FileProbeView {
    Missing,
    Unreadable(IoFailureView),
    Digest(Seq<char>),
}

impl View for FileProbe {
    type V = FileProbeView;

    open spec fn view(&self) -> FileProbeView {
        match *self {
            FileProbe::Missing => FileProbeView::Missing,
            FileProbe::Unreadable(e) => FileProbeView::Unreadable(e@),
            FileProbe::Digest(d) => FileProbeView::Digest(d@),
        }
    }
}

impl FileProbe {
    /// The probe of a file that is there and holds `content`.
    pub fn of_content(content: &[u8]) -> (probe: FileProbe)
        ensures
            probe@ == FileProbeView::Digest(digest_text(content@)),
    {
        FileProbe::Digest(calculate_sha256(content))
    }
}

/// Whether two files match. Where either is missing they do not, whatever
/// the other is. Otherwise both have to be readable: a failure to read the
/// first, else one to read the second, is the error. Two readable files
/// match when their digests are the same.
pub open spec fn files_match(src: FileProbeView, dst: FileProbeView) -> Result<
    bool,
    IoFailureView,
> {
    if src is Missing || dst is Missing {
        Ok(false)
    } else {
        match (src, dst) {
            (FileProbeView::Unreadable(e), _) => Err(e),
            (_, FileProbeView::Unreadable(e)) => Err(e),
            (FileProbeView::Digest(a), FileProbeView::Digest(b)) => Ok(a == b),
            _ => Ok(false),
        }
    }
}

/// Whether a file has the digest `expected`. A missing file has not; an
/// unreadable one is an error.
pub open spec fn file_has_digest(file: FileProbeView, expected: Seq<char>) -> Result<
    bool,
    IoFailureView,
> {
    match file {
        FileProbeView::Missing => Ok(false),
        FileProbeView::Unreadable(e) => Err(e),
        FileProbeView::Digest(d) => Ok(d == expected),
    }
}

/// What a verdict says.
pub open spec fn verdict_view(verdict: Result<bool, IoFailure>) -> Result<bool, IoFailureView> {
    match verdict {
        Ok(same) => Ok(same),
        Err(e) => Err(e@),
    }
}

fn failure_copy(failure: &IoFailure) -> (copy: IoFailure)
    ensures
        copy@ == failure@,
{
    IoFailure { kind: failure.kind, message: failure.message.clone() }
}

/// Computes [`files_match`].
pub fn verify_files_match(src: &FileProbe, dst: &FileProbe) -> (verdict: Result<bool, IoFailure>)
    ensures
        verdict_view(verdict) == files_match(src@, dst@),
{
    match src {
        FileProbe::Missing => Ok(false),
        FileProbe::Unreadable(e) => match dst {
            FileProbe::Missing => Ok(false),
            _ => Err(failure_copy(e)),
        },
        FileProbe::Digest(a) => match dst {
            FileProbe::Missing => Ok(false),
            FileProbe::Unreadable(e) => Err(failure_copy(e)),
            FileProbe::Digest(b) => Ok(*a == *b),
        },
    }
}

/// Computes [`file_has_digest`].
pub fn verify_file_integrity(file: &FileProbe, expected_hash: &str) -> (verdict: Result<
    bool,
    IoFailure,
>)
    ensures
        verdict_view(verdict) == file_has_digest(file@, expected_hash@),
{
    match file {
        FileProbe::Missing => Ok(false),
        FileProbe::Unreadable(e) => Err(failure_copy(e)),
        FileProbe::Digest(d) => Ok(*d == String::from_str(expected_hash)),
    }
}

/// Two files match in either order or in neither: the comparison gives a
/// verdict for both orders or for none, and the same verdict.
pub proof fn lemma_files_match_symmetric(a: FileProbeView, b: FileProbeView)
    ensures
        files_match(a, b) is Ok <==> files_match(b, a) is Ok,
        files_match(a, b) is Ok ==> files_match(a, b) == files_match(b, a),
{
}

/// A file that is there and readable matches itself.
pub proof fn lemma_files_match_reflexive(digest: Seq<char>)
    ensures
        files_match(FileProbeView::Digest(digest), FileProbeView::Digest(digest)) == Ok::<
            bool,
            IoFailureView,
        >(true),
{
}

/// A faithful copy has the digest of what it was copied from, and so the
/// two match.
pub proof fn lemma_copy_matches(content: Seq<u8>, copy: Seq<u8>)
    requires
        copy == content,
    ensures
        digest_text(copy) == digest_text(content),
        files_match(
            FileProbeView::Digest(digest_text(content)),
            FileProbeView::Digest(digest_text(copy)),
        ) == Ok::<bool, IoFailureView>(true),
{
}

} // verus!
