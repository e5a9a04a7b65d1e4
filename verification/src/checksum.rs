//! The checksum verifier.
//!
//! Artifact bytes are accepted only after their digest has been checked
//! against the server-declared value. The bytes are forwarded to the
//! caller's sink as they are read and the digest is compared at end of
//! stream, so on a mismatch the sink has already received the bytes —
//! stream-then-check — and the caller must reject what it was handed. The
//! digests themselves are computed by outside code behind trusted wrappers;
//! everything around them — hex encoding, case-insensitive comparison,
//! forwarding — is verified.

use vstd::prelude::*;
use vstd::string::StrSliceExecFns;
use md5::Digest;

verus! {

use crate::deployment_base::Artifact;
use crate::error::{ChecksumType, Error};

/// The MD5 digest of a byte sequence, 16 bytes.
pub uninterp spec fn md5_of(data: Seq<u8>) -> Seq<u8>;

/// The SHA-1 digest of a byte sequence, 20 bytes.
pub uninterp spec fn sha1_of(data: Seq<u8>) -> Seq<u8>;

/// The SHA-256 digest of a byte sequence, 32 bytes.
pub uninterp spec fn sha256_of(data: Seq<u8>) -> Seq<u8>;

/// Relies on `md5::Md5::digest` of the `md-5` crate: the MD5 digest of the
/// input, a function of the bytes alone, 16 bytes long.
#[verifier::external_body]
fn md5_digest(data: &Vec<u8>) -> (r: Vec<u8>)
    ensures
        r@ == md5_of(data@),
        r@.len() == 16,
{
    md5::Md5::digest(data.as_slice()).to_vec()
}

/// Relies on `sha1::Sha1::digest`: the SHA-1 digest of the input, a
/// function of the bytes alone, 20 bytes long.
#[verifier::external_body]
fn sha1_digest(data: &Vec<u8>) -> (r: Vec<u8>)
    ensures
        r@ == sha1_of(data@),
        r@.len() == 20,
{
    sha1::Sha1::digest(data.as_slice()).to_vec()
}

/// Relies on `sha2::Sha256::digest`: the SHA-256 digest of the input, a
/// function of the bytes alone, 32 bytes long.
#[verifier::external_body]
fn sha256_digest(data: &Vec<u8>) -> (r: Vec<u8>)
    ensures
        r@ == sha256_of(data@),
        r@.len() == 32,
{
    sha2::Sha256::digest(data.as_slice()).to_vec()
}

/// The digest a given algorithm assigns to a byte sequence.
pub open spec fn digest_of(algorithm: ChecksumType, data: Seq<u8>) -> Seq<u8> {
    match algorithm {
        ChecksumType::Md5 => md5_of(data),
        ChecksumType::Sha1 => sha1_of(data),
        ChecksumType::Sha256 => sha256_of(data),
    }
}

/// The lower-case hex character of a value below sixteen.
pub open spec fn hex_char(n: int) -> char {
    if n == 0 {
        '0'
    } else if n == 1 {
        '1'
    } else if n == 2 {
        '2'
    } else if n == 3 {
        '3'
    } else if n == 4 {
        '4'
    } else if n == 5 {
        '5'
    } else if n == 6 {
        '6'
    } else if n == 7 {
        '7'
    } else if n == 8 {
        '8'
    } else if n == 9 {
        '9'
    } else if n == 10 {
        'a'
    } else if n == 11 {
        'b'
    } else if n == 12 {
        'c'
    } else if n == 13 {
        'd'
    } else if n == 14 {
        'e'
    } else {
        'f'
    }
}

/// The lower-case hex encoding of a byte sequence: two characters per byte,
/// high nibble first.
pub open spec fn hex_of(data: Seq<u8>) -> Seq<char>
    decreases data.len(),
{
    if data.len() == 0 {
        Seq::empty()
    } else {
        hex_of(data.drop_last()) + seq![
            hex_char(data.last() as int / 16),
            hex_char(data.last() as int % 16),
        ]
    }
}

/// An upper-case hex letter lowered; every other character unchanged. Only
/// the hex letters `A` through `F` have a case that can occur in a matching
/// digest, so lowering them is exactly case-insensitive digest comparison.
pub open spec fn lower_hex_char(c: char) -> char {
    if c == 'A' {
        'a'
    } else if c == 'B' {
        'b'
    } else if c == 'C' {
        'c'
    } else if c == 'D' {
        'd'
    } else if c == 'E' {
        'e'
    } else if c == 'F' {
        'f'
    } else {
        c
    }
}

/// A character sequence with its upper-case hex letters lowered.
pub open spec fn lower_hex(s: Seq<char>) -> Seq<char> {
    s.map_values(|c: char| lower_hex_char(c))
}

/// Whether a declared digest matches the digest of the data, compared
/// case-insensitively against the lower-case hex encoding.
pub open spec fn digest_matches(algorithm: ChecksumType, data: Seq<u8>, expected: Seq<char>) -> bool {
    lower_hex(expected) == hex_of(digest_of(algorithm, data))
}

/// The hex encoding of a byte sequence is twice as long.
proof fn lemma_hex_len(data: Seq<u8>)
    ensures
        hex_of(data).len() == 2 * data.len(),
    decreases data.len(),
{
    if data.len() > 0 {
        lemma_hex_len(data.drop_last());
    }
}

/// The two hex characters of each byte, by index.
proof fn lemma_hex_index(data: Seq<u8>, i: int)
    requires
        0 <= i < data.len(),
    ensures
        hex_of(data)[2 * i] == hex_char(data[i] as int / 16),
        hex_of(data)[2 * i + 1] == hex_char(data[i] as int % 16),
    decreases data.len(),
{
    lemma_hex_len(data.drop_last());
    if i < data.len() - 1 {
        lemma_hex_index(data.drop_last(), i);
        assert(data.drop_last()[i] == data[i]);
    } else {
        assert(data.last() == data[i]);
    }
}

/// The lower-case hex character of a value below sixteen.
fn hex_char_of(n: u8) -> (c: char)
    requires
        n < 16,
    ensures
        c == hex_char(n as int),
{
    match n {
        0 => '0',
        1 => '1',
        2 => '2',
        3 => '3',
        4 => '4',
        5 => '5',
        6 => '6',
        7 => '7',
        8 => '8',
        9 => '9',
        10 => 'a',
        11 => 'b',
        12 => 'c',
        13 => 'd',
        14 => 'e',
        _ => 'f',
    }
}

/// Lower an upper-case hex letter; leave every other character unchanged.
fn lower_hex_char_of(c: char) -> (r: char)
    ensures
        r == lower_hex_char(c),
{
    match c {
        'A' => 'a',
        'B' => 'b',
        'C' => 'c',
        'D' => 'd',
        'E' => 'e',
        'F' => 'f',
        _ => c,
    }
}

/// Compare a computed digest against a declared hex digest,
/// case-insensitively.
fn digest_hex_matches(digest: &Vec<u8>, expected: &str) -> (r: bool)
    requires
        digest@.len() <= 0x1000_0000,
    ensures
        r == (lower_hex(expected@) == hex_of(digest@)),
{
    proof {
        lemma_hex_len(digest@);
    }
    let elen = expected.unicode_len();
    let n = digest.len();
    if elen != 2 * n {
        proof {
            assert(lower_hex(expected@).len() == expected@.len());
            assert(lower_hex(expected@) != hex_of(digest@));
        }
        return false;
    }
    for i in 0..n
        invariant
            n == digest@.len(),
            elen == expected@.len(),
            elen == 2 * n,
            forall|t: int| 0 <= t < 2 * i ==> lower_hex(expected@)[t] == hex_of(digest@)[t],
    {
        let b = digest[i];
        let c_hi = hex_char_of(b / 16);
        let c_lo = hex_char_of(b % 16);
        let e_hi = lower_hex_char_of(expected.get_char(2 * i));
        let e_lo = lower_hex_char_of(expected.get_char(2 * i + 1));
        proof {
            lemma_hex_index(digest@, i as int);
            assert(lower_hex(expected@)[2 * i] == lower_hex_char(expected@[2 * i]));
            assert(lower_hex(expected@)[2 * i + 1] == lower_hex_char(expected@[2 * i + 1]));
        }
        if e_hi != c_hi || e_lo != c_lo {
            proof {
                assert(lower_hex(expected@) != hex_of(digest@));
            }
            return false;
        }
    }
    proof {
        assert(lower_hex(expected@) =~= hex_of(digest@));
    }
    true
}

/// The byte sequence a chunked stream carries, in order.
pub open spec fn flat_bytes(chunks: Seq<Seq<u8>>) -> Seq<u8>
    decreases chunks.len(),
{
    if chunks.len() == 0 {
        Seq::empty()
    } else {
        flat_bytes(chunks.drop_last()) + chunks.last()
    }
}

/// Verify a byte stream against a declared digest while forwarding it.
///
/// Every chunk is appended to `sink` in order, unmodified, whatever the
/// outcome; the digest is computed over the whole stream and compared
/// case-insensitively to `expected` at end of stream. A mismatch is the
/// dedicated checksum error naming the failing algorithm — distinct from
/// transport errors, because a mismatch means "reject the action", not
/// "retry the transfer".
pub fn verify(expected: &str, algorithm: ChecksumType, chunks: &Vec<Vec<u8>>, sink: &mut Vec<u8>) -> (r: Result<(), Error>)
    ensures
        final(sink)@ == old(sink)@ + flat_bytes(chunks.deep_view()),
        r is Ok <==> digest_matches(algorithm, flat_bytes(chunks.deep_view()), expected@),
        r is Err ==> r == Err::<(), Error>(Error::ChecksumError(algorithm)),
{
    let mut data: Vec<u8> = Vec::new();
    let n = chunks.len();
    proof {
        assert(data@ =~= flat_bytes(chunks.deep_view().take(0)));
    }
    for i in 0..n
        invariant
            n == chunks.len(),
            data@ == flat_bytes(chunks.deep_view().take(i as int)),
    {
        let chunk = &chunks[i];
        let m = chunk.len();
        let ghost done = data@;
        for j in 0..m
            invariant
                m == chunk.len(),
                data@ == done + chunk@.take(j as int),
        {
            data.push(chunk[j]);
            proof {
                assert(data@ =~= done + chunk@.take(j as int + 1));
            }
        }
        proof {
            assert(chunk@.take(m as int) =~= chunk@);
            let cdv = chunks.deep_view();
            assert(cdv.take(i as int + 1).drop_last() =~= cdv.take(i as int));
            assert(cdv.take(i as int + 1).last() == cdv[i as int]);
            assert(cdv[i as int] =~= chunks@[i as int]@);
            assert(data@ =~= flat_bytes(cdv.take(i as int + 1)));
        }
    }
    proof {
        assert(chunks.deep_view().take(n as int) =~= chunks.deep_view());
    }
    let dn = data.len();
    proof {
        assert(sink@ =~= old(sink)@ + data@.take(0));
    }
    for k in 0..dn
        invariant
            dn == data.len(),
            sink@ == old(sink)@ + data@.take(k as int),
    {
        sink.push(data[k]);
        proof {
            assert(sink@ =~= old(sink)@ + data@.take(k as int + 1));
        }
    }
    proof {
        assert(data@.take(dn as int) =~= data@);
    }
    let computed = match algorithm {
        ChecksumType::Md5 => md5_digest(&data),
        ChecksumType::Sha1 => sha1_digest(&data),
        ChecksumType::Sha256 => sha256_digest(&data),
    };
    if digest_hex_matches(&computed, expected) {
        Ok(())
    } else {
        Err(Error::ChecksumError(algorithm))
    }
}

/// The outcome of accepting one artifact's bytes.
#[derive(Debug, Clone, Copy, PartialEq, Eq, Structural)]
pub enum DownloadOutcome {
    /// The stream matched the declared digest of this algorithm.
    Verified(ChecksumType),
    /// The artifact declared no digest at all; the bytes were accepted
    /// without integrity proof. A warning-level condition, not an error.
    Unverified,
}

/// What accepting an artifact's stream yields: checked against the
/// strongest declared digest, or accepted unverified when none is declared.
pub open spec fn checked_against(
    algorithm: ChecksumType,
    data: Seq<u8>,
    declared: Seq<char>,
    r: Result<DownloadOutcome, Error>,
) -> bool {
    if digest_matches(algorithm, data, declared) {
        r == Ok::<DownloadOutcome, Error>(DownloadOutcome::Verified(algorithm))
    } else {
        r == Err::<DownloadOutcome, Error>(Error::ChecksumError(algorithm))
    }
}

pub open spec fn download_outcome(a: Artifact, data: Seq<u8>, r: Result<DownloadOutcome, Error>) -> bool {
    match a.sha256 {
        Some(d) => checked_against(ChecksumType::Sha256, data, d@, r),
        None => match a.sha1 {
            Some(d) => checked_against(ChecksumType::Sha1, data, d@, r),
            None => match a.md5 {
                Some(d) => checked_against(ChecksumType::Md5, data, d@, r),
                None => r == Ok::<DownloadOutcome, Error>(DownloadOutcome::Unverified),
            },
        },
    }
}

impl Artifact {
    /// Accept this artifact's downloaded bytes: forward every chunk to
    /// `sink` in order and verify the stream against the strongest digest
    /// the artifact declares — SHA-256 before SHA-1 before MD5. With no
    /// declared digest the bytes are accepted unverified, surfaced as such.
    pub fn verify_download(&self, chunks: &Vec<Vec<u8>>, sink: &mut Vec<u8>) -> (r: Result<
        DownloadOutcome,
        Error,
    >)
        ensures
            final(sink)@ == old(sink)@ + flat_bytes(chunks.deep_view()),
            download_outcome(*self, flat_bytes(chunks.deep_view()), r),
    {
        if let Some(d) = &self.sha256 {
            match verify(d.as_str(), ChecksumType::Sha256, chunks, sink) {
                Ok(_) => Ok(DownloadOutcome::Verified(ChecksumType::Sha256)),
                Err(e) => Err(e),
            }
        } else if let Some(d) = &self.sha1 {
            match verify(d.as_str(), ChecksumType::Sha1, chunks, sink) {
                Ok(_) => Ok(DownloadOutcome::Verified(ChecksumType::Sha1)),
                Err(e) => Err(e),
            }
        } else if let Some(d) = &self.md5 {
            match verify(d.as_str(), ChecksumType::Md5, chunks, sink) {
                Ok(_) => Ok(DownloadOutcome::Verified(ChecksumType::Md5)),
                Err(e) => Err(e),
            }
        } else {
            let dn = chunks.len();
            let ghost pre = sink@;
            proof {
                assert(sink@ =~= pre + flat_bytes(chunks.deep_view().take(0)));
            }
            for i in 0..dn
                invariant
                    dn == chunks.len(),
                    sink@ == pre + flat_bytes(chunks.deep_view().take(i as int)),
            {
                let chunk = &chunks[i];
                let m = chunk.len();
                let ghost done = sink@;
                for j in 0..m
                    invariant
                        m == chunk.len(),
                        sink@ == done + chunk@.take(j as int),
                {
                    sink.push(chunk[j]);
                    proof {
                        assert(sink@ =~= done + chunk@.take(j as int + 1));
                    }
                }
                proof {
                    assert(chunk@.take(m as int) =~= chunk@);
                    let cdv = chunks.deep_view();
                    assert(cdv.take(i as int + 1).drop_last() =~= cdv.take(i as int));
                    assert(cdv.take(i as int + 1).last() == cdv[i as int]);
                    assert(cdv[i as int] =~= chunks@[i as int]@);
                    assert(sink@ =~= pre + flat_bytes(cdv.take(i as int + 1)));
                }
            }
            proof {
                assert(chunks.deep_view().take(dn as int) =~= chunks.deep_view());
            }
            Ok(DownloadOutcome::Unverified)
        }
    }
}

} // verus!
