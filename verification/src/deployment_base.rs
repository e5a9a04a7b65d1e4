//! The deployment data model.
//!
//! A deployment is a server-declared software update: an action id and an
//! ordered sequence of chunks, each a named, versioned group of artifacts
//! with opaque metadata. An artifact is one downloadable file with a
//! declared size, up to three digests, and download links. All of it is
//! immutable value data parsed once from a server payload; no method here
//! touches the network.

use vstd::prelude::*;

verus! {

use crate::error::ChecksumType;

/// One downloadable file of a chunk, with its declared size, digests and
/// download links. Any subset of the digests may be absent; an artifact
/// with no digest at all is tolerated and surfaced as accepted without
/// integrity proof.
#[derive(Debug, Clone)]
pub struct Artifact {
    /// The file name of the artifact.
    pub filename: String,
    /// The declared size in bytes.
    pub size: u64,
    /// The declared MD5 digest, hex-encoded, if any.
    pub md5: Option<String>,
    /// The declared SHA-1 digest, hex-encoded, if any.
    pub sha1: Option<String>,
    /// The declared SHA-256 digest, hex-encoded, if any.
    pub sha256: Option<String>,
    /// The plain download link, if any.
    pub download_url: Option<String>,
    /// The MD5-checksum-validating download link variant, if any.
    pub md5sum_url: Option<String>,
}

impl Artifact {
    /// The declared digest for one algorithm, if any.
    pub fn digest(&self, algorithm: ChecksumType) -> (r: &Option<String>)
        ensures
            algorithm == ChecksumType::Md5 ==> r == &self.md5,
            algorithm == ChecksumType::Sha1 ==> r == &self.sha1,
            algorithm == ChecksumType::Sha256 ==> r == &self.sha256,
    {
        match algorithm {
            ChecksumType::Md5 => &self.md5,
            ChecksumType::Sha1 => &self.sha1,
            ChecksumType::Sha256 => &self.sha256,
        }
    }

    /// The strongest algorithm the artifact declares a digest for, if any:
    /// SHA-256 before SHA-1 before MD5.
    pub fn strongest_digest(&self) -> (r: Option<ChecksumType>)
        ensures
            self.sha256 is Some ==> r == Some(ChecksumType::Sha256),
            self.sha256 is None && self.sha1 is Some ==> r == Some(ChecksumType::Sha1),
            self.sha256 is None && self.sha1 is None && self.md5 is Some ==> r == Some(
                ChecksumType::Md5,
            ),
            self.sha256 is None && self.sha1 is None && self.md5 is None ==> r is None,
    {
        if self.sha256.is_some() {
            Some(ChecksumType::Sha256)
        } else if self.sha1.is_some() {
            Some(ChecksumType::Sha1)
        } else if self.md5.is_some() {
            Some(ChecksumType::Md5)
        } else {
            None
        }
    }
}

/// A named, versioned group of artifacts within a deployment, with its
/// opaque metadata. A chunk with no artifacts is valid: it may carry
/// metadata alone.
#[derive(Debug, Clone)]
pub struct Chunk {
    /// The part identifier of the chunk.
    pub part: String,
    /// The declared version.
    pub version: String,
    /// The declared name.
    pub name: String,
    /// The artifacts of the chunk, in declaration order.
    pub artifacts: Vec<Artifact>,
    /// Opaque metadata pairs, in declaration order.
    pub metadata: Vec<(String, String)>,
}

/// The metadata of a chunk sequence, flattened: chunk order first, then
/// within-chunk declaration order.
pub open spec fn metadata_of_chunks(chunks: Seq<Chunk>) -> Seq<(Seq<char>, Seq<char>)>
    decreases chunks.len(),
{
    if chunks.len() == 0 {
        Seq::empty()
    } else {
        metadata_of_chunks(chunks.drop_last()) + chunks.last().metadata.deep_view()
    }
}

/// A server-declared software update: an action id and its chunks.
#[derive(Debug, Clone)]
pub struct Deployment {
    /// The action id of the deployment.
    pub id: String,
    /// The chunks of the deployment, in declaration order.
    pub chunks: Vec<Chunk>,
}

impl Deployment {
    /// Wrap a parsed deployment payload.
    pub fn new(id: String, chunks: Vec<Chunk>) -> (r: Deployment)
        ensures
            r.id@ == id@,
            r.chunks == chunks,
    {
        Deployment { id, chunks }
    }

    /// The action id of the deployment.
    pub fn action_id(&self) -> (r: &str)
        ensures
            r@ == self.id@,
    {
        self.id.as_str()
    }

    /// The chunks of the deployment, in declaration order.
    pub fn chunks(&self) -> (r: &Vec<Chunk>)
        ensures
            r == &self.chunks,
    {
        &self.chunks
    }

    /// All metadata of all chunks, flattened in chunk order and, within a
    /// chunk, declaration order.
    pub fn metadata(&self) -> (r: Vec<(String, String)>)
        ensures
            r.deep_view() == metadata_of_chunks(self.chunks@),
    {
        let mut out: Vec<(String, String)> = Vec::new();
        let n = self.chunks.len();
        proof {
            assert(out.deep_view() =~= metadata_of_chunks(self.chunks@.take(0)));
        }
        for i in 0..n
            invariant
                n == self.chunks.len(),
                out.deep_view() == metadata_of_chunks(self.chunks@.take(i as int)),
        {
            let chunk = &self.chunks[i];
            let m = chunk.metadata.len();
            let ghost done = metadata_of_chunks(self.chunks@.take(i as int));
            for j in 0..m
                invariant
                    m == chunk.metadata.len(),
                    out.deep_view() =~~= done + chunk.metadata.deep_view().take(j as int),
            {
                let pair = &chunk.metadata[j];
                let entry = (pair.0.clone(), pair.1.clone());
                let ghost pre_seq = out@;
                let ghost pre_dv = out.deep_view();
                out.push(entry);
                proof {
                    let dv = chunk.metadata.deep_view();
                    let post = done + dv.take(j as int + 1);
                    assert(out@ == pre_seq.push(entry));
                    assert(pre_dv.len() == pre_seq.len());
                    assert(pre_dv == done + dv.take(j as int));
                    assert(out.deep_view().len() == post.len());
                    assert forall|k: int| 0 <= k < post.len() implies out.deep_view()[k]
                        == post[k] by {
                        if k < pre_seq.len() {
                            assert(out@[k] == pre_seq[k]);
                            assert(out.deep_view()[k] == pre_dv[k]);
                            if k >= done.len() {
                                assert(dv.take(j as int + 1)[k - done.len()] == dv.take(
                                    j as int,
                                )[k - done.len()]);
                            }
                        } else {
                            assert(out@[k] == entry);
                            assert(entry.deep_view() == (pair.0@, pair.1@));
                            assert(chunk.metadata@[j as int] == *pair);
                            assert(dv[j as int] == (pair.0@, pair.1@));
                        }
                    }
                    assert(out.deep_view() =~~= post);
                }
            }
            proof {
                assert(chunk.metadata.deep_view().take(m as int) =~= chunk.metadata.deep_view());
                let taken = self.chunks@.take(i as int + 1);
                assert(taken.drop_last() =~= self.chunks@.take(i as int));
                assert(taken.last() == self.chunks@[i as int]);
                assert(out.deep_view() =~= metadata_of_chunks(self.chunks@.take(i as int + 1)));
            }
        }
        proof {
            assert(self.chunks@.take(n as int) =~= self.chunks@);
        }
        out
    }
}

} // verus!
