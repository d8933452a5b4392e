//! Content comparison: whether an item's bytes equal those of the same-named
//! entry already in the trash, judged by SHA-256 digests.
use vstd::prelude::*;

use sha2::Digest;

use crate::naming::Trash;

verus! {

/// The SHA-256 digest of a byte sequence.
pub uninterp spec fn sha256_of(data: Seq<u8>) -> Seq<u8>;

/// Relies on sha2's `Sha256::digest`: the SHA-256 digest of the bytes, whose
/// output size is 32 bytes.
#[verifier::external_body]
fn sha256(data: &[u8]) -> (r: Vec<u8>)
    ensures
        r@ == sha256_of(data@),
        r@.len() == 32,
{
    sha2::Sha256::digest(data).to_vec()
}

/// Whether two digests are equal, byte for byte.
pub fn digests_match(a: &Vec<u8>, b: &Vec<u8>) -> (r: bool)
    ensures
        r == (a@ == b@),
{
    if a.len() != b.len() {
        return false;
    }
    let mut i: usize = 0;
    while i < a.len()
        invariant
            a.len() == b.len(),
            i <= a.len(),
            forall|k: int| 0 <= k < i ==> a@[k] == b@[k],
        decreases a.len() - i,
    {
        if a[i] != b[i] {
            return false;
        }
        i = i + 1;
    }
    assert(a@ =~= b@);
    true
}

/// The SHA-256 digest of the content.
pub fn content_digest(data: &[u8]) -> (r: Vec<u8>)
    ensures
        r@ == sha256_of(data@),
        r@.len() == 32,
{
    sha256(data)
}

/// Whether the two contents have equal SHA-256 digests.
pub fn same_content(source: &[u8], trashed: &[u8]) -> (r: bool)
    ensures
        r == (sha256_of(source@) == sha256_of(trashed@)),
{
    let a = sha256(source);
    let b = sha256(trashed);
    digests_match(&a, &b)
}

impl Trash {
    /// Whether the item is a regular file whose content equals that of the
    /// same-named entry in the trash (`in_trash`, absent when there is none).
    pub fn compute_sha256(&self, is_file: bool, source: &[u8], in_trash: Option<&[u8]>) -> (r:
        bool)
        ensures
            r == (is_file && in_trash is Some && sha256_of(source@) == sha256_of(
                in_trash->0@,
            )),
    {
        if !is_file {
            return false;
        }
        match in_trash {
            Some(t) => same_content(source, t),
            None => false,
        }
    }
}

} // verus!
