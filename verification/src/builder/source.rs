//! Content-addressed source identity.
//!
//! A loaded file is named by a digest of its content, not by its path: two
//! paths with identical content share an identity, which is what lets an
//! incremental build deduplicate work and skip phases already satisfied.

use vstd::prelude::*;

use crate::builder::incrimental::{phase_rank, Incrimental};

verus! {

/// The digest that names a source text. Its value is a function of the
/// text alone: the same text yields the same digest in every process and
/// on every machine.
pub uninterp spec fn content_digest(text: Seq<char>) -> Seq<u8>;

/// Relies on blake3::hash: a 32-byte digest computed from the input bytes
/// alone.
#[verifier::external_body]
fn blake3_digest(text: &str) -> (r: Vec<u8>)
    ensures
        r@ == content_digest(text@),
        r@.len() == 32,
{
    blake3::hash(text.as_bytes()).as_slice().to_vec()
}

/// The identity of a source: the digest of its content, independent of the
/// path it was loaded from.
#[derive(Debug, Clone, PartialEq, Eq)]
pub struct SourceId {
    bytes: Vec<u8>,
}

impl View for SourceId {
    type V = Seq<u8>;

    closed spec fn view(&self) -> Seq<u8> {
        self.bytes@
    }
}

impl SourceId {
    /// An identity always holds a full digest.
    pub open spec fn wf(&self) -> bool {
        self@.len() == 32
    }

    /// The digest bytes.
    pub fn as_bytes(&self) -> (r: &Vec<u8>)
        ensures
            r@ == self@,
    {
        &self.bytes
    }

    /// Whether two identities name the same content.
    pub fn same_as(&self, other: &SourceId) -> (r: bool)
        ensures
            r == (self@ == other@),
    {
        if self.bytes.len() != other.bytes.len() {
            proof {
                assert(self@ != other@);
            }
            return false;
        }
        let n = self.bytes.len();
        let mut i: usize = 0;
        while i < n
            invariant
                n == self@.len() == other@.len(),
                i <= n,
                forall|k: int| 0 <= k < i ==> self@[k] == other@[k],
            decreases n - i,
        {
            if self.bytes[i] != other.bytes[i] {
                proof {
                    assert(self@ != other@);
                }
                return false;
            }
            i = i + 1;
        }
        proof {
            assert(self@ =~= other@);
        }
        true
    }
}

/// A loaded source: its content identity, the path it came from, and how
/// far it has progressed through the incremental phases. Created when a
/// file is read and immutable apart from its phase, which only advances: a
/// changed file yields a new `Source`, never a mutated one.
#[derive(Debug, Clone, PartialEq)]
pub struct Source {
    unique_id: SourceId,
    full_path: String,
    pub incrimental: Incrimental,
}

impl Source {
    /// The characters of the path this source was loaded from.
    pub closed spec fn spec_path(&self) -> Seq<char> {
        self.full_path@
    }

    /// The incremental phase this source has reached.
    pub closed spec fn phase(&self) -> Incrimental {
        self.incrimental
    }

    /// The canonical identity of this source, for use in contracts.
    pub closed spec fn spec_id(&self) -> SourceId {
        self.unique_id
    }

    /// Builds a source from a path and the text read from it: the identity
    /// is the digest of the text, and the phase starts at `RawText` with
    /// the text held for parsing.
    pub fn from_text(path: String, text: String) -> (s: Source)
        ensures
            s.spec_id()@ == content_digest(text@),
            s.spec_id().wf(),
            s.spec_path() == path@,
            s.phase() == Incrimental::RawText(text),
    {
        let digest = blake3_digest(text.as_str());
        Source {
            unique_id: SourceId { bytes: digest },
            full_path: path,
            incrimental: Incrimental::RawText(text),
        }
    }

    /// The canonical identity of this source.
    pub fn id(&self) -> (r: &SourceId)
        ensures
            r == self.spec_id(),
    {
        &self.unique_id
    }

    /// The incremental phase this source has reached.
    pub fn phase_ref(&self) -> (r: &Incrimental)
        ensures
            *r == self.phase(),
    {
        &self.incrimental
    }

    /// The path this source was loaded from.
    pub fn path(&self) -> (r: &String)
        ensures
            r@ == self.spec_path(),
    {
        &self.full_path
    }

    /// Advances the incremental phase. Phases never regress: an attempt to
    /// move backwards or sideways is rejected and changes nothing.
    pub fn advance(&mut self, next: Incrimental) -> (ok: bool)
        ensures
            ok == (phase_rank(next) > phase_rank(old(self).phase())),
            ok ==> final(self).phase() == next,
            !ok ==> *final(self) == *old(self),
            final(self).spec_id() == old(self).spec_id(),
            final(self).spec_path() == old(self).spec_path(),
    {
        let next_rank = next.rank();
        let here_rank = self.incrimental.rank();
        if next_rank > here_rank {
            self.incrimental = next;
            true
        } else {
            false
        }
    }
}

} // verus!
