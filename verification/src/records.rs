//! The two kinds of record, and how much storage each reserves.

use vstd::prelude::*;
use vstd::utf8::{decode_utf8, encode_utf8, encode_utf8_decode_utf8, encode_utf8_valid_utf8};

verus! {

/// Bytes reserved at the head of every record for its kind.
pub const DISCRIMINATOR_LEN: usize = 8;

/// Bytes of the length prefix that precedes a stored text.
pub const LENGTH_PREFIX_LEN: usize = 4;

/// The longest description a poll can store, in bytes of UTF-8.
pub const MAX_DESCRIPTION_LEN: usize = 280;

/// The longest name a candidate can store, in bytes of UTF-8. A name of any
/// length up to this one is cut into seeds that the derivation takes.
pub const MAX_CANDIDATE_NAME_LEN: usize = 64;

/// A poll: its id, what it asks, and the window in which it runs.
#[derive(Clone, Debug, PartialEq, Eq)]
pub struct Poll {
    pub poll_id: u64,
    pub description: String,
    pub poll_start: u64,
    pub poll_end: u64,
    pub candidate_count: u64,
}

/// What a poll holds, its description as a sequence of characters.
pub struct PollView {
    pub poll_id: u64,
    pub description: Seq<char>,
    pub poll_start: u64,
    pub poll_end: u64,
    pub candidate_count: u64,
}

impl View for Poll {
    type V = PollView;

    open spec fn view(&self) -> PollView {
        PollView {
            poll_id: self.poll_id,
            description: self.description@,
            poll_start: self.poll_start,
            poll_end: self.poll_end,
            candidate_count: self.candidate_count,
        }
    }
}

impl PollView {
    /// A poll as it is when created: the given fields, and no candidate counted.
    pub open spec fn fresh(
        poll_id: u64,
        description: Seq<char>,
        poll_start: u64,
        poll_end: u64,
    ) -> PollView {
        PollView { poll_id, description, poll_start, poll_end, candidate_count: 0 }
    }

    /// Bytes that the poll takes when written out: the discriminator, then each
    /// field in turn, the description behind its length prefix.
    pub open spec fn encoded_len(self) -> nat {
        (DISCRIMINATOR_LEN + 8 + LENGTH_PREFIX_LEN + encode_utf8(self.description).len() + 8 + 8
            + 8) as nat
    }
}

impl Poll {
    /// Bytes reserved for the fields of a poll: id, description at its full
    /// bound behind its length prefix, start, end and candidate count.
    pub const INIT_SPACE: usize = 8 + (LENGTH_PREFIX_LEN + MAX_DESCRIPTION_LEN) + 8 + 8 + 8;

    /// Bytes of storage that a poll record occupies, whatever its description.
    pub const SPACE: usize = DISCRIMINATOR_LEN + Poll::INIT_SPACE;

    /// A poll as it is when created. The window is stored as given: nothing asks
    /// that it start before it ends.
    pub fn new(poll_id: u64, description: String, poll_start: u64, poll_end: u64) -> (poll: Poll)
        ensures
            poll@ == PollView::fresh(poll_id, description@, poll_start, poll_end),
    {
        Poll { poll_id, description, poll_start, poll_end, candidate_count: 0 }
    }
}

/// A candidate of a poll: a name and the votes it has drawn.
#[derive(Clone, Debug, PartialEq, Eq)]
pub struct Candidate {
    pub candidate_name: String,
    pub candidate_votes: u64,
}

/// What a candidate holds, its name as a sequence of characters.
pub struct CandidateView {
    pub candidate_name: Seq<char>,
    pub candidate_votes: u64,
}

impl View for Candidate {
    type V = CandidateView;

    open spec fn view(&self) -> CandidateView {
        CandidateView {
            candidate_name: self.candidate_name@,
            candidate_votes: self.candidate_votes,
        }
    }
}

impl CandidateView {
    /// A candidate as it is when created: the given name, and no vote.
    pub open spec fn fresh(candidate_name: Seq<char>) -> CandidateView {
        CandidateView { candidate_name, candidate_votes: 0 }
    }

    /// Bytes that the candidate takes when written out: the discriminator, the
    /// name behind its length prefix, and the votes.
    pub open spec fn encoded_len(self) -> nat {
        (DISCRIMINATOR_LEN + LENGTH_PREFIX_LEN + encode_utf8(self.candidate_name).len() + 8) as nat
    }
}

impl Candidate {
    /// Bytes reserved for the fields of a candidate: name at its full bound
    /// behind its length prefix, and votes.
    pub const INIT_SPACE: usize = (LENGTH_PREFIX_LEN + MAX_CANDIDATE_NAME_LEN) + 8;

    /// Bytes of storage that a candidate record occupies, whatever its name.
    pub const SPACE: usize = DISCRIMINATOR_LEN + Candidate::INIT_SPACE;

    /// A candidate as it is when created.
    pub fn new(candidate_name: String) -> (candidate: Candidate)
        ensures
            candidate@ == CandidateView::fresh(candidate_name@),
    {
        Candidate { candidate_name, candidate_votes: 0 }
    }
}

/// What an address of the ledger can hold.
#[derive(Clone, Debug, PartialEq, Eq)]
pub enum Record {
    Poll(Poll),
    Candidate(Candidate),
}

/// What a record holds, by the views of the two kinds.
pub enum RecordView {
    Poll(PollView),
    Candidate(CandidateView),
}

impl View for Record {
    type V = RecordView;

    open spec fn view(&self) -> RecordView {
        match self {
            Record::Poll(poll) => RecordView::Poll(poll@),
            Record::Candidate(candidate) => RecordView::Candidate(candidate@),
        }
    }
}

/// The length in bytes of a text, which is what its bound is measured in.
pub fn byte_len(text: &str) -> (len: usize)
    ensures
        len == encode_utf8(text@).len(),
{
    text.as_bytes().len()
}

/// Whether two texts are the same, character by character.
pub fn same_text(left: &str, right: &str) -> (same: bool)
    ensures
        same == (left@ == right@),
{
    broadcast use {encode_utf8_decode_utf8, encode_utf8_valid_utf8};

    let a = left.as_bytes();
    let b = right.as_bytes();
    if a.len() != b.len() {
        return false;
    }
    let mut i: usize = 0;
    while i < a.len()
        invariant
            i <= a.len(),
            a.len() == b.len(),
            a@ == encode_utf8(left@),
            b@ == encode_utf8(right@),
            forall|j: int| 0 <= j < i ==> a@[j] == b@[j],
        decreases a.len() - i,
    {
        if a[i] != b[i] {
            return false;
        }
        i += 1;
    }
    assert(a@ =~= b@);
    assert(decode_utf8(encode_utf8(left@)) == decode_utf8(encode_utf8(right@)));
    true
}

/// A poll fits the storage reserved for it exactly when its description is
/// within its bound.
pub proof fn poll_fits_its_space(poll: PollView)
    ensures
        poll.encoded_len() <= Poll::SPACE <==> encode_utf8(poll.description).len()
            <= MAX_DESCRIPTION_LEN,
{
}

/// A candidate fits the storage reserved for it exactly when its name is within
/// its bound.
pub proof fn candidate_fits_its_space(candidate: CandidateView)
    ensures
        candidate.encoded_len() <= Candidate::SPACE <==> encode_utf8(candidate.candidate_name).len()
            <= MAX_CANDIDATE_NAME_LEN,
{
}

} // verus!
