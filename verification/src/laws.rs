//! What holds of the ledger whatever is asked of it, stated over the results
//! and the ledgers that the two requests are specified by.

use crate::address::{spec_candidate_address, spec_poll_address};
use crate::error::VotingError;
use crate::instructions::{
    after_initialize_candidate, after_initialze_poll, derived_address, has_candidate, has_poll,
    initialize_candidate_result, initialze_poll_result,
};
use crate::ledger::{AccountView, LedgerView, Signer};
use crate::records::{
    Candidate, CandidateView, Poll, PollView, RecordView, MAX_CANDIDATE_NAME_LEN,
    MAX_DESCRIPTION_LEN,
};
use vstd::prelude::*;
use vstd::utf8::encode_utf8;

verus! {

/// Whether the address derived for the poll `poll_id` holds a record.
pub open spec fn poll_address_is_taken(ledger: LedgerView, poll_id: u64) -> bool {
    derived_address(spec_poll_address(poll_id)) matches Some(at) && ledger.contains_key(at)
}

/// Whether the address derived for the candidate `candidate_name` of the poll
/// `poll_id` holds a record.
pub open spec fn candidate_address_is_taken(
    ledger: LedgerView,
    poll_id: u64,
    candidate_name: Seq<char>,
) -> bool {
    derived_address(spec_candidate_address(poll_id, candidate_name)) matches Some(at)
        && ledger.contains_key(at)
}

/// Whether what `before` held at `at` is still there, unchanged, in `after`.
pub open spec fn holds_still(before: LedgerView, after: LedgerView, at: Seq<u8>) -> bool {
    after.contains_key(at) && after[at] == before[at]
}

/// A poll is created once: after a poll id has been created, every further
/// request to create it is refused as already existing, whatever description,
/// window or funding party it comes with.
pub proof fn poll_is_created_once(
    ledger: LedgerView,
    signer: Signer,
    poll_id: u64,
    description: Seq<char>,
    poll_start: u64,
    poll_end: u64,
    later_signer: Signer,
    later_description: Seq<char>,
)
    requires
        initialze_poll_result(ledger, signer, poll_id, description) is Ok,
    ensures
        initialze_poll_result(
            after_initialze_poll(ledger, poll_id, description, poll_start, poll_end),
            later_signer,
            poll_id,
            later_description,
        ) == Err::<(), VotingError>(VotingError::AlreadyExists),
{
}

/// A candidate is created once: after a candidate has been created, every
/// further request to create it is refused as already existing, whatever
/// funding party it comes with.
pub proof fn candidate_is_created_once(
    ledger: LedgerView,
    signer: Signer,
    candidate_name: Seq<char>,
    poll_id: u64,
    later_signer: Signer,
)
    requires
        initialize_candidate_result(ledger, signer, candidate_name, poll_id) is Ok,
    ensures
        initialize_candidate_result(
            after_initialize_candidate(ledger, candidate_name, poll_id),
            later_signer,
            candidate_name,
            poll_id,
        ) == Err::<(), VotingError>(VotingError::AlreadyExists),
{
}

/// A candidate needs its poll: where the ledger does not hold the poll, a
/// request to create a candidate of it is refused as poll not found, whatever
/// the name and the funding party.
pub proof fn candidate_needs_its_poll(
    ledger: LedgerView,
    signer: Signer,
    candidate_name: Seq<char>,
    poll_id: u64,
)
    requires
        !has_poll(ledger, poll_id),
    ensures
        initialize_candidate_result(ledger, signer, candidate_name, poll_id) == Err::<
            (),
            VotingError,
        >(VotingError::PollNotFound),
{
}

/// A new ledger holds no poll.
pub proof fn new_ledger_has_no_poll(poll_id: u64)
    ensures
        !has_poll(LedgerView::empty(), poll_id),
{
}

/// Only its own creation brings a poll into the ledger: a ledger without the
/// poll `poll_id` is still without it after the creation of any other poll and
/// after the creation of any candidate.
pub proof fn only_its_creation_brings_a_poll(
    ledger: LedgerView,
    signer: Signer,
    poll_id: u64,
    other_poll: u64,
    description: Seq<char>,
    poll_start: u64,
    poll_end: u64,
    candidate_name: Seq<char>,
    candidate_poll: u64,
)
    requires
        !has_poll(ledger, poll_id),
    ensures
        other_poll != poll_id && initialze_poll_result(ledger, signer, other_poll, description)
            is Ok ==> !has_poll(
            after_initialze_poll(ledger, other_poll, description, poll_start, poll_end),
            poll_id,
        ),
        initialize_candidate_result(ledger, signer, candidate_name, candidate_poll) is Ok
            ==> !has_poll(
            after_initialize_candidate(ledger, candidate_name, candidate_poll),
            poll_id,
        ),
{
}

/// The bound on a poll's description is enforced: a request with a longer
/// description is refused as too long, unless the poll already exists; a
/// request with a description within the bound is never refused as too long,
/// and succeeds where the poll has an address that is free and the funding
/// party has signed and can pay.
pub proof fn description_bound_is_enforced(
    ledger: LedgerView,
    signer: Signer,
    poll_id: u64,
    description: Seq<char>,
)
    ensures
        encode_utf8(description).len() > MAX_DESCRIPTION_LEN ==> initialze_poll_result(
            ledger,
            signer,
            poll_id,
            description,
        ) == (if poll_address_is_taken(ledger, poll_id) {
            Err::<(), VotingError>(VotingError::AlreadyExists)
        } else {
            Err::<(), VotingError>(VotingError::FieldTooLong)
        }),
        encode_utf8(description).len() <= MAX_DESCRIPTION_LEN ==> initialze_poll_result(
            ledger,
            signer,
            poll_id,
            description,
        ) != Err::<(), VotingError>(VotingError::FieldTooLong),
        encode_utf8(description).len() <= MAX_DESCRIPTION_LEN && derived_address(
            spec_poll_address(poll_id),
        ) is Some && !poll_address_is_taken(ledger, poll_id) && signer.is_signer && signer.funds
            >= Poll::SPACE ==> initialze_poll_result(ledger, signer, poll_id, description) is Ok,
{
}

/// The bound on a candidate's name is enforced: where the poll is in the
/// ledger, a request with a longer name is refused as too long, unless the
/// candidate's address is taken; a request with a name within the bound is
/// never refused as too long, and succeeds where the poll is in the ledger,
/// the candidate has an address that is free and the funding party has signed
/// and can pay.
pub proof fn candidate_name_bound_is_enforced(
    ledger: LedgerView,
    signer: Signer,
    candidate_name: Seq<char>,
    poll_id: u64,
)
    ensures
        has_poll(ledger, poll_id) && encode_utf8(candidate_name).len() > MAX_CANDIDATE_NAME_LEN
            ==> initialize_candidate_result(ledger, signer, candidate_name, poll_id)
            == (if candidate_address_is_taken(ledger, poll_id, candidate_name) {
            Err::<(), VotingError>(VotingError::AlreadyExists)
        } else {
            Err::<(), VotingError>(VotingError::FieldTooLong)
        }),
        encode_utf8(candidate_name).len() <= MAX_CANDIDATE_NAME_LEN
            ==> initialize_candidate_result(ledger, signer, candidate_name, poll_id) != Err::<
            (),
            VotingError,
        >(VotingError::FieldTooLong),
        encode_utf8(candidate_name).len() <= MAX_CANDIDATE_NAME_LEN && has_poll(ledger, poll_id)
            && derived_address(spec_candidate_address(poll_id, candidate_name)) is Some
            && !candidate_address_is_taken(ledger, poll_id, candidate_name) && signer.is_signer
            && signer.funds >= Candidate::SPACE ==> initialize_candidate_result(
            ledger,
            signer,
            candidate_name,
            poll_id,
        ) is Ok,
{
}

/// Polls at different addresses live side by side: where one poll has been
/// created and a second poll has an address of its own, different from the
/// first poll's and free before, a request to create the second with a
/// description within the bound, signed and paid for, succeeds; the ledger
/// then holds both polls, and the first as it was.
pub proof fn polls_at_different_addresses_live_side_by_side(
    ledger: LedgerView,
    signer: Signer,
    first_poll: u64,
    first_description: Seq<char>,
    first_start: u64,
    first_end: u64,
    later_signer: Signer,
    second_poll: u64,
    second_description: Seq<char>,
    second_start: u64,
    second_end: u64,
)
    requires
        initialze_poll_result(ledger, signer, first_poll, first_description) is Ok,
        derived_address(spec_poll_address(second_poll)) is Some,
        derived_address(spec_poll_address(second_poll)) != derived_address(
            spec_poll_address(first_poll),
        ),
        !poll_address_is_taken(ledger, second_poll),
        encode_utf8(second_description).len() <= MAX_DESCRIPTION_LEN,
        later_signer.is_signer,
        later_signer.funds >= Poll::SPACE,
    ensures
        ({
            let middle = after_initialze_poll(
                ledger,
                first_poll,
                first_description,
                first_start,
                first_end,
            );
            let after = after_initialze_poll(
                middle,
                second_poll,
                second_description,
                second_start,
                second_end,
            );
            let first_at = derived_address(spec_poll_address(first_poll)).unwrap();
            &&& initialze_poll_result(middle, later_signer, second_poll, second_description)
                is Ok
            &&& has_poll(after, first_poll)
            &&& has_poll(after, second_poll)
            &&& after[first_at] == middle[first_at]
            &&& after[first_at].record == RecordView::Poll(
                PollView::fresh(first_poll, first_description, first_start, first_end),
            )
        }),
{
}

/// A created poll can be found: after its creation the ledger holds the poll
/// at its derived address, with the fields it was created with, no candidate
/// counted, and the storage of a poll.
pub proof fn created_poll_is_there(
    ledger: LedgerView,
    signer: Signer,
    poll_id: u64,
    description: Seq<char>,
    poll_start: u64,
    poll_end: u64,
)
    requires
        initialze_poll_result(ledger, signer, poll_id, description) is Ok,
    ensures
        ({
            let after = after_initialze_poll(ledger, poll_id, description, poll_start, poll_end);
            let at = derived_address(spec_poll_address(poll_id)).unwrap();
            &&& has_poll(after, poll_id)
            &&& after[at] == AccountView {
                space: Poll::SPACE,
                record: RecordView::Poll(
                    PollView { poll_id, description, poll_start, poll_end, candidate_count: 0 },
                ),
            }
        }),
{
}

/// Records are written once: a creation leaves every record that the ledger
/// held where it was and as it was. In particular creating a candidate leaves
/// its poll untouched, down to the poll's count of candidates.
pub proof fn records_are_never_rewritten(
    ledger: LedgerView,
    signer: Signer,
    poll_id: u64,
    description: Seq<char>,
    poll_start: u64,
    poll_end: u64,
    candidate_name: Seq<char>,
    at: Seq<u8>,
)
    requires
        ledger.contains_key(at),
    ensures
        initialze_poll_result(ledger, signer, poll_id, description) is Ok ==> holds_still(
            ledger,
            after_initialze_poll(ledger, poll_id, description, poll_start, poll_end),
            at,
        ),
        initialize_candidate_result(ledger, signer, candidate_name, poll_id) is Ok
            ==> holds_still(
            ledger,
            after_initialize_candidate(ledger, candidate_name, poll_id),
            at,
        ),
{
}

/// Candidates are independent: where two candidates have been created one
/// after the other under one poll, they have different names and live at
/// different addresses, and the ledger holds both, each with its own name, no
/// vote, and the storage of a candidate.
pub proof fn candidates_are_independent(
    ledger: LedgerView,
    first_signer: Signer,
    second_signer: Signer,
    poll_id: u64,
    first: Seq<char>,
    second: Seq<char>,
)
    requires
        initialize_candidate_result(ledger, first_signer, first, poll_id) is Ok,
        initialize_candidate_result(
            after_initialize_candidate(ledger, first, poll_id),
            second_signer,
            second,
            poll_id,
        ) is Ok,
    ensures
        ({
            let first_at = derived_address(spec_candidate_address(poll_id, first)).unwrap();
            let second_at = derived_address(spec_candidate_address(poll_id, second)).unwrap();
            let after = after_initialize_candidate(
                after_initialize_candidate(ledger, first, poll_id),
                second,
                poll_id,
            );
            &&& first != second
            &&& first_at != second_at
            &&& has_candidate(after, poll_id, first)
            &&& has_candidate(after, poll_id, second)
            &&& after[first_at] == AccountView {
                space: Candidate::SPACE,
                record: RecordView::Candidate(
                    CandidateView { candidate_name: first, candidate_votes: 0 },
                ),
            }
            &&& after[second_at] == AccountView {
                space: Candidate::SPACE,
                record: RecordView::Candidate(
                    CandidateView { candidate_name: second, candidate_votes: 0 },
                ),
            }
        }),
{
}

} // verus!
