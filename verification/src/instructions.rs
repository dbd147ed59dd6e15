//! The two requests that the ledger serves: create a poll, and create a
//! candidate of an existing poll.

use crate::address::{
    find_candidate_address, find_poll_address, spec_candidate_address, spec_poll_address, Address,
};
use crate::error::VotingError;
use crate::ledger::{AccountView, Ledger, LedgerView, Signer};
use crate::records::{
    byte_len, same_text, Candidate, CandidateView, Poll, PollView, Record, RecordView,
    MAX_CANDIDATE_NAME_LEN, MAX_DESCRIPTION_LEN,
};
use vstd::prelude::*;
use vstd::utf8::encode_utf8;

verus! {

/// The bytes of an address that may be missing.
pub open spec fn address_bytes(address: Option<Address>) -> Option<Seq<u8>> {
    match address {
        Some(address) => Some(address@),
        None => None,
    }
}

/// The address of a derivation result, without its bump seed.
pub open spec fn derived_address(derived: Option<(Seq<u8>, u8)>) -> Option<Seq<u8>> {
    match derived {
        Some((address, _)) => Some(address),
        None => None,
    }
}

/// Whether `address` is there and holds a poll record whose id is `poll_id`.
pub open spec fn holds_poll(ledger: LedgerView, address: Option<Seq<u8>>, poll_id: u64) -> bool {
    &&& address matches Some(at)
    &&& ledger.contains_key(at)
    &&& ledger[at].record matches RecordView::Poll(poll)
    &&& poll.poll_id == poll_id
}

/// How a request to create a poll at `address` ends. The first ground for
/// refusal that applies, in this order, decides: the address is taken, the
/// description is too long, there is no address, the funding party did not
/// sign, the funding party cannot pay.
pub open spec fn create_poll_result(
    ledger: LedgerView,
    signer: Signer,
    address: Option<Seq<u8>>,
    description: Seq<char>,
) -> Result<(), VotingError> {
    if address is Some && ledger.contains_key(address.unwrap()) {
        Err(VotingError::AlreadyExists)
    } else if encode_utf8(description).len() > MAX_DESCRIPTION_LEN {
        Err(VotingError::FieldTooLong)
    } else if address is None {
        Err(VotingError::DerivationFailed)
    } else if !signer.is_signer {
        Err(VotingError::AuthorizationFailed)
    } else if signer.funds < Poll::SPACE {
        Err(VotingError::AllocationFailed)
    } else {
        Ok(())
    }
}

/// The ledger once `poll` has been created at `address`.
pub open spec fn ledger_with_poll(
    ledger: LedgerView,
    address: Seq<u8>,
    poll: PollView,
) -> LedgerView {
    ledger.insert(address, AccountView { space: Poll::SPACE, record: RecordView::Poll(poll) })
}

/// How a request to create a candidate at `candidate_address`, for the poll
/// `poll_id` expected at `poll_address`, ends. The first ground for refusal
/// that applies, in this order, decides: the poll is not there, the candidate's
/// address is taken, the name is too long, the candidate has no address, the
/// funding party did not sign, the funding party cannot pay.
pub open spec fn create_candidate_result(
    ledger: LedgerView,
    signer: Signer,
    poll_address: Option<Seq<u8>>,
    candidate_address: Option<Seq<u8>>,
    poll_id: u64,
    candidate_name: Seq<char>,
) -> Result<(), VotingError> {
    if !holds_poll(ledger, poll_address, poll_id) {
        Err(VotingError::PollNotFound)
    } else if candidate_address is Some && ledger.contains_key(candidate_address.unwrap()) {
        Err(VotingError::AlreadyExists)
    } else if encode_utf8(candidate_name).len() > MAX_CANDIDATE_NAME_LEN {
        Err(VotingError::FieldTooLong)
    } else if candidate_address is None {
        Err(VotingError::DerivationFailed)
    } else if !signer.is_signer {
        Err(VotingError::AuthorizationFailed)
    } else if signer.funds < Candidate::SPACE {
        Err(VotingError::AllocationFailed)
    } else {
        Ok(())
    }
}

/// The ledger once `candidate` has been created at `address`.
pub open spec fn ledger_with_candidate(
    ledger: LedgerView,
    address: Seq<u8>,
    candidate: CandidateView,
) -> LedgerView {
    ledger.insert(
        address,
        AccountView { space: Candidate::SPACE, record: RecordView::Candidate(candidate) },
    )
}

/// Creates a poll at `address`, the result of deriving the poll's address, and
/// charges `signer` for its storage. On refusal nothing changes.
pub fn create_poll(
    ledger: &mut Ledger,
    signer: &mut Signer,
    address: Option<Address>,
    poll_id: u64,
    description: String,
    poll_start: u64,
    poll_end: u64,
) -> (result: Result<(), VotingError>)
    ensures
        result == create_poll_result(
            old(ledger)@,
            *old(signer),
            address_bytes(address),
            description@,
        ),
        result is Ok ==> final(ledger)@ == ledger_with_poll(
            old(ledger)@,
            address.unwrap()@,
            PollView::fresh(poll_id, description@, poll_start, poll_end),
        ) && *final(signer) == old(signer).charged(Poll::SPACE),
        result is Err ==> final(ledger)@ == old(ledger)@ && *final(signer) == *old(signer),
{
    if let Some(at) = &address {
        if ledger.is_occupied(at) {
            return Err(VotingError::AlreadyExists);
        }
    }
    if byte_len(description.as_str()) > MAX_DESCRIPTION_LEN {
        return Err(VotingError::FieldTooLong);
    }
    let at = match address {
        Some(at) => at,
        None => {
            return Err(VotingError::DerivationFailed);
        },
    };
    if !signer.is_signer {
        return Err(VotingError::AuthorizationFailed);
    }
    if signer.funds < Poll::SPACE as u64 {
        return Err(VotingError::AllocationFailed);
    }
    signer.funds = signer.funds - Poll::SPACE as u64;
    ledger.allocate(
        at,
        Poll::SPACE,
        Record::Poll(Poll::new(poll_id, description, poll_start, poll_end)),
    );
    Ok(())
}

/// Creates a candidate at `candidate_address` for the poll `poll_id`, which is
/// looked up at `poll_address` and left as it is; the two addresses are the
/// results of deriving the poll's and the candidate's address. Charges `signer`
/// for the candidate's storage. On refusal nothing changes.
pub fn create_candidate(
    ledger: &mut Ledger,
    signer: &mut Signer,
    poll_address: Option<Address>,
    candidate_address: Option<Address>,
    poll_id: u64,
    candidate_name: String,
) -> (result: Result<(), VotingError>)
    ensures
        result == create_candidate_result(
            old(ledger)@,
            *old(signer),
            address_bytes(poll_address),
            address_bytes(candidate_address),
            poll_id,
            candidate_name@,
        ),
        result is Ok ==> final(ledger)@ == ledger_with_candidate(
            old(ledger)@,
            candidate_address.unwrap()@,
            CandidateView::fresh(candidate_name@),
        ) && *final(signer) == old(signer).charged(Candidate::SPACE),
        result is Err ==> final(ledger)@ == old(ledger)@ && *final(signer) == *old(signer),
{
    let poll_found = match &poll_address {
        Some(at) => match ledger.poll(at) {
            Some(poll) => poll.poll_id == poll_id,
            None => false,
        },
        None => false,
    };
    if !poll_found {
        return Err(VotingError::PollNotFound);
    }
    if let Some(at) = &candidate_address {
        if ledger.is_occupied(at) {
            return Err(VotingError::AlreadyExists);
        }
    }
    if byte_len(candidate_name.as_str()) > MAX_CANDIDATE_NAME_LEN {
        return Err(VotingError::FieldTooLong);
    }
    let at = match candidate_address {
        Some(at) => at,
        None => {
            return Err(VotingError::DerivationFailed);
        },
    };
    if !signer.is_signer {
        return Err(VotingError::AuthorizationFailed);
    }
    if signer.funds < Candidate::SPACE as u64 {
        return Err(VotingError::AllocationFailed);
    }
    signer.funds = signer.funds - Candidate::SPACE as u64;
    ledger.allocate(at, Candidate::SPACE, Record::Candidate(Candidate::new(candidate_name)));
    Ok(())
}

/// What a request to create a poll works on: the party that pays, and the
/// ledger in which the poll is to live.
#[derive(Debug)]
pub struct InitializePoll<'info> {
    pub signer: &'info mut Signer,
    pub ledger: &'info mut Ledger,
}

/// What a request to create a candidate works on: the party that pays, and the
/// ledger that holds the poll and is to hold the candidate.
#[derive(Debug)]
pub struct InitializeCandidate<'info> {
    pub signer: &'info mut Signer,
    pub ledger: &'info mut Ledger,
}

/// How a request to create the poll `poll_id` ends: as a creation at the
/// address derived from `poll_id`.
pub open spec fn initialze_poll_result(
    ledger: LedgerView,
    signer: Signer,
    poll_id: u64,
    description: Seq<char>,
) -> Result<(), VotingError> {
    create_poll_result(ledger, signer, derived_address(spec_poll_address(poll_id)), description)
}

/// How a request to create the candidate `candidate_name` of the poll `poll_id`
/// ends: as a creation at the address derived from the two, for a poll at the
/// address derived from `poll_id`.
pub open spec fn initialize_candidate_result(
    ledger: LedgerView,
    signer: Signer,
    candidate_name: Seq<char>,
    poll_id: u64,
) -> Result<(), VotingError> {
    create_candidate_result(
        ledger,
        signer,
        derived_address(spec_poll_address(poll_id)),
        derived_address(spec_candidate_address(poll_id, candidate_name)),
        poll_id,
        candidate_name,
    )
}

/// The ledger once the poll `poll_id` has been created in it.
pub open spec fn after_initialze_poll(
    ledger: LedgerView,
    poll_id: u64,
    description: Seq<char>,
    poll_start: u64,
    poll_end: u64,
) -> LedgerView {
    ledger_with_poll(
        ledger,
        derived_address(spec_poll_address(poll_id)).unwrap(),
        PollView::fresh(poll_id, description, poll_start, poll_end),
    )
}

/// The ledger once the candidate `candidate_name` of the poll `poll_id` has
/// been created in it.
pub open spec fn after_initialize_candidate(
    ledger: LedgerView,
    candidate_name: Seq<char>,
    poll_id: u64,
) -> LedgerView {
    ledger_with_candidate(
        ledger,
        derived_address(spec_candidate_address(poll_id, candidate_name)).unwrap(),
        CandidateView::fresh(candidate_name),
    )
}

/// Whether the ledger holds the poll `poll_id` at the address derived from it.
pub open spec fn has_poll(ledger: LedgerView, poll_id: u64) -> bool {
    holds_poll(ledger, derived_address(spec_poll_address(poll_id)), poll_id)
}

/// Whether the ledger holds the candidate `candidate_name` at the address
/// derived from `poll_id` and that name.
pub open spec fn has_candidate(
    ledger: LedgerView,
    poll_id: u64,
    candidate_name: Seq<char>,
) -> bool {
    &&& derived_address(spec_candidate_address(poll_id, candidate_name)) matches Some(at)
    &&& ledger.contains_key(at)
    &&& ledger[at].record matches RecordView::Candidate(candidate)
    &&& candidate.candidate_name == candidate_name
}

/// The address part of a derivation.
fn address_of(derived: Option<(Address, u8)>) -> (address: Option<Address>)
    ensures
        address is Some <==> derived is Some,
        address matches Some(at) ==> at == derived.unwrap().0,
{
    match derived {
        Some((at, _)) => Some(at),
        None => None,
    }
}

/// Creates the poll `poll_id` at the address derived from it, with the given
/// description and window and no candidate counted, and charges the signer for
/// its storage. On refusal nothing changes.
pub fn initialze_poll(
    ctx: InitializePoll<'_>,
    poll_id: u64,
    description: String,
    poll_start: u64,
    poll_end: u64,
) -> (result: Result<(), VotingError>)
    ensures
        result == initialze_poll_result(
            old(ctx.ledger)@,
            *old(ctx.signer),
            poll_id,
            description@,
        ),
        result is Ok ==> final(ctx.ledger)@ == after_initialze_poll(
            old(ctx.ledger)@,
            poll_id,
            description@,
            poll_start,
            poll_end,
        ) && *final(ctx.signer) == old(ctx.signer).charged(Poll::SPACE),
        result is Err ==> final(ctx.ledger)@ == old(ctx.ledger)@ && *final(ctx.signer) == *old(
            ctx.signer,
        ),
{
    let address = address_of(find_poll_address(poll_id));
    create_poll(
        ctx.ledger,
        ctx.signer,
        address,
        poll_id,
        description,
        poll_start,
        poll_end,
    )
}

/// Creates the candidate `candidate_name` of the poll `poll_id`, with no vote,
/// at the address derived from the two, and charges the signer for its
/// storage. The poll must be in the ledger and is left as it is. On refusal
/// nothing changes.
pub fn initialize_candidate(
    ctx: InitializeCandidate<'_>,
    candidate_name: String,
    poll_id: u64,
) -> (result: Result<(), VotingError>)
    ensures
        result == initialize_candidate_result(
            old(ctx.ledger)@,
            *old(ctx.signer),
            candidate_name@,
            poll_id,
        ),
        result is Ok ==> final(ctx.ledger)@ == after_initialize_candidate(
            old(ctx.ledger)@,
            candidate_name@,
            poll_id,
        ) && *final(ctx.signer) == old(ctx.signer).charged(Candidate::SPACE),
        result is Err ==> final(ctx.ledger)@ == old(ctx.ledger)@ && *final(ctx.signer) == *old(
            ctx.signer,
        ),
{
    let poll_address = address_of(find_poll_address(poll_id));
    let candidate_address = address_of(find_candidate_address(poll_id, candidate_name.as_str()));
    create_candidate(
        ctx.ledger,
        ctx.signer,
        poll_address,
        candidate_address,
        poll_id,
        candidate_name,
    )
}

/// The poll `poll_id`, if the ledger holds it.
pub fn find_poll(ledger: &Ledger, poll_id: u64) -> (found: Option<&Poll>)
    ensures
        found is Some <==> has_poll(ledger@, poll_id),
        found matches Some(poll) ==> ledger@[derived_address(
            spec_poll_address(poll_id),
        ).unwrap()].record == RecordView::Poll(poll@),
{
    match find_poll_address(poll_id) {
        Some((at, _)) => match ledger.poll(&at) {
            Some(poll) => if poll.poll_id == poll_id {
                Some(poll)
            } else {
                None
            },
            None => None,
        },
        None => None,
    }
}

/// The candidate `candidate_name` of the poll `poll_id`, if the ledger holds it.
pub fn find_candidate<'a>(ledger: &'a Ledger, poll_id: u64, candidate_name: &str) -> (found: Option<
    &'a Candidate,
>)
    ensures
        found is Some <==> has_candidate(ledger@, poll_id, candidate_name@),
        found matches Some(candidate) ==> ledger@[derived_address(
            spec_candidate_address(poll_id, candidate_name@),
        ).unwrap()].record == RecordView::Candidate(candidate@),
{
    match find_candidate_address(poll_id, candidate_name) {
        Some((at, _)) => match ledger.candidate(&at) {
            Some(candidate) => if same_text(candidate.candidate_name.as_str(), candidate_name) {
                Some(candidate)
            } else {
                None
            },
            None => None,
        },
        None => None,
    }
}

} // verus!
