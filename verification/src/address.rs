//! Derived addresses: where a record lives is a function of what identifies it.

use anchor_lang::prelude::Pubkey;
use vstd::bytes::{lemma_auto_spec_u64_to_from_le_bytes, spec_u64_to_le_bytes, u64_to_le_bytes};
use vstd::prelude::*;
use vstd::slice::{slice_subrange, slice_to_vec};
use vstd::utf8::{decode_utf8, encode_utf8, encode_utf8_decode_utf8};

verus! {

/// A 32-byte storage address.
#[derive(Clone, Copy, Debug, PartialEq, Eq)]
pub struct Address {
    pub bytes: [u8; 32],
}

impl View for Address {
    type V = Seq<u8>;

    open spec fn view(&self) -> Seq<u8> {
        self.bytes@
    }
}

impl Address {
    /// Whether two addresses name the same location.
    pub fn same(&self, other: &Address) -> (r: bool)
        ensures
            r == (self@ == other@),
    {
        let mut i: usize = 0;
        while i < 32
            invariant
                i <= 32,
                forall|j: int| 0 <= j < i ==> self.bytes@[j] == other.bytes@[j],
            decreases 32 - i,
        {
            if self.bytes[i] != other.bytes[i] {
                return false;
            }
            i += 1;
        }
        assert(self@ =~= other@);
        true
    }
}

/// The address of the program that owns every record of this ledger; all record
/// addresses are derived under it.
pub open spec fn spec_program_id() -> Seq<u8> {
    seq![
        9u8, 43, 225, 230, 237, 13, 216, 237, 44, 121, 170, 202, 171, 13, 123, 122,
        17, 76, 28, 165, 22, 109, 84, 97, 252, 22, 20, 59, 1, 116, 88, 174,
    ]
}

/// The owning program's address, `coUnmi3oBUtwtd9fjeAvSsJssXh5A5xyPbhpewyzRVF` in base 58.
pub fn program_id() -> (id: Address)
    ensures
        id@ == spec_program_id(),
{
    let id = Address {
        bytes: [
            9, 43, 225, 230, 237, 13, 216, 237, 44, 121, 170, 202, 171, 13, 123, 122,
            17, 76, 28, 165, 22, 109, 84, 97, 252, 22, 20, 59, 1, 116, 88, 174,
        ],
    };
    assert(id@ =~= spec_program_id());
    id
}

/// The longest seed that the derivation takes, in bytes.
pub const MAX_SEED_LEN: usize = 32;

/// The derivation takes fewer seeds than this.
pub const MAX_SEEDS: usize = 16;

/// The address and bump seed that the program-address search yields for `seeds`
/// under `program_id`, or `None` where it yields none.
pub uninterp spec fn program_address(seeds: Seq<Seq<u8>>, program_id: Seq<u8>) -> Option<(Seq<u8>, u8)>;

/// The bytes of each seed of a list of seeds.
pub open spec fn seed_bytes(seeds: Seq<Vec<u8>>) -> Seq<Seq<u8>> {
    seeds.map_values(|seed: Vec<u8>| seed@)
}

/// Calls `Pubkey::try_find_program_address`, which hashes the seeds, a bump seed
/// and the program id, trying bump seeds from 255 downwards until the hash is no
/// point of the ed25519 curve. It returns `None`, and does not panic, where
/// there are 16 seeds or more, where a seed is longer than 32 bytes, and where no
/// bump seed does. Trusted: the result depends on the seeds and the program id
/// alone, so it is the value that `program_address` names; and an address comes
/// back only for fewer than 16 seeds of at most 32 bytes each.
#[verifier::external_body]
fn try_find_program_address(seeds: &Vec<Vec<u8>>, program_id: &Address) -> (found: Option<
    (Address, u8),
>)
    ensures
        found matches Some((address, bump)) ==> program_address(seed_bytes(seeds@), program_id@)
            == Some((address@, bump)),
        found is None ==> program_address(seed_bytes(seeds@), program_id@) is None,
        found is Some ==> seeds@.len() < MAX_SEEDS && forall|i: int|
            0 <= i < seeds@.len() ==> (#[trigger] seeds@[i])@.len() <= MAX_SEED_LEN,
{
    let parts: Vec<&[u8]> = seeds.iter().map(|seed| seed.as_slice()).collect();
    let id = Pubkey::new_from_array(program_id.bytes);
    Pubkey::try_find_program_address(&parts, &id).map(
        |(address, bump)| (Address { bytes: address.to_bytes() }, bump),
    )
}

/// The seeds of a poll's address: the poll id, as 8 little-endian bytes.
pub open spec fn spec_poll_seeds(poll_id: u64) -> Seq<Seq<u8>> {
    seq![spec_u64_to_le_bytes(poll_id)]
}

/// Into how many seeds a text of `len` bytes is cut: one, or as many as it
/// takes to hold it 32 bytes at a time.
pub open spec fn chunk_count(len: nat) -> nat {
    if len <= MAX_SEED_LEN {
        1
    } else {
        ((len - 1) / (MAX_SEED_LEN as int) + 1) as nat
    }
}

/// The seed at `index` of a text cut into seeds: the bytes from position 32
/// times `index` on, 32 of them or as many as are left, and none behind the end.
pub open spec fn spec_seed_chunk(bytes: Seq<u8>, index: nat) -> Seq<u8> {
    let start = if index * MAX_SEED_LEN <= bytes.len() {
        index * MAX_SEED_LEN
    } else {
        bytes.len() as int
    };
    let end = if bytes.len() - start > MAX_SEED_LEN {
        start + MAX_SEED_LEN
    } else {
        bytes.len() as int
    };
    bytes.subrange(start, end)
}

/// A text cut into seeds: its bytes in order, 32 to a seed, the last seed
/// holding what is left. A text of at most 32 bytes is one seed.
pub open spec fn seed_chunks(bytes: Seq<u8>) -> Seq<Seq<u8>> {
    Seq::new(chunk_count(bytes.len()), |index: int| spec_seed_chunk(bytes, index as nat))
}

/// The seeds of a candidate's address: the owning poll's id, as 8 little-endian
/// bytes, then the UTF-8 bytes of the candidate's name, cut into seeds.
pub open spec fn spec_candidate_seeds(poll_id: u64, candidate_name: Seq<char>) -> Seq<Seq<u8>> {
    seq![spec_u64_to_le_bytes(poll_id)] + seed_chunks(encode_utf8(candidate_name))
}

/// The address derived for a poll, with its bump seed.
pub open spec fn spec_poll_address(poll_id: u64) -> Option<(Seq<u8>, u8)> {
    program_address(spec_poll_seeds(poll_id), spec_program_id())
}

/// The address derived for a candidate of a poll, with its bump seed.
pub open spec fn spec_candidate_address(poll_id: u64, candidate_name: Seq<char>) -> Option<
    (Seq<u8>, u8),
> {
    program_address(spec_candidate_seeds(poll_id, candidate_name), spec_program_id())
}

/// Whether `derived` is the derivation result `expected`, address by its bytes.
pub open spec fn is_derivation(
    derived: Option<(Address, u8)>,
    expected: Option<(Seq<u8>, u8)>,
) -> bool {
    match derived {
        Some((address, bump)) => expected == Some((address@, bump)),
        None => expected.is_none(),
    }
}

/// The seeds from which the address of the poll `poll_id` is derived.
pub fn poll_seeds(poll_id: u64) -> (seeds: Vec<Vec<u8>>)
    ensures
        seed_bytes(seeds@) == spec_poll_seeds(poll_id),
{
    let mut seeds: Vec<Vec<u8>> = Vec::new();
    seeds.push(u64_to_le_bytes(poll_id));
    assert(seed_bytes(seeds@) =~= spec_poll_seeds(poll_id));
    seeds
}

/// The seed at `index` of `text` cut into seeds: its bytes from position 32
/// times `index` on, 32 of them or as many as are left, and none behind the end
/// of the text.
pub fn seed_chunk(text: &str, index: usize) -> (chunk: &[u8])
    ensures
        chunk@ == spec_seed_chunk(encode_utf8(text@), index as nat),
        chunk@.len() <= MAX_SEED_LEN,
{
    let bytes = text.as_bytes();
    let len = bytes.len();
    let start = if index <= len / MAX_SEED_LEN {
        index * MAX_SEED_LEN
    } else {
        len
    };
    let end = if len - start > MAX_SEED_LEN {
        start + MAX_SEED_LEN
    } else {
        len
    };
    slice_subrange(bytes, start, end)
}

/// The seeds from which the address of the candidate `candidate_name` of the
/// poll `poll_id` is derived. No seed is longer than the derivation takes, and
/// a name within its bound of 64 bytes makes three seeds at most.
pub fn candidate_seeds(poll_id: u64, candidate_name: &str) -> (seeds: Vec<Vec<u8>>)
    ensures
        seed_bytes(seeds@) == spec_candidate_seeds(poll_id, candidate_name@),
        seeds@.len() == 1 + chunk_count(encode_utf8(candidate_name@).len()),
        forall|i: int| 0 <= i < seeds@.len() ==> (#[trigger] seeds@[i])@.len() <= MAX_SEED_LEN,
        encode_utf8(candidate_name@).len() <= 64 ==> seeds@.len() <= 3,
{
    let len = candidate_name.as_bytes().len();
    let count = if len <= MAX_SEED_LEN {
        1
    } else {
        (len - 1) / MAX_SEED_LEN + 1
    };
    let id = u64_to_le_bytes(poll_id);
    proof {
        lemma_auto_spec_u64_to_from_le_bytes();
    }
    let mut seeds: Vec<Vec<u8>> = Vec::new();
    seeds.push(id);
    let mut index: usize = 0;
    while index < count
        invariant
            index <= count,
            count == chunk_count(encode_utf8(candidate_name@).len()),
            seeds@.len() == 1 + index,
            seeds@[0]@ == spec_u64_to_le_bytes(poll_id),
            forall|i: int|
                1 <= i < seeds@.len() ==> (#[trigger] seeds@[i])@ == spec_seed_chunk(
                    encode_utf8(candidate_name@),
                    (i - 1) as nat,
                ),
            forall|i: int| 0 <= i < seeds@.len() ==> (#[trigger] seeds@[i])@.len() <= MAX_SEED_LEN,
        decreases count - index,
    {
        seeds.push(slice_to_vec(seed_chunk(candidate_name, index)));
        index += 1;
    }
    assert(seed_bytes(seeds@) =~= spec_candidate_seeds(poll_id, candidate_name@)) by {
        let expected = spec_candidate_seeds(poll_id, candidate_name@);
        assert(expected.len() == seeds@.len());
        assert forall|i: int| 0 <= i < seeds@.len() implies seed_bytes(seeds@)[i]
            == expected[i] by {
            assert(seed_bytes(seeds@)[i] == seeds@[i]@);
        }
    }
    seeds
}

/// Derives the address of the poll `poll_id`.
pub fn find_poll_address(poll_id: u64) -> (derived: Option<(Address, u8)>)
    ensures
        is_derivation(derived, spec_poll_address(poll_id)),
{
    let seeds = poll_seeds(poll_id);
    try_find_program_address(&seeds, &program_id())
}

/// Derives the address of the candidate `candidate_name` of the poll `poll_id`.
/// A name so long that it is cut into 15 seeds or more, which is far beyond
/// the bound on a candidate's name, has no address.
pub fn find_candidate_address(poll_id: u64, candidate_name: &str) -> (derived: Option<
    (Address, u8),
>)
    ensures
        is_derivation(derived, spec_candidate_address(poll_id, candidate_name@)),
        1 + chunk_count(encode_utf8(candidate_name@).len()) >= MAX_SEEDS ==> derived is None,
{
    let seeds = candidate_seeds(poll_id, candidate_name);
    try_find_program_address(&seeds, &program_id())
}

/// Deriving the address of one poll twice gives the same result both times:
/// the same address and bump seed, or no address either time.
pub proof fn poll_address_is_deterministic(
    poll_id: u64,
    first: Option<(Address, u8)>,
    second: Option<(Address, u8)>,
)
    requires
        is_derivation(first, spec_poll_address(poll_id)),
        is_derivation(second, spec_poll_address(poll_id)),
    ensures
        first is Some <==> second is Some,
        first is Some ==> first.unwrap().0@ == second.unwrap().0@ && first.unwrap().1
            == second.unwrap().1,
{
}

/// Deriving the address of one candidate of one poll twice gives the same
/// result both times.
pub proof fn candidate_address_is_deterministic(
    poll_id: u64,
    candidate_name: Seq<char>,
    first: Option<(Address, u8)>,
    second: Option<(Address, u8)>,
)
    requires
        is_derivation(first, spec_candidate_address(poll_id, candidate_name)),
        is_derivation(second, spec_candidate_address(poll_id, candidate_name)),
    ensures
        first is Some <==> second is Some,
        first is Some ==> first.unwrap().0@ == second.unwrap().0@ && first.unwrap().1
            == second.unwrap().1,
{
}

/// Two polls with different ids are derived from different seeds.
pub proof fn distinct_polls_have_distinct_seeds(first: u64, second: u64)
    requires
        first != second,
    ensures
        spec_poll_seeds(first) != spec_poll_seeds(second),
{
    lemma_auto_spec_u64_to_from_le_bytes();
    assert(spec_poll_seeds(first)[0] == spec_u64_to_le_bytes(first));
    assert(spec_poll_seeds(second)[0] == spec_u64_to_le_bytes(second));
}

/// A text can be read back from the seeds it was cut into: two texts that are
/// cut into the same seeds are the same.
pub proof fn seed_chunks_tell_texts_apart(first: Seq<u8>, second: Seq<u8>)
    requires
        seed_chunks(first) == seed_chunks(second),
    ensures
        first == second,
{
    let count = chunk_count(first.len());
    assert(seed_chunks(first).len() == count);
    assert(seed_chunks(second).len() == chunk_count(second.len()));
    let last = (count - 1) as nat;
    assert(seed_chunks(first)[last as int] == spec_seed_chunk(first, last));
    assert(seed_chunks(second)[last as int] == spec_seed_chunk(second, last));
    assert(spec_seed_chunk(first, last).len() == first.len() - last * MAX_SEED_LEN);
    assert(spec_seed_chunk(second, last).len() == second.len() - last * MAX_SEED_LEN);
    assert(first.len() == second.len());
    assert forall|k: int| 0 <= k < first.len() implies first[k] == second[k] by {
        let index = (k / (MAX_SEED_LEN as int)) as nat;
        let offset = k - index * MAX_SEED_LEN;
        assert(index < count);
        assert(seed_chunks(first)[index as int] == spec_seed_chunk(first, index));
        assert(seed_chunks(second)[index as int] == spec_seed_chunk(second, index));
        assert(spec_seed_chunk(first, index)[offset] == first[k]);
        assert(spec_seed_chunk(second, index)[offset] == second[k]);
    }
    assert(first =~= second);
}

/// Two candidates that differ in their poll's id or in their name are derived
/// from different seeds.
pub proof fn distinct_candidates_have_distinct_seeds(
    first_poll: u64,
    first_name: Seq<char>,
    second_poll: u64,
    second_name: Seq<char>,
)
    requires
        first_poll != second_poll || first_name != second_name,
    ensures
        spec_candidate_seeds(first_poll, first_name) != spec_candidate_seeds(
            second_poll,
            second_name,
        ),
{
    broadcast use encode_utf8_decode_utf8;

    lemma_auto_spec_u64_to_from_le_bytes();
    let first = spec_candidate_seeds(first_poll, first_name);
    let second = spec_candidate_seeds(second_poll, second_name);
    if first == second {
        assert(first[0] == spec_u64_to_le_bytes(first_poll));
        assert(second[0] == spec_u64_to_le_bytes(second_poll));
        assert(first.skip(1) =~= seed_chunks(encode_utf8(first_name)));
        assert(second.skip(1) =~= seed_chunks(encode_utf8(second_name)));
        seed_chunks_tell_texts_apart(encode_utf8(first_name), encode_utf8(second_name));
        assert(decode_utf8(encode_utf8(first_name)) == first_name);
        assert(decode_utf8(encode_utf8(second_name)) == second_name);
    }
}

/// A name of at most 32 bytes is one seed, whole: such a candidate is derived
/// from the poll's id and the name's bytes as they are.
pub proof fn short_name_is_one_seed(poll_id: u64, candidate_name: Seq<char>)
    requires
        encode_utf8(candidate_name).len() <= MAX_SEED_LEN,
    ensures
        spec_candidate_seeds(poll_id, candidate_name) == seq![
            spec_u64_to_le_bytes(poll_id),
            encode_utf8(candidate_name),
        ],
{
    let bytes = encode_utf8(candidate_name);
    assert(spec_seed_chunk(bytes, 0) =~= bytes);
    assert(spec_candidate_seeds(poll_id, candidate_name) =~= seq![
        spec_u64_to_le_bytes(poll_id),
        bytes,
    ]);
}

/// A name within its bound of 64 bytes is cut into seeds that the derivation
/// takes: fewer than 16 in all, none longer than 32 bytes.
pub proof fn bounded_name_makes_seeds_that_fit(poll_id: u64, candidate_name: Seq<char>)
    requires
        encode_utf8(candidate_name).len() <= 64,
    ensures
        spec_candidate_seeds(poll_id, candidate_name).len() < MAX_SEEDS,
        forall|i: int|
            0 <= i < spec_candidate_seeds(poll_id, candidate_name).len() ==> (
            #[trigger] spec_candidate_seeds(poll_id, candidate_name)[i]).len() <= MAX_SEED_LEN,
{
    lemma_auto_spec_u64_to_from_le_bytes();
    let seeds = spec_candidate_seeds(poll_id, candidate_name);
    assert forall|i: int| 0 <= i < seeds.len() implies (#[trigger] seeds[i]).len()
        <= MAX_SEED_LEN by {
        if i == 0 {
            assert(seeds[0] == spec_u64_to_le_bytes(poll_id));
        } else {
            assert(seeds[i] == spec_seed_chunk(encode_utf8(candidate_name), (i - 1) as nat));
        }
    }
}

} // verus!
