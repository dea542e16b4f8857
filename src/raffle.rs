use crate::address::{
    key_bytes, program_address, proceeds_address, proceeds_seeds, raffle_address, raffle_seeds,
    tree_authority_address, tree_authority_seeds,
};
use crate::errors::RaffleError;
use anchor_lang::AnchorDeserialize;
use spl_account_compression::state::{
    merkle_tree_get_size, ConcurrentMerkleTreeHeader, CONCURRENT_MERKLE_TREE_HEADER_SIZE_V1,
};
use vstd::bytes::{
    spec_u64_from_le_bytes, spec_u64_to_le_bytes, u64_from_le_bytes, u64_to_le_bytes,
};
use vstd::prelude::*;

verus! {

/// The immutable record of one sale, stored at the address derived from its
/// certificate log.
#[derive(Clone, Copy, Debug, PartialEq, Eq)]
pub struct Raffle {
    /// Who created the raffle.
    pub creator: [u8; 32],
    /// Last moment (unix seconds) at which tickets are sold.
    pub end_timestamp: i64,
    /// Price of one ticket in the base unit of the proceeds' currency.
    pub ticket_price: u64,
    /// The certificate log bound to this raffle.
    pub merkle_tree: [u8; 32],
}

/// Length of a stored raffle record: creator, deadline, price, log.
pub const RAFFLE_RECORD_LEN: usize = 80;

/// The stored form of a raffle: the creator's key, the deadline and the price as
/// eight little-endian bytes each (the deadline in two's complement), then the
/// log's key.
pub open spec fn raffle_record(raffle: Raffle) -> Seq<u8> {
    raffle.creator@ + spec_u64_to_le_bytes(
        #[verifier::truncate] (raffle.end_timestamp as u64),
    ) + spec_u64_to_le_bytes(
        raffle.ticket_price,
    ) + raffle.merkle_tree@
}

/// `raffle` is what the first `RAFFLE_RECORD_LEN` bytes of `data` describe.
pub open spec fn read_from(data: Seq<u8>, raffle: Raffle) -> bool {
    &&& raffle.creator@ == data.subrange(0, 32)
    &&& raffle.end_timestamp == #[verifier::truncate] (spec_u64_from_le_bytes(data.subrange(32, 40)) as i64)
    &&& raffle.ticket_price == spec_u64_from_le_bytes(data.subrange(40, 48))
    &&& raffle.merkle_tree@ == data.subrange(48, 80)
}

/// The 32 bytes of `data` that start at `at`, as a key.
fn read_key(data: &[u8], at: usize) -> (k: [u8; 32])
    requires
        at + 32 <= data@.len(),
    ensures
        k@ == data@.subrange(at as int, at + 32),
{
    let mut k: [u8; 32] = [0u8; 32];
    let n = data.len();
    let mut i: usize = 0;
    while i < 32
        invariant
            i <= 32,
            n == data@.len(),
            at + 32 <= n,
            k@.len() == 32,
            forall|j: int| 0 <= j < i ==> k@[j] == data@[at + j],
        decreases 32 - i,
    {
        k[i] = data[at + i];
        i = i + 1;
    }
    assert(k@ =~= data@.subrange(at as int, at + 32));
    k
}

impl Raffle {
    /// The stored form of the raffle.
    pub fn to_bytes(&self) -> (r: Vec<u8>)
        ensures
            r@ == raffle_record(*self),
            r@.len() == RAFFLE_RECORD_LEN,
    {
        let mut r = key_bytes(&self.creator);
        let mut end = u64_to_le_bytes(self.end_timestamp as u64);
        let mut price = u64_to_le_bytes(self.ticket_price);
        let mut tree = key_bytes(&self.merkle_tree);
        r.append(&mut end);
        r.append(&mut price);
        r.append(&mut tree);
        r
    }

    /// Reads a raffle from the front of a stored record; a record shorter than
    /// `RAFFLE_RECORD_LEN` is refused.
    pub fn from_bytes(data: &[u8]) -> (r: Result<Raffle, RaffleError>)
        ensures
            data@.len() < RAFFLE_RECORD_LEN ==> r == Err::<Raffle, RaffleError>(
                RaffleError::InvalidAccountData,
            ),
            data@.len() >= RAFFLE_RECORD_LEN ==> (r matches Ok(raffle) && read_from(data@, raffle)),
    {
        if data.len() < RAFFLE_RECORD_LEN {
            return Err(RaffleError::InvalidAccountData);
        }
        let creator = read_key(data, 0);
        let end = u64_from_le_bytes(vstd::slice::slice_subrange(data, 32, 40));
        let price = u64_from_le_bytes(vstd::slice::slice_subrange(data, 40, 48));
        let merkle_tree = read_key(data, 48);
        Ok(Raffle { creator, end_timestamp: end as i64, ticket_price: price, merkle_tree })
    }
}

/// Reading a stored raffle gives back the raffle that was stored.
pub proof fn raffle_record_round_trip(raffle: Raffle, read: Raffle)
    requires
        read_from(raffle_record(raffle), read),
    ensures
        read == raffle,
{
    broadcast use vstd::array::group_array_axioms;

    let rec = raffle_record(raffle);
    vstd::bytes::lemma_auto_spec_u64_to_from_le_bytes();
    assert(rec.subrange(0, 32) =~= raffle.creator@);
    assert(rec.subrange(32, 40) =~= spec_u64_to_le_bytes(
        #[verifier::truncate] (raffle.end_timestamp as u64),
    ));
    assert(rec.subrange(40, 48) =~= spec_u64_to_le_bytes(raffle.ticket_price));
    assert(rec.subrange(48, 80) =~= raffle.merkle_tree@);
    let end = raffle.end_timestamp;
    assert((#[verifier::truncate] ((#[verifier::truncate] (end as u64)) as i64)) == end) by (bit_vector);
    assert(read.creator@ =~= raffle.creator@);
    assert(read.merkle_tree@ =~= raffle.merkle_tree@);
    assert(read.creator == raffle.creator);
    assert(read.merkle_tree == raffle.merkle_tree);
}

/// Depth and buffer width of a certificate log; the log holds `2^max_depth`
/// certificates.
#[derive(Clone, Copy, Debug, PartialEq, Eq, Structural)]
pub struct ValidDepthSizePair {
    pub max_depth: u32,
    pub max_buffer_size: u32,
}

/// The pairs (depth, buffer width) that the certificate log's program accepts.
pub open spec fn supported_depth_size(max_depth: u32, max_buffer_size: u32) -> bool {
    ||| max_depth == 3 && max_buffer_size == 8
    ||| max_depth == 5 && max_buffer_size == 8
    ||| max_depth == 14 && (max_buffer_size == 64 || max_buffer_size == 256
        || max_buffer_size == 1024 || max_buffer_size == 2048)
    ||| 15 <= max_depth <= 19 && max_buffer_size == 64
    ||| max_depth == 20 && (max_buffer_size == 64 || max_buffer_size == 256
        || max_buffer_size == 1024 || max_buffer_size == 2048)
    ||| max_depth == 24 && (max_buffer_size == 64 || max_buffer_size == 256
        || max_buffer_size == 512 || max_buffer_size == 1024 || max_buffer_size == 2048)
    ||| (max_depth == 26 || max_depth == 30) && (max_buffer_size == 512
        || max_buffer_size == 1024 || max_buffer_size == 2048)
}

/// Relies on `spl_account_compression::state::merkle_tree_get_size`, which
/// knows a tree size exactly for the supported pairs; the header handed to it is
/// a zeroed V1 header carrying the two numbers.
#[verifier::external_body]
fn depth_size_supported(max_depth: u32, max_buffer_size: u32) -> (r: bool)
    ensures
        r == supported_depth_size(max_depth, max_buffer_size),
{
    let mut bytes: Vec<u8> = vec![1u8, 0u8];
    bytes.extend_from_slice(&max_buffer_size.to_le_bytes());
    bytes.extend_from_slice(&max_depth.to_le_bytes());
    bytes.resize(CONCURRENT_MERKLE_TREE_HEADER_SIZE_V1, 0);
    match ConcurrentMerkleTreeHeader::try_from_slice(&bytes) {
        Ok(header) => merkle_tree_get_size(&header).is_ok(),
        Err(_) => false,
    }
}

/// Whether every byte of `data` is zero.
pub open spec fn all_zero(data: Seq<u8>) -> bool {
    forall|i: int| 0 <= i < data.len() ==> data[i] == 0
}

/// Whether a storage region is still fresh: every byte zero.
pub fn is_zeroed(data: &[u8]) -> (r: bool)
    ensures
        r == all_zero(data@),
{
    let mut i: usize = 0;
    while i < data.len()
        invariant
            i <= data@.len(),
            forall|k: int| 0 <= k < i ==> data@[k] == 0,
        decreases data@.len() - i,
    {
        if data[i] != 0 {
            return false;
        }
        i = i + 1;
    }
    true
}

/// Capacity, in certificates, of a log of depth `max_depth`.
pub open spec fn log_capacity(max_depth: u32) -> nat {
    vstd::arithmetic::power2::pow2(max_depth as nat)
}

/// What creating a raffle decides: the record to store, the addresses it and
/// its escrow live at, and the log authority that the log's program will set up.
#[derive(Clone, Copy, Debug, PartialEq, Eq)]
pub struct RaffleSetup {
    pub raffle: Raffle,
    pub raffle_address: [u8; 32],
    pub raffle_bump: u8,
    pub proceeds_address: [u8; 32],
    pub proceeds_bump: u8,
    pub tree_authority: [u8; 32],
    pub tree_authority_bump: u8,
    pub depth_size_pair: ValidDepthSizePair,
    /// How many certificates the log will hold.
    pub capacity: u64,
}

/// When creating a raffle fails, and with which error; `None` where it succeeds.
pub open spec fn create_error(
    merkle_tree: Seq<u8>,
    tree_data: Seq<u8>,
    pair: ValidDepthSizePair,
    program: Seq<u8>,
    log_program: Seq<u8>,
) -> Option<RaffleError> {
    let addresses_found = match program_address(raffle_seeds(merkle_tree), program) {
        Some((raffle_key, _)) => program_address(proceeds_seeds(raffle_key), program) is Some
            && program_address(tree_authority_seeds(merkle_tree), log_program) is Some,
        None => false,
    };
    if !addresses_found || !all_zero(tree_data) {
        Some(RaffleError::InvalidAccountData)
    } else if !supported_depth_size(pair.max_depth, pair.max_buffer_size) {
        Some(RaffleError::MaxEntrantsTooLarge)
    } else {
        None
    }
}

/// Creates the raffle bound to the certificate log `merkle_tree`, whose storage
/// region holds `tree_data`. The raffle's address is derived from the log's key
/// under `program`, the escrow's from the raffle's address, and the log
/// authority's from the log's key under `log_program`.
pub fn create_raffle(
    creator: [u8; 32],
    merkle_tree: [u8; 32],
    tree_data: &[u8],
    end_timestamp: i64,
    ticket_price: u64,
    depth_size_pair: ValidDepthSizePair,
    program: [u8; 32],
    log_program: [u8; 32],
) -> (r: Result<RaffleSetup, RaffleError>)
    ensures
        match create_error(merkle_tree@, tree_data@, depth_size_pair, program@, log_program@) {
            Some(e) => r == Err::<RaffleSetup, RaffleError>(e),
            None => r matches Ok(s) && s.raffle == (Raffle {
                creator,
                end_timestamp,
                ticket_price,
                merkle_tree,
            }) && program_address(raffle_seeds(merkle_tree@), program@) == Some(
                (s.raffle_address@, s.raffle_bump),
            ) && program_address(proceeds_seeds(s.raffle_address@), program@) == Some(
                (s.proceeds_address@, s.proceeds_bump),
            ) && program_address(tree_authority_seeds(merkle_tree@), log_program@) == Some(
                (s.tree_authority@, s.tree_authority_bump),
            ) && s.depth_size_pair == depth_size_pair && s.capacity == log_capacity(
                depth_size_pair.max_depth,
            ),
        },
{
    let found = raffle_address(&merkle_tree, &program);
    let (raffle_key, raffle_bump) = match found {
        Some(f) => f,
        None => return Err(RaffleError::InvalidAccountData),
    };
    let (proceeds_key, proceeds_bump) = match proceeds_address(&raffle_key, &program) {
        Some(f) => f,
        None => return Err(RaffleError::InvalidAccountData),
    };
    let (authority_key, authority_bump) = match tree_authority_address(&merkle_tree, &log_program) {
        Some(f) => f,
        None => return Err(RaffleError::InvalidAccountData),
    };
    if !is_zeroed(tree_data) {
        return Err(RaffleError::InvalidAccountData);
    }
    if !depth_size_supported(depth_size_pair.max_depth, depth_size_pair.max_buffer_size) {
        return Err(RaffleError::MaxEntrantsTooLarge);
    }
    let depth: u64 = depth_size_pair.max_depth as u64;
    proof {
        vstd::bits::lemma_u64_pow2_no_overflow(depth as nat);
        vstd::bits::lemma_u64_shl_is_mul(1, depth);
    }
    let capacity: u64 = 1u64 << depth;
    Ok(RaffleSetup {
        raffle: Raffle { creator, end_timestamp, ticket_price, merkle_tree },
        raffle_address: raffle_key,
        raffle_bump,
        proceeds_address: proceeds_key,
        proceeds_bump,
        tree_authority: authority_key,
        tree_authority_bump: authority_bump,
        depth_size_pair,
        capacity,
    })
}

} // verus!
