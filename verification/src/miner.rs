//! The decisions of a mining session around the search: how long a round may
//! take, whether an epoch reset is due, which bus to mine to, and how many
//! cores to use.
//!
//! The session's own work (accounts, transactions, the network) happens
//! elsewhere; these functions take what was fetched as plain values.

use vstd::prelude::*;

verus! {

/// Seconds that the chain allows between two hashes of one miner.
pub const ROUND_SECONDS: i64 = 60;

/// One in this many due resets is sent by this miner.
pub const RESET_ODDS: u64 = 100;

/// Compute units asked for a transaction that mines.
pub const MINE_BUDGET: u32 = 500_000;

/// Compute units that a reset adds to a transaction.
pub const RESET_BUDGET: u32 = 100_000;

/// Trusted: `num_cpus::get`, the number of logical cores that this process
/// may use. It depends on the machine, so nothing is claimed of it.
#[verifier::external_body]
fn available_cores() -> usize {
    num_cpus::get()
}

/// Trusted: draws from `rand::thread_rng()` with `Rng::gen_range(0..bound)`.
/// The contract claims only that the draw lies in the range. `gen_range`
/// panics on an empty range, which `bound > 0` excludes.
#[verifier::external_body]
fn random_below(bound: u64) -> (draw: u64)
    requires
        bound > 0,
    ensures
        draw < bound,
{
    rand::Rng::gen_range(&mut rand::thread_rng(), 0..bound)
}

/// `x` held to the range of `i64`.
pub open spec fn clamp_i64(x: int) -> int {
    if x < i64::MIN {
        i64::MIN as int
    } else if x > i64::MAX {
        i64::MAX as int
    } else {
        x
    }
}

/// The 64 bits of `x` read as a signed number.
pub open spec fn as_signed(x: u64) -> int {
    if x <= i64::MAX {
        x as int
    } else {
        x - 0x1_0000_0000_0000_0000
    }
}

/// Seconds left for a round that began with a hash at `last_hash_at`, seen at
/// time `now`, when `buffer_time` seconds are kept back for sending: the
/// round's length less the buffer less what has passed, each step held to the
/// range of `i64`, and not below zero.
pub open spec fn cutoff_of(last_hash_at: i64, buffer_time: u64, now: i64) -> int {
    let due = clamp_i64(last_hash_at + ROUND_SECONDS);
    let buffered = clamp_i64(due - as_signed(buffer_time));
    let left = clamp_i64(buffered - now);
    if left > 0 {
        left
    } else {
        0
    }
}

/// Whether a reset is due at `now`: the epoch that began at `last_reset_at`
/// is over.
pub open spec fn reset_is_due(last_reset_at: i64, epoch_duration: i64, now: i64) -> bool {
    clamp_i64(last_reset_at + epoch_duration) <= now
}

fn saturate(x: i128) -> (clamped: i64)
    ensures
        clamped == clamp_i64(x as int),
{
    if x < i64::MIN as i128 {
        i64::MIN
    } else if x > i64::MAX as i128 {
        i64::MAX
    } else {
        x as i64
    }
}

fn reinterpret(x: u64) -> (signed: i64)
    ensures
        signed == as_signed(x),
{
    if x <= i64::MAX as u64 {
        x as i64
    } else {
        let low: u64 = x - 0x8000_0000_0000_0000;
        (low as i64) + i64::MIN
    }
}

/// Seconds left for the round's search.
pub fn cutoff_seconds(last_hash_at: i64, buffer_time: u64, now: i64) -> (seconds: u64)
    ensures
        seconds == cutoff_of(last_hash_at, buffer_time, now),
{
    let due = saturate(last_hash_at as i128 + ROUND_SECONDS as i128);
    let buffered = saturate(due as i128 - reinterpret(buffer_time) as i128);
    let left = saturate(buffered as i128 - now as i128);
    if left > 0 {
        left as u64
    } else {
        0
    }
}

/// Whether a reset is due at `now`.
pub fn reset_due(last_reset_at: i64, epoch_duration: i64, now: i64) -> (due: bool)
    ensures
        due == reset_is_due(last_reset_at, epoch_duration, now),
{
    saturate(last_reset_at as i128 + epoch_duration as i128) <= now
}

/// Whether this miner sends the reset, given that one is due or not and what
/// it drew: it does on a draw of zero, and never when none is due.
pub fn reset_drawn(due: bool, draw: u64) -> (reset: bool)
    ensures
        reset == (due && draw == 0),
{
    due && draw == 0
}

/// Decides by lot whether this miner sends the reset. Where none is due there
/// is no draw and no reset.
pub fn reset_by_lot(due: bool) -> (reset: bool)
    ensures
        reset ==> due,
{
    if due {
        reset_drawn(due, random_below(RESET_ODDS))
    } else {
        false
    }
}

/// Compute units to ask for a round's transaction.
pub fn compute_budget(reset: bool) -> (units: u32)
    ensures
        units == if reset {
            MINE_BUDGET + RESET_BUDGET
        } else {
            MINE_BUDGET as int
        },
{
    if reset {
        MINE_BUDGET + RESET_BUDGET
    } else {
        MINE_BUDGET
    }
}

/// What is read of a bus account: its number and the rewards it holds.
#[derive(Clone, Copy, Debug, PartialEq, Eq)]
pub struct Bus {
    pub id: u64,
    pub rewards: u64,
}

/// First byte of the data of a bus account.
pub const BUS_TAG: u8 = 100;

/// Bytes that come before the fields in the data of an account.
pub const ACCOUNT_HEADER_LEN: usize = 8;

/// Length in bytes of the data of a bus account.
pub const BUS_ACCOUNT_LEN: usize = 40;

/// Offset of the bus number in the data of a bus account.
pub const BUS_ID_AT: usize = 8;

/// Offset of the rewards in the data of a bus account.
pub const BUS_REWARDS_AT: usize = 16;

/// The eight bytes of `data` from `at` on, read as a number that has its
/// lowest byte first.
pub open spec fn low_first_at(data: Seq<u8>, at: int) -> int {
    data[at] + data[at + 1] * 0x100 + data[at + 2] * 0x1_0000 + data[at + 3] * 0x100_0000 + data[at
        + 4] * 0x1_0000_0000 + data[at + 5] * 0x100_0000_0000 + data[at + 6] * 0x1_0000_0000_0000
        + data[at + 7] * 0x100_0000_0000_0000
}

/// The eight bytes of `data` from `at` on, read as a number that has its
/// highest byte first.
pub open spec fn high_first_at(data: Seq<u8>, at: int) -> int {
    data[at + 7] + data[at + 6] * 0x100 + data[at + 5] * 0x1_0000 + data[at + 4] * 0x100_0000
        + data[at + 3] * 0x1_0000_0000 + data[at + 2] * 0x100_0000_0000 + data[at + 1]
        * 0x1_0000_0000_0000 + data[at] * 0x100_0000_0000_0000
}

/// Whether `bus` is what the data of a bus account holds: the data has the
/// tag and the length of a bus account, and the bus number and the rewards
/// are the numbers at their offsets, both read in the byte order of the
/// machine, whichever of the two that is.
pub open spec fn is_bus_of(bus: Bus, data: Seq<u8>) -> bool {
    &&& data.len() == BUS_ACCOUNT_LEN
    &&& data[0] == BUS_TAG
    &&& {
        ||| {
            &&& bus.id == low_first_at(data, BUS_ID_AT as int)
            &&& bus.rewards == low_first_at(data, BUS_REWARDS_AT as int)
        }
        ||| {
            &&& bus.id == high_first_at(data, BUS_ID_AT as int)
            &&& bus.rewards == high_first_at(data, BUS_REWARDS_AT as int)
        }
    }
}

/// Trusted: decodes the data of a bus account with `try_from_bytes` of
/// `ore_utils::AccountDeserialize` on `ore_api::state::Bus`, and copies the bus
/// number and the rewards out of what it returns. Data that does not decode
/// gives `None`. The contract claims of a decoded bus what the decoder tests
/// before it hands one out, the tag in the first byte and the length, and
/// where its two fields come from: the decoder reads the account as it lies
/// in memory, the bus number in the eight bytes behind the header and the
/// rewards in the next eight, in the machine's byte order. Whether data of
/// that shape decodes is left open, since the decoder also wants it aligned
/// in memory. It reads the tag and skips the header unchecked, which
/// `requires` makes safe.
#[verifier::external_body]
fn decode_bus(data: &[u8]) -> (bus: Option<Bus>)
    requires
        data@.len() >= ACCOUNT_HEADER_LEN,
    ensures
        bus matches Some(found) ==> is_bus_of(found, data@),
{
    match <ore_api::state::Bus as ore_utils::AccountDeserialize>::try_from_bytes(data) {
        Ok(bus) => Some(Bus { id: bus.id, rewards: bus.rewards }),
        Err(_) => None,
    }
}

/// Reads a bus out of the data of its account: the bus number and the
/// rewards that the data holds. Data that has not the tag and the length of a
/// bus account is not a bus, and neither is data that the decoder refuses.
pub fn read_bus(data: &[u8]) -> (bus: Option<Bus>)
    ensures
        bus matches Some(found) ==> is_bus_of(found, data@),
        data@.len() != BUS_ACCOUNT_LEN ==> bus is None,
        data@.len() > 0 && data@[0] != BUS_TAG ==> bus is None,
{
    if data.len() >= ACCOUNT_HEADER_LEN {
        decode_bus(data)
    } else {
        None
    }
}

/// Reads the buses out of the bus accounts as fetched, place by place. An
/// account that is missing stays missing, and one that is no bus is dropped
/// from its place.
pub fn read_buses(accounts: &Vec<Option<Vec<u8>>>) -> (buses: Vec<Option<Bus>>)
    ensures
        buses@.len() == accounts@.len(),
        forall|i: int|
            0 <= i < buses@.len() && (#[trigger] buses@[i]) is Some ==> {
                &&& accounts@[i] is Some
                &&& is_bus_of(buses@[i].unwrap(), accounts@[i].unwrap()@)
            },
{
    let mut buses: Vec<Option<Bus>> = Vec::new();
    let mut i: usize = 0;
    while i < accounts.len()
        invariant
            i <= accounts.len(),
            buses@.len() == i,
            forall|k: int|
                0 <= k < buses@.len() && (#[trigger] buses@[k]) is Some ==> {
                    &&& accounts@[k] is Some
                    &&& is_bus_of(buses@[k].unwrap(), accounts@[k].unwrap()@)
                },
        decreases accounts.len() - i,
    {
        let bus = match &accounts[i] {
            Some(data) => read_bus(data.as_slice()),
            None => None,
        };
        buses.push(bus);
        i = i + 1;
    }
    buses
}

/// Whether the bus at position `k` is the richest: it holds rewards, every
/// bus before it holds strictly less, and none holds more. An account that
/// is missing or unreadable has `None` in its place and takes no part.
pub open spec fn richest_at(buses: Seq<Option<Bus>>, k: int) -> bool {
    &&& 0 <= k < buses.len()
    &&& buses[k] is Some
    &&& buses[k].unwrap().rewards > 0
    &&& forall|j: int|
        0 <= j < k && (#[trigger] buses[j]) is Some ==> buses[j].unwrap().rewards
            < buses[k].unwrap().rewards
    &&& forall|j: int|
        0 <= j < buses.len() && (#[trigger] buses[j]) is Some ==> buses[j].unwrap().rewards
            <= buses[k].unwrap().rewards
}

/// Whether `id` is the bus to mine to: the number of the richest bus, or zero
/// where no bus holds any rewards.
pub open spec fn is_richest_bus(buses: Seq<Option<Bus>>, id: u64) -> bool {
    ||| exists|k: int| #[trigger] richest_at(buses, k) && buses[k].unwrap().id == id
    ||| {
        &&& id == 0
        &&& forall|j: int|
            0 <= j < buses.len() && (#[trigger] buses[j]) is Some ==> buses[j].unwrap().rewards
                == 0
    }
}

/// The number of the bus that holds the most rewards, the earliest among
/// equals; zero where none holds any.
pub fn richest_bus(buses: &Vec<Option<Bus>>) -> (id: u64)
    ensures
        is_richest_bus(buses@, id),
{
    let mut top_rewards: u64 = 0;
    let mut top_id: u64 = 0;
    let ghost mut at: int = 0;
    let mut i: usize = 0;
    while i < buses.len()
        invariant
            i <= buses.len(),
            top_rewards == 0 ==> top_id == 0,
            top_rewards > 0 ==> 0 <= at < i && buses@[at] is Some && buses@[at].unwrap().rewards
                == top_rewards && buses@[at].unwrap().id == top_id,
            top_rewards > 0 ==> forall|j: int|
                0 <= j < at && (#[trigger] buses@[j]) is Some ==> buses@[j].unwrap().rewards
                    < top_rewards,
            forall|j: int|
                0 <= j < i && (#[trigger] buses@[j]) is Some ==> buses@[j].unwrap().rewards
                    <= top_rewards,
        decreases buses.len() - i,
    {
        match buses[i] {
            Some(bus) => {
                if bus.rewards > top_rewards {
                    top_rewards = bus.rewards;
                    top_id = bus.id;
                    proof {
                        at = i as int;
                    }
                }
            },
            None => {},
        }
        i = i + 1;
    }
    proof {
        if top_rewards > 0 {
            assert(richest_at(buses@, at));
        }
    }
    top_id
}

/// The bus to mine to: the richest one where the bus accounts were fetched,
/// and one drawn at random among `bus_count` where they were not.
pub fn pick_bus(fetched: Option<&Vec<Option<Bus>>>, bus_count: u64) -> (id: u64)
    requires
        bus_count > 0,
    ensures
        match fetched {
            Some(buses) => is_richest_bus(buses@, id),
            None => id < bus_count,
        },
{
    match fetched {
        Some(buses) => richest_bus(buses),
        None => random_below(bus_count),
    }
}

/// What a miner that asks for `cores` cores is warned of on a machine that
/// has `available`: the number of cores there are, where it asks for more.
pub open spec fn core_warning(cores: u64, available: usize) -> Option<u64> {
    if cores > available {
        Some(available as u64)
    } else {
        None
    }
}

/// Whether a miner asks for more cores than there are.
pub fn exceeds_cores(cores: u64, available: usize) -> (exceeds: bool)
    ensures
        exceeds == (cores > available),
{
    cores > available as u64
}

/// What a session remembers from one round to the next: when the miner last
/// hashed, and the stake it then had.
pub struct Miner {
    last_hash_at: i64,
    last_balance: u64,
}

impl View for Miner {
    type V = (i64, u64);

    closed spec fn view(&self) -> (i64, u64) {
        (self.last_hash_at, self.last_balance)
    }
}

impl Miner {
    /// A miner before its first round.
    pub fn new() -> (miner: Miner)
        ensures
            miner@ == (0i64, 0u64),
    {
        Miner { last_hash_at: 0, last_balance: 0 }
    }

    /// When the miner last hashed, as of the last round; zero before the first.
    pub fn last_hash_at(&self) -> (at: i64)
        ensures
            at == self@.0,
    {
        self.last_hash_at
    }

    /// Checks the number of cores asked for against the machine. Returns the
    /// number of cores there are where `cores` exceeds it, and `None` where
    /// it does not: the warning for the number of cores that the machine
    /// reports, whatever that number is. No miner is warned for asking for no
    /// core, and a miner that asks for more cores than any machine can count
    /// is always warned.
    pub fn check_num_cores(&self, cores: u64) -> (available: Option<u64>)
        ensures
            exists|n: usize| available == #[trigger] core_warning(cores, n),
            available matches Some(n) ==> cores > n,
            cores == 0 ==> available is None,
            cores > usize::MAX ==> available is Some,
    {
        let n = available_cores();
        let available = if exceeds_cores(cores, n) {
            Some(n as u64)
        } else {
            None
        };
        assert(available == core_warning(cores, n));
        available
    }

    /// Opens a round with the proof account as fetched. Returns by how much
    /// the stake grew over the last round, from the second round on, and
    /// remembers the hash time and the stake for the next.
    pub fn begin_round(&mut self, balance: u64, last_hash_at: i64) -> (change: Option<u64>)
        ensures
            final(self)@ == (last_hash_at, balance),
            change == if old(self)@.0 > 0 {
                Some(
                    if balance >= old(self)@.1 {
                        (balance - old(self)@.1) as u64
                    } else {
                        0u64
                    },
                )
            } else {
                None
            },
    {
        let change = if self.last_hash_at > 0 {
            Some(balance.saturating_sub(self.last_balance))
        } else {
            None
        };
        self.last_hash_at = last_hash_at;
        self.last_balance = balance;
        change
    }
}

} // verus!
