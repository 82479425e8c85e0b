//! The integer parts of the synthetic price history: the seed hashed from the price, the
//! start-price offset, the daily noise and the daily volume, all derived from the seed by
//! wrapping arithmetic, and which days are trading days.
use vstd::prelude::*;
use std::hash::BuildHasher;

verus! {

/// 2^64, the modulus of `u64` wrapping arithmetic.
pub open spec fn two_pow_64() -> int {
    0x1_0000_0000_0000_0000
}

/// The start price is the current close times (75 + offset) percent.
pub open spec fn start_offset_spec(seed: u64) -> int {
    (seed % 50) as int
}

/// The noise of day `day`, in tenths of a per mille: a linear-congruential step on
/// `seed + day`, reduced modulo 1000.
pub open spec fn noise_step_spec(seed: u64, day: u64) -> int {
    ((((seed + day) % two_pow_64()) * 6364136223846793005) % two_pow_64()
        + 1442695040888963407) % two_pow_64() % 1000
}

/// The traded volume of day `day`: 100,000 plus a value below 9,900,000 derived from
/// `seed + day`.
pub open spec fn volume_spec(seed: u64, day: u64) -> int {
    100_000 + ((((seed + day) % two_pow_64()) * 1234567891) % two_pow_64()) % 9_900_000
}

/// The percentage points (0 to 49) added to 75 to get the start price.
pub fn start_offset(seed: u64) -> (r: u64)
    ensures
        r == start_offset_spec(seed),
        r < 50,
{
    seed % 50
}

/// The raw noise of a day, below 1000; the daily change is `raw / 10000 - 0.05`.
pub fn noise_step(seed: u64, day: u64) -> (r: u64)
    ensures
        r == noise_step_spec(seed, day),
        r < 1000,
{
    let x = seed.wrapping_add(day);
    let y = x.wrapping_mul(6364136223846793005);
    let z = y.wrapping_add(1442695040888963407);
    z % 1000
}

/// The traded volume of a day, from 100,000 to 9,999,999.
pub fn daily_volume(seed: u64, day: u64) -> (r: u64)
    ensures
        r == volume_spec(seed, day),
        100_000 <= r < 10_000_000,
{
    let x = seed.wrapping_add(day);
    let y = x.wrapping_mul(1234567891);
    100_000 + y % 9_900_000
}

/// Whether the exchange trades on a day, given as days from Monday (0 for Monday to 6 for
/// Sunday): every weekday, and no Saturday or Sunday.
pub fn is_trading_day(days_from_monday: u32) -> (r: bool)
    ensures
        r == (days_from_monday < 5),
{
    days_from_monday < 5
}

/// The integer steps of a synthetic history of `days` days: the seed, the start-price
/// offset, and for each day its raw noise and its volume.
pub struct SyntheticPlan {
    pub seed: u64,
    pub start_offset: u64,
    pub noise: Vec<u64>,
    pub volume: Vec<u64>,
}

/// `p` holds, for `days` days, the steps that its seed gives.
pub open spec fn plan_follows_seed(p: SyntheticPlan, days: nat) -> bool {
    &&& p.start_offset == start_offset_spec(p.seed)
    &&& p.noise@.len() == days
    &&& p.volume@.len() == days
    &&& forall|i: int| 0 <= i < days ==> #[trigger] p.noise@[i] == noise_step_spec(p.seed, i as u64)
    &&& forall|i: int| 0 <= i < days ==> #[trigger] p.volume@[i] == volume_spec(p.seed, i as u64)
}

/// The steps of a synthetic history of `days` days from `seed`.
pub fn plan_for_seed(seed: u64, days: usize) -> (p: SyntheticPlan)
    ensures
        p.seed == seed,
        plan_follows_seed(p, days as nat),
{
    let mut noise: Vec<u64> = Vec::new();
    let mut volume: Vec<u64> = Vec::new();
    let mut i: usize = 0;
    while i < days
        invariant
            i <= days,
            noise@.len() == i,
            volume@.len() == i,
            forall|j: int| 0 <= j < i ==> #[trigger] noise@[j] == noise_step_spec(seed, j as u64),
            forall|j: int| 0 <= j < i ==> #[trigger] volume@[j] == volume_spec(seed, j as u64),
        decreases days - i,
    {
        noise.push(noise_step(seed, i as u64));
        volume.push(daily_volume(seed, i as u64));
        i = i + 1;
    }
    SyntheticPlan { seed, start_offset: start_offset(seed), noise, volume }
}

/// `BuildHasher::hash_one` with the default builder of `DefaultHasher`: the value hashed
/// into `DefaultHasher::new()`, then finished. The keys of `DefaultHasher::new` are fixed,
/// but `u64` hashes its native-endian bytes and std does not fix the algorithm, so nothing
/// is stated of the result.
#[verifier::external_body]
fn hash_price_bits(close_bits: u64) -> u64 {
    std::hash::BuildHasherDefault::<std::collections::hash_map::DefaultHasher>::default().hash_one(
        close_bits,
    )
}

/// The steps of the synthetic history of a price given by its bits: the seed is the hash of
/// the bits, and every step follows from the seed.
pub fn synthetic_plan(close_bits: u64, days: usize) -> (p: SyntheticPlan)
    ensures
        plan_follows_seed(p, days as nat),
{
    plan_for_seed(hash_price_bits(close_bits), days)
}

/// Whether the day `offset` days after a day with weekday `start` (days from Monday) is a
/// trading day.
pub open spec fn trading_offset(start: u32, offset: int) -> bool {
    (start + offset) % 7 < 5
}

/// The offsets below `days`, in increasing order, of the trading days counted from a day
/// whose weekday is `start_days_from_monday`: each day after it moves one weekday on.
pub fn trading_day_offsets(start_days_from_monday: u32, days: usize) -> (r: Vec<usize>)
    ensures
        forall|p: int, q: int| 0 <= p < q < r@.len() ==> #[trigger] r@[p] < #[trigger] r@[q],
        forall|p: int| 0 <= p < r@.len() ==> #[trigger] r@[p] < days && trading_offset(start_days_from_monday, r@[p] as int),
        forall|i: int| 0 <= i < days && trading_offset(start_days_from_monday, i) ==> r@.contains(i as usize),
{
    let mut r: Vec<usize> = Vec::new();
    let mut i: usize = 0;
    while i < days
        invariant
            i <= days,
            forall|p: int, q: int| 0 <= p < q < r@.len() ==> #[trigger] r@[p] < #[trigger] r@[q],
            forall|p: int| 0 <= p < r@.len() ==> #[trigger] r@[p] < i && trading_offset(start_days_from_monday, r@[p] as int),
            forall|j: int| 0 <= j < i && trading_offset(start_days_from_monday, j) ==> r@.contains(j as usize),
        decreases days - i,
    {
        let weekday: u128 = (start_days_from_monday as u128 + i as u128) % 7;
        if is_trading_day(weekday as u32) {
            let ghost old_r = r@;
            r.push(i);
            proof {
                assert forall|j: int| 0 <= j < i + 1 && trading_offset(start_days_from_monday, j) implies r@.contains(j as usize) by {
                    if j < i {
                        let p = choose|p: int| 0 <= p < old_r.len() && old_r[p] == j as usize;
                        assert(r@[p] == j as usize);
                    } else {
                        assert(r@[old_r.len() as int] == i);
                    }
                }
            }
        }
        i = i + 1;
    }
    r
}

} // verus!
