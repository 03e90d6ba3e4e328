//! Snowflake identifier generation.
//!
//! Identifiers pack a 41-bit millisecond timestamp, a 10-bit machine
//! discriminator and a 12-bit per-millisecond counter into one non-negative
//! 64-bit integer. A generator owns its mutable state exclusively (`&mut
//! self`), so two callers can never interleave inside one mint; every id a
//! generator hands out is strictly greater than every id it handed out
//! before, whatever the clock reports.

use vstd::prelude::*;
use crate::errors::AppError;

verus! {

/// The largest representable timestamp: 2^41 - 1 milliseconds.
pub const MAX_TIMESTAMP_MILLIS: u64 = 0x1FFFFFFFFFF;

/// The largest per-millisecond counter value: 2^12 - 1.
pub const MAX_SEQUENCE: u64 = 0xFFF;

/// The largest machine discriminator: 2^10 - 1.
pub const MAX_MACHINE: u64 = 0x3FF;

/// The coordinated source of snowflake identifiers. Its state is the key
/// of the last id handed out; minting advances that key strictly.
#[derive(Debug)]
pub struct SnowflakeGenerator {
    pub last_millis: u64,
    pub sequence: u64,
    pub machine: u64,
}

impl SnowflakeGenerator {
    /// The state's fields sit inside their bit widths.
    pub open spec fn valid(self) -> bool {
        self.last_millis <= MAX_TIMESTAMP_MILLIS && self.sequence <= MAX_SEQUENCE
            && self.machine <= MAX_MACHINE
    }

    /// The id encoded by the current state: timestamp, machine and counter
    /// packed into disjoint bit ranges.
    pub open spec fn id_of(self) -> int {
        self.last_millis * 0x400000 + self.machine * 0x1000 + self.sequence
    }

    /// No id above the current one can be represented any more.
    pub open spec fn exhausted(self, now_millis: u64) -> bool {
        self.last_millis == MAX_TIMESTAMP_MILLIS && self.sequence == MAX_SEQUENCE && !(
        self.last_millis < now_millis <= MAX_TIMESTAMP_MILLIS)
    }

    /// A fresh generator for the given machine discriminator.
    pub fn new(machine: u64) -> (r: SnowflakeGenerator)
        requires
            machine <= MAX_MACHINE,
        ensures
            r.valid(),
            r.machine == machine,
            r.last_millis == 0,
            r.sequence == 0,
    {
        SnowflakeGenerator { last_millis: 0, sequence: 0, machine }
    }

    /// Mints the next identifier. The clock reading only moves the
    /// timestamp forward when it exceeds the stored one; otherwise the
    /// counter, and if need be the stored timestamp, advances, so the
    /// returned id is strictly greater than every id minted before, for
    /// every clock value. `None` only when the id space is exhausted.
    pub fn next_id(&mut self, now_millis: u64) -> (r: Option<i64>)
        requires
            old(self).valid(),
        ensures
            final(self).valid(),
            final(self).machine == old(self).machine,
            r is None <==> old(self).exhausted(now_millis),
            r matches Some(id) ==> 0 <= id == final(self).id_of() && final(self).id_of() > old(
                self,
            ).id_of(),
            r is None ==> *final(self) == *old(self),
    {
        if self.last_millis < now_millis && now_millis <= MAX_TIMESTAMP_MILLIS {
            self.last_millis = now_millis;
            self.sequence = 0;
        } else if self.sequence < MAX_SEQUENCE {
            self.sequence = self.sequence + 1;
        } else if self.last_millis < MAX_TIMESTAMP_MILLIS {
            self.last_millis = self.last_millis + 1;
            self.sequence = 0;
        } else {
            return None;
        }
        let id: u64 = self.last_millis * 0x400000 + self.machine * 0x1000 + self.sequence;
        Some(id as i64)
    }
}

/// Relies on chrono::Utc::now and chrono::DateTime::timestamp_millis: the
/// number of non-leap milliseconds since the Unix epoch. The reading
/// depends on the wall clock, so nothing is promised of the value.
#[verifier::external_body]
fn now_unix_millis() -> i64 {
    chrono::Utc::now().timestamp_millis()
}

/// Mints a fresh experiment identifier from the wall clock. Whatever the
/// clock reports, the id is strictly greater than every id this generator
/// returned before; an error can only arise once the generator's id space
/// is exhausted.
pub fn generate_snowflake_id(generator: &mut SnowflakeGenerator) -> (r: Result<i64, AppError>)
    requires
        old(generator).valid(),
    ensures
        final(generator).valid(),
        final(generator).machine == old(generator).machine,
        r matches Ok(id) ==> 0 <= id == final(generator).id_of() && final(generator).id_of() > old(
            generator,
        ).id_of(),
        r is Err ==> old(generator).last_millis == MAX_TIMESTAMP_MILLIS && old(generator).sequence
            == MAX_SEQUENCE,
        !(old(generator).last_millis == MAX_TIMESTAMP_MILLIS && old(generator).sequence
            == MAX_SEQUENCE) ==> r is Ok,
{
    let raw = now_unix_millis();
    let now: u64 = if raw >= 0 {
        raw as u64
    } else {
        0
    };
    match generator.next_id(now) {
        Some(id) => Ok(id),
        None => Err(
            AppError::ConcurrencyError("snowflake id generation failed".to_owned()),
        ),
    }
}

/// In a strictly increasing sequence every two positions differ.
proof fn lemma_increasing_at(ids: Seq<int>, i: int, j: int)
    requires
        forall|k: int| 0 <= k < ids.len() - 1 ==> #[trigger] ids[k] < ids[k + 1],
        0 <= i < j < ids.len(),
    ensures
        ids[i] < ids[j],
    decreases j - i,
{
    if j > i + 1 {
        lemma_increasing_at(ids, i, j - 1);
    }
}

/// Ids minted one after another by one generator are pairwise distinct:
/// each call hands back the id its post-state encodes, strictly above the
/// id encoded before, so no two calls can ever return the same value.
pub proof fn lemma_minted_ids_pairwise_distinct(ids: Seq<int>, states: Seq<SnowflakeGenerator>)
    requires
        states.len() == ids.len() + 1,
        forall|k: int| 0 <= k < ids.len() ==> ids[k] == #[trigger] states[k + 1].id_of()
            && states[k + 1].id_of() > states[k].id_of(),
    ensures
        forall|i: int, j: int| 0 <= i < j < ids.len() ==> ids[i] != ids[j],
{
    assert forall|i: int, j: int| 0 <= i < j < ids.len() implies ids[i] != ids[j] by {
        assert forall|k: int| 0 <= k < ids.len() - 1 implies #[trigger] ids[k] < ids[k + 1] by {
            let k2 = k + 1;
            assert(ids[k] == states[k + 1].id_of());
            assert(ids[k2] == states[k2 + 1].id_of() && states[k2 + 1].id_of()
                > states[k2].id_of());
        }
        lemma_increasing_at(ids, i, j);
    }
}

} // verus!
