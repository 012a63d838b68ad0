//! Monotonically increasing, globally unique 63-bit identifiers.
//!
//! An identifier packs four fields: 41 bits of milliseconds elapsed since a
//! fixed custom epoch, a 5-bit worker id, a 5-bit process shard id and a
//! 12-bit per-millisecond sequence counter.

use vstd::prelude::*;

verus! {

/// Custom epoch of 2024-07-22T12:00:00Z in milliseconds.
pub const EPOCH: u64 = 1_721_638_800_000;

/// Largest elapsed-milliseconds value that fits the 41-bit timestamp field.
pub const MAX_ELAPSED_MS: u64 = 0x1FF_FFFF_FFFF;

/// Globally unique, time-sortable 63-bit entity identifier.
#[derive(PartialEq, Eq, Structural, PartialOrd, Ord, Copy, Clone, Hash, Debug)]
pub struct Snowflake(pub i64);

/// The packed identifier as plain arithmetic over its four bounded fields.
pub open spec fn spec_pack(elapsed: u64, worker: u32, shard: u32, seq: u16) -> int {
    elapsed * 0x40_0000 + worker * 0x2_0000 + shard * 0x1000 + seq
}

/// Timestamp field of a packed identifier.
pub open spec fn spec_timestamp_of(id: int) -> int {
    id / 0x40_0000
}

/// Worker-id field of a packed identifier.
pub open spec fn spec_worker_of(id: int) -> int {
    (id / 0x2_0000) % 32
}

/// Produces [`Snowflake`] values: packs the elapsed time handed to each
/// call together with the worker identity and a per-millisecond sequence
/// counter that resets whenever the millisecond bucket changes and
/// otherwise wraps modulo 4096 without waiting.
pub struct SnowflakeBuilder {
    /// Custom epoch in milliseconds; elapsed time is measured from here.
    pub epoch: u64,
    /// 5-bit identity of this worker.
    pub worker_id: u32,
    /// 5-bit shard derived from the process identity.
    pub shard_id: u32,
    /// Sequence counter within the current millisecond bucket.
    pub increment: u16,
    /// Elapsed-milliseconds bucket of the most recent call.
    pub last_elapsed: u64,
}

impl SnowflakeBuilder {
    /// Field bounds every operation preserves.
    pub open spec fn wf(&self) -> bool {
        &&& self.worker_id < 32
        &&& self.shard_id < 32
        &&& self.increment < 4096
        &&& self.last_elapsed <= MAX_ELAPSED_MS
    }

    /// A fresh builder with the sequence counter at zero.
    pub fn new(epoch: u64, worker_id: u32, shard_id: u32) -> (b: SnowflakeBuilder)
        requires
            worker_id < 32,
            shard_id < 32,
        ensures
            b.wf(),
            b.epoch == epoch,
            b.worker_id == worker_id,
            b.shard_id == shard_id,
            b.increment == 0,
            b.last_elapsed == 0,
    {
        SnowflakeBuilder { epoch, worker_id, shard_id, increment: 0, last_elapsed: 0 }
    }

    /// Packs a new identifier for the current reading of the clock.
    ///
    /// The caller supplies the clock reading; the builder derives the
    /// elapsed-milliseconds bucket, resets or advances the sequence
    /// counter, and packs the four fields.
    pub fn build(&mut self, now_ms: u64) -> (id: Snowflake)
        requires
            old(self).wf(),
            old(self).epoch <= now_ms,
            now_ms - old(self).epoch <= MAX_ELAPSED_MS,
        ensures
            final(self).wf(),
            final(self).epoch == old(self).epoch,
            final(self).worker_id == old(self).worker_id,
            final(self).shard_id == old(self).shard_id,
            final(self).last_elapsed == now_ms - old(self).epoch,
            final(self).increment == if now_ms - old(self).epoch != old(self).last_elapsed {
                0int
            } else {
                ((old(self).increment + 1) % 4096) as int
            },
            id.0 == spec_pack(
                final(self).last_elapsed,
                old(self).worker_id,
                old(self).shard_id,
                final(self).increment,
            ),
            0 <= id.0 < 0x8000_0000_0000_0000,
    {
        let elapsed: u64 = now_ms - self.epoch;
        if elapsed != self.last_elapsed {
            self.increment = 0;
        } else {
            self.increment = (self.increment + 1) % 4096;
        }
        self.last_elapsed = elapsed;
        let packed: u64 = elapsed * 0x40_0000 + (self.worker_id as u64) * 0x2_0000
            + (self.shard_id as u64) * 0x1000 + (self.increment as u64);
        Snowflake(packed as i64)
    }
}

/// Packing is strictly increasing in the (timestamp, sequence) pair for a
/// fixed worker and shard: later milliseconds, or a later sequence number
/// within the same millisecond, always yield a numerically larger
/// identifier.
pub proof fn lemma_pack_increasing(e1: u64, e2: u64, worker: u32, shard: u32, q1: u16, q2: u16)
    requires
        e1 <= MAX_ELAPSED_MS,
        e2 <= MAX_ELAPSED_MS,
        worker < 32,
        shard < 32,
        q1 < 4096,
        q2 < 4096,
        e1 < e2 || (e1 == e2 && q1 < q2),
    ensures
        spec_pack(e1, worker, shard, q1) < spec_pack(e2, worker, shard, q2),
{
}

/// Successive calls on one builder never produce a non-increasing
/// identifier as long as the clock does not move backward: whatever a
/// builder's state after a call, the identifier packed at any
/// later-or-equal clock reading is strictly larger, unless the sequence
/// counter wraps within the same millisecond.
pub proof fn lemma_build_monotonic(b: SnowflakeBuilder, now2: u64)
    requires
        b.wf(),
        b.epoch <= now2,
        now2 - b.epoch <= MAX_ELAPSED_MS,
        now2 - b.epoch >= b.last_elapsed,
        !(now2 - b.epoch == b.last_elapsed && b.increment == 4095),
    ensures
        spec_pack(b.last_elapsed, b.worker_id, b.shard_id, b.increment) < spec_pack(
            (now2 - b.epoch) as u64,
            b.worker_id,
            b.shard_id,
            if now2 - b.epoch != b.last_elapsed {
                0u16
            } else {
                ((b.increment + 1) % 4096) as u16
            },
        ),
{
    let e2: u64 = (now2 - b.epoch) as u64;
    if e2 == b.last_elapsed {
        assert(((b.increment + 1) % 4096) as u16 == b.increment + 1);
        lemma_pack_increasing(
            b.last_elapsed,
            e2,
            b.worker_id,
            b.shard_id,
            b.increment,
            (b.increment + 1) as u16,
        );
    } else {
        lemma_pack_increasing(b.last_elapsed, e2, b.worker_id, b.shard_id, b.increment, 0);
    }
}

/// The timestamp and worker fields decode from a packed identifier.
pub proof fn lemma_pack_fields(elapsed: u64, worker: u32, shard: u32, seq: u16)
    requires
        elapsed <= MAX_ELAPSED_MS,
        worker < 32,
        shard < 32,
        seq < 4096,
    ensures
        spec_timestamp_of(spec_pack(elapsed, worker, shard, seq)) == elapsed,
        spec_worker_of(spec_pack(elapsed, worker, shard, seq)) == worker,
{
    let low = worker * 0x2_0000 + shard * 0x1000 + seq;
    assert(low < 0x40_0000);
    assert(spec_pack(elapsed, worker, shard, seq) == elapsed * 0x40_0000 + low);
    assert((elapsed * 0x40_0000 + low) / 0x40_0000 == elapsed) by (nonlinear_arith)
        requires 0 <= low < 0x40_0000;
    let mid = shard * 0x1000 + seq;
    assert(mid < 0x2_0000);
    assert((elapsed * 0x40_0000 + worker * 0x2_0000 + mid) / 0x2_0000
        == elapsed * 32 + worker) by (nonlinear_arith)
        requires 0 <= mid < 0x2_0000;
    assert((elapsed * 32 + worker) % 32 == worker) by (nonlinear_arith)
        requires 0 <= worker < 32;
}

/// Two generators with different worker ids never produce equal output,
/// whatever their timestamps, shards and sequence numbers.
pub proof fn lemma_pack_distinct_workers(
    e1: u64, w1: u32, s1: u32, q1: u16,
    e2: u64, w2: u32, s2: u32, q2: u16,
)
    requires
        e1 <= MAX_ELAPSED_MS,
        e2 <= MAX_ELAPSED_MS,
        w1 < 32,
        w2 < 32,
        s1 < 32,
        s2 < 32,
        q1 < 4096,
        q2 < 4096,
        w1 != w2,
    ensures
        spec_pack(e1, w1, s1, q1) != spec_pack(e2, w2, s2, q2),
{
    lemma_pack_fields(e1, w1, s1, q1);
    lemma_pack_fields(e2, w2, s2, q2);
}

} // verus!
