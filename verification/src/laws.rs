//! What holds of the identifiers a generator mints, proved from the minting
//! rule and the layout.
use vstd::prelude::*;
use vstd::arithmetic::power2::pow2;
use crate::bits::field_max;
use crate::bits::lemma_clear_below;
use crate::bits::lemma_field_fits;
use crate::bits::lemma_mask_increment;
use crate::bits::lemma_or_below_next;
use crate::bits::lemma_or_bound;
use crate::bits::lemma_or_distributes;
use crate::bits::lemma_or_low;
use crate::bits::lemma_or_regroup;
use crate::bits::lemma_shl_is_times_pow2;
use crate::bits::lemma_shl_low_clear;
use crate::bits::lemma_shl_monotone;
use crate::builder::Settings;
use crate::generator::minted_ids;
use crate::generator::Attempt;
use crate::generator::SnowflakeState;

verus! {

/// Four fields packed side by side: each can be read back through its shift
/// and mask, and the word is the timestamp part plus what lies below it.
proof fn lemma_packed(delta: u64, dc: u64, w: u64, seq: u64, ws: u64, dcs: u64, tls: u64)
    requires
        ws <= dcs <= tls <= 63,
        seq <= field_max(ws),
        w <= field_max((dcs - ws) as u64),
        dc <= field_max((tls - dcs) as u64),
    ensures
        ({
            let upper = (delta << tls) | (dc << dcs) | (w << ws);
            let lower = ((dc << dcs) | (w << ws)) | seq;
            let id = upper | seq;
            &&& id & field_max(ws) == seq
            &&& (id >> ws) & field_max((dcs - ws) as u64) == w
            &&& (id >> dcs) & field_max((tls - dcs) as u64) == dc
            &&& delta <= (u64::MAX >> tls) ==> id >> tls == delta
            &&& id == upper + seq
            &&& id == (delta << tls) | lower
            &&& id == (delta << tls) + lower
            &&& id == (delta << tls) + (dc << dcs) + (w << ws) + seq
            &&& dc <= (u64::MAX >> dcs)
            &&& w <= (u64::MAX >> ws)
            &&& lower <= field_max(tls)
            &&& (delta << tls) & field_max(tls) == 0
        }),
{
    let t = delta << tls;
    let d = dc << dcs;
    let v = w << ws;
    let td = t | d;
    let upper = td | v;
    let id = upper | seq;
    lemma_shl_low_clear(delta, tls);
    lemma_shl_low_clear(dc, dcs);
    lemma_shl_low_clear(w, ws);
    lemma_clear_below(t, dcs, tls);
    lemma_clear_below(t, ws, tls);
    lemma_clear_below(d, ws, dcs);
    lemma_or_distributes(t, d, field_max(dcs), dcs);
    lemma_clear_below(td, ws, dcs);
    lemma_or_distributes(td, v, field_max(ws), ws);
    lemma_or_low(upper, seq, ws);
    // the worker id
    lemma_field_fits(w, ws, dcs);
    lemma_or_low(td >> ws, w, (dcs - ws) as u64);
    // the datacenter id
    lemma_or_regroup(t, d, v, seq);
    lemma_or_bound(v, seq, ws, dcs);
    lemma_or_low(td, v | seq, dcs);
    lemma_field_fits(dc, dcs, tls);
    lemma_or_low(t >> dcs, dc, (tls - dcs) as u64);
    // the timestamp
    lemma_or_bound(d, v, dcs, tls);
    lemma_or_bound(d | v, seq, ws, tls);
    lemma_or_low(t, (d | v) | seq, tls);
    // the sum
    lemma_clear_below(v, ws, ws);
    lemma_or_distributes(d, v, field_max(ws), ws);
    lemma_or_low(d, v, dcs);
    lemma_or_low(d | v, seq, ws);
}

/// Packed words are ordered by timestamp first and by sequence second.
proof fn lemma_packed_order(
    d1: u64,
    s1: u64,
    d2: u64,
    s2: u64,
    dc: u64,
    w: u64,
    ws: u64,
    dcs: u64,
    tls: u64,
)
    requires
        ws <= dcs <= tls <= 63,
        s1 <= field_max(ws),
        s2 <= field_max(ws),
        w <= field_max((dcs - ws) as u64),
        dc <= field_max((tls - dcs) as u64),
        d1 <= (u64::MAX >> tls),
        d2 <= (u64::MAX >> tls),
        d1 < d2 || (d1 == d2 && s1 < s2),
    ensures
        ((d1 << tls) | (dc << dcs) | (w << ws) | s1) < ((d2 << tls) | (dc << dcs) | (w << ws)
            | s2),
{
    lemma_packed(d1, dc, w, s1, ws, dcs, tls);
    lemma_packed(d2, dc, w, s2, ws, dcs, tls);
    if d1 < d2 {
        lemma_shl_monotone(d1, d2, tls);
        lemma_or_below_next(d1 << tls, d2 << tls, ((dc << dcs) | (w << ws)) | s1, tls);
    }
}

/// Settings whose widths add up to at most 63 bits, and whose instance ids
/// are in range, build a well-formed generator: each field starts where the
/// one below it ends, and keeps the width it was given.
pub proof fn lemma_built_is_well_formed(settings: Settings)
    requires
        settings.ids_in_range(),
        settings.sequence_bits + settings.worker_id_bits + settings.datacenter_id_bits <= 63,
    ensures
        settings.rejection() is None,
        settings.initial_state().wf(),
        settings.worker_id_shift() == settings.sequence_bits,
        settings.datacenter_id_shift() == settings.sequence_bits + settings.worker_id_bits,
        settings.timestamp_left_shift() == settings.sequence_bits + settings.worker_id_bits
            + settings.datacenter_id_bits,
        settings.initial_state().worker_id_bits() == settings.worker_id_bits,
        settings.initial_state().datacenter_id_bits() == settings.datacenter_id_bits,
{
}

/// A well-formed state stays well-formed whatever the clock reads, and once
/// an identifier is minted the sequence is within its field.
pub proof fn lemma_well_formed_is_kept(g: SnowflakeState, now: i64)
    requires
        g.wf(),
    ensures
        g.after(now).wf(),
        g.attempt(now) is Minted ==> g.after(now).sequence_in_range(),
        g.sequence_in_range() ==> g.after(now).sequence_in_range(),
        g.attempt(now) matches Attempt::Minted(id) ==> g.after(now).last_id() == id,
{
    lemma_mask_increment(g.sequence, g.worker_id_shift);
}

/// Every field of a minted identifier can be read back through its shift
/// and mask: the two instance ids, the sequence the generator has recorded,
/// and, for a timestamp the layout can hold, the milliseconds since the
/// epoch.
pub proof fn lemma_fields_decode(g: SnowflakeState, now: i64, id: u64)
    requires
        g.wf(),
        g.attempt(now) == Attempt::Minted(id),
    ensures
        g.datacenter_id_of(id) == g.datacenter_id,
        g.worker_id_of(id) == g.worker_id,
        g.sequence_of(id) == g.after(now).sequence,
        g.encodable(now) ==> g.elapsed_of(id) == now - g.epoch,
{
    lemma_mask_increment(g.sequence, g.worker_id_shift);
    lemma_packed(
        g.delta(now),
        g.datacenter_id,
        g.worker_id,
        g.sequence_at(now),
        g.worker_id_shift,
        g.datacenter_id_shift,
        g.timestamp_left_shift,
    );
}

/// In a well-formed layout that can hold the timestamp, the identifier is
/// the sum of its fields, each times the power of two of its shift: the
/// fields do not overlap.
pub proof fn lemma_id_is_sum_of_fields(g: SnowflakeState, timestamp: i64, sequence: u64)
    requires
        g.wf(),
        g.encodable(timestamp),
        sequence <= g.max_sequence,
    ensures
        g.encode(timestamp, sequence) == (timestamp - g.epoch) * pow2(
            g.timestamp_left_shift as nat,
        ) + g.datacenter_id * pow2(g.datacenter_id_shift as nat) + g.worker_id * pow2(
            g.worker_id_shift as nat,
        ) + sequence,
{
    lemma_packed(
        g.delta(timestamp),
        g.datacenter_id,
        g.worker_id,
        sequence,
        g.worker_id_shift,
        g.datacenter_id_shift,
        g.timestamp_left_shift,
    );
    lemma_shl_is_times_pow2(g.delta(timestamp), g.timestamp_left_shift);
    lemma_shl_is_times_pow2(g.datacenter_id, g.datacenter_id_shift);
    lemma_shl_is_times_pow2(g.worker_id, g.worker_id_shift);
}

/// Every identifier is greater than the one before it, as long as the
/// layout can hold the timestamps: so no identifier is handed out twice,
/// and identifiers sort by the time of their minting.
pub proof fn lemma_ids_increase(g: SnowflakeState, now: i64, id: u64)
    requires
        g.wf(),
        g.sequence_in_range(),
        g.encodable(g.last_timestamp),
        g.encodable(now),
        g.attempt(now) == Attempt::Minted(id),
    ensures
        g.last_id() < id,
{
    lemma_mask_increment(g.sequence, g.worker_id_shift);
    lemma_packed_order(
        g.delta(g.last_timestamp),
        g.sequence,
        g.delta(now),
        g.sequence_at(now),
        g.datacenter_id,
        g.worker_id,
        g.worker_id_shift,
        g.datacenter_id_shift,
        g.timestamp_left_shift,
    );
}

/// From a state that has minted before, every identifier of a run is
/// greater than the last one minted before the run, and the run increases.
proof fn lemma_run_above_last(g: SnowflakeState, readings: Seq<i64>)
    requires
        g.wf(),
        g.sequence_in_range(),
        g.encodable(g.last_timestamp),
        forall|i: int| 0 <= i < readings.len() ==> g.encodable(#[trigger] readings[i]),
    ensures
        forall|k: int|
            0 <= k < minted_ids(g, readings).len() ==> g.last_id() < #[trigger] minted_ids(
                g,
                readings,
            )[k],
        forall|i: int, j: int|
            0 <= i < j < minted_ids(g, readings).len() ==> minted_ids(g, readings)[i]
                < minted_ids(g, readings)[j],
    decreases readings.len(),
{
    if readings.len() > 0 {
        let next = g.after(readings[0]);
        let rest = readings.drop_first();
        lemma_well_formed_is_kept(g, readings[0]);
        assert forall|i: int| 0 <= i < rest.len() implies next.encodable(#[trigger] rest[i]) by {
            assert(rest[i] == readings[i + 1]);
        }
        lemma_run_above_last(next, rest);
        let ids = minted_ids(g, readings);
        let later = minted_ids(next, rest);
        if let Attempt::Minted(id) = g.attempt(readings[0]) {
            lemma_ids_increase(g, readings[0], id);
            assert(ids == seq![id] + later);
            assert forall|k: int| 0 <= k < ids.len() implies g.last_id() < #[trigger] ids[k] by {
                if k > 0 {
                    assert(ids[k] == later[k - 1]);
                }
            }
            assert forall|i: int, j: int| 0 <= i < j < ids.len() implies ids[i] < ids[j] by {
                assert(ids[j] == later[j - 1]);
                if i > 0 {
                    assert(ids[i] == later[i - 1]);
                }
            }
        } else {
            assert(ids == later);
        }
    }
}

/// Whatever the clock reads, call after call, the identifiers that a
/// well-formed generator mints increase strictly, as long as the layout can
/// hold the readings: none is minted twice, and they sort by the time of
/// their minting. A reading earlier than the last identifier mints nothing,
/// so a clock that runs backwards cannot break the order.
pub proof fn lemma_minted_ids_increase(g: SnowflakeState, readings: Seq<i64>)
    requires
        g.wf(),
        forall|i: int| 0 <= i < readings.len() ==> g.encodable(#[trigger] readings[i]),
    ensures
        forall|i: int, j: int|
            0 <= i < j < minted_ids(g, readings).len() ==> minted_ids(g, readings)[i]
                < minted_ids(g, readings)[j],
    decreases readings.len(),
{
    if readings.len() > 0 {
        let next = g.after(readings[0]);
        let rest = readings.drop_first();
        lemma_well_formed_is_kept(g, readings[0]);
        assert forall|i: int| 0 <= i < rest.len() implies next.encodable(#[trigger] rest[i]) by {
            assert(rest[i] == readings[i + 1]);
        }
        let ids = minted_ids(g, readings);
        let later = minted_ids(next, rest);
        if let Attempt::Minted(id) = g.attempt(readings[0]) {
            lemma_run_above_last(next, rest);
            assert(ids == seq![id] + later);
            assert forall|i: int, j: int| 0 <= i < j < ids.len() implies ids[i] < ids[j] by {
                assert(ids[j] == later[j - 1]);
                if i > 0 {
                    assert(ids[i] == later[i - 1]);
                }
            }
        } else {
            lemma_minted_ids_increase(next, rest);
            assert(ids == later);
        }
    }
}

/// An identifier minted in the millisecond of the one before it is that
/// identifier plus one: the sequence field is one higher, and the timestamp
/// and both instance ids are the same.
pub proof fn lemma_same_millisecond_adds_one(g: SnowflakeState, id: u64)
    requires
        g.wf(),
        g.sequence_in_range(),
        g.attempt(g.last_timestamp) == Attempt::Minted(id),
    ensures
        id == g.last_id() + 1,
        g.sequence_of(id) == g.sequence_of(g.last_id()) + 1,
        g.worker_id_of(id) == g.worker_id_of(g.last_id()),
        g.datacenter_id_of(id) == g.datacenter_id_of(g.last_id()),
        g.elapsed_of(id) == g.elapsed_of(g.last_id()),
{
    lemma_mask_increment(g.sequence, g.worker_id_shift);
    let delta = g.delta(g.last_timestamp);
    lemma_packed(
        delta,
        g.datacenter_id,
        g.worker_id,
        g.sequence,
        g.worker_id_shift,
        g.datacenter_id_shift,
        g.timestamp_left_shift,
    );
    lemma_packed(
        delta,
        g.datacenter_id,
        g.worker_id,
        g.next_sequence(),
        g.worker_id_shift,
        g.datacenter_id_shift,
        g.timestamp_left_shift,
    );
    let t = delta << g.timestamp_left_shift;
    let below = (g.datacenter_id << g.datacenter_id_shift) | (g.worker_id << g.worker_id_shift);
    lemma_or_low(t, below | g.sequence, g.timestamp_left_shift);
    lemma_or_low(t, below | g.next_sequence(), g.timestamp_left_shift);
}

/// Once the sequence has wrapped within a millisecond, the next identifier
/// carries a later timestamp and the sequence 0.
pub proof fn lemma_wrap_moves_to_later_millisecond(g: SnowflakeState, now: i64, id: u64)
    requires
        g.wf(),
        g.sequence_in_range(),
        g.next_sequence() == 0,
        g.encodable(g.last_timestamp),
        g.encodable(now),
        g.attempt(now) == Attempt::Minted(id),
    ensures
        now > g.last_timestamp,
        g.sequence_of(id) == 0,
        g.elapsed_of(id) > g.elapsed_of(g.last_id()),
{
    lemma_packed(
        g.delta(g.last_timestamp),
        g.datacenter_id,
        g.worker_id,
        g.sequence,
        g.worker_id_shift,
        g.datacenter_id_shift,
        g.timestamp_left_shift,
    );
    lemma_packed(
        g.delta(now),
        g.datacenter_id,
        g.worker_id,
        0,
        g.worker_id_shift,
        g.datacenter_id_shift,
        g.timestamp_left_shift,
    );
}

/// Generators built from the same settings answer the same clock readings
/// with the same identifiers. Nothing tells two instances apart but the
/// datacenter id and worker id they were given: handing each instance a
/// pair of its own is the caller's part.
pub proof fn lemma_same_settings_same_ids(a: Settings, b: Settings, now: i64)
    requires
        a == b,
    ensures
        a.initial_state().attempt(now) == b.initial_state().attempt(now),
        a.initial_state().after(now) == b.initial_state().after(now),
{
}

} // verus!
