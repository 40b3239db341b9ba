//! Per-identifier statistics and their fixed-width stored form.
//!
//! A record is stored as 28 bytes: the view counter as four big-endian bytes,
//! then the three instants (created, updated, last viewed) as eight-byte
//! big-endian two's-complement counts of seconds since the Unix epoch.

use chrono::DateTime;
use chrono::Utc;
use vstd::prelude::*;

verus! {

/// The length of a stored record, in bytes.
pub const STATS_SIZE: usize = 28;

/// The earliest instant the calendar can represent, in seconds since the epoch.
pub const MIN_TIMESTAMP: i64 = -8_334_601_228_800;

/// The latest instant the calendar can represent, in seconds since the epoch.
pub const MAX_TIMESTAMP: i64 = 8_210_266_876_799;

/// Whether the calendar can represent the instant `secs` seconds after the epoch.
pub open spec fn representable(secs: i64) -> bool {
    MIN_TIMESTAMP <= secs <= MAX_TIMESTAMP
}

/// The instant that stands for a stored count of seconds: the count itself
/// where the calendar can represent it, the epoch otherwise.
pub open spec fn instant_or_epoch(secs: i64) -> i64 {
    if representable(secs) {
        secs
    } else {
        0
    }
}

/// The big-endian digits of `value` in base 256, `width` of them; digits
/// beyond the width are cut off.
pub open spec fn be_bytes(value: nat, width: nat) -> Seq<u8>
    decreases width,
{
    if width == 0 {
        Seq::empty()
    } else {
        be_bytes(value / 256, (width - 1) as nat).push((value % 256) as u8)
    }
}

/// The number whose big-endian base-256 digits are `bytes`.
pub open spec fn be_value(bytes: Seq<u8>) -> nat
    decreases bytes.len(),
{
    if bytes.len() == 0 {
        0
    } else {
        be_value(bytes.drop_last()) * 256 + bytes.last() as nat
    }
}

/// The two's-complement reading of a signed 64-bit number as an unsigned one.
pub open spec fn unsigned64(x: i64) -> nat {
    if x >= 0 {
        x as nat
    } else {
        (x + 0x1_0000_0000_0000_0000) as nat
    }
}

/// The two's-complement reading of an unsigned 64-bit number as a signed one.
pub open spec fn signed64(x: nat) -> i64 {
    if x < 0x8000_0000_0000_0000 {
        x as i64
    } else {
        (x - 0x1_0000_0000_0000_0000) as i64
    }
}

/// View counter and the three instants of one identifier, each instant in
/// whole seconds since the Unix epoch.
#[derive(Debug, Clone, Copy, PartialEq, Eq, Structural)]
pub struct Stats {
    pub views: u32,
    pub created_at: i64,
    pub updated_at: i64,
    pub last_viewed_at: i64,
}

/// The current time as chrono's `Utc::now` reads it, in whole seconds as
/// `DateTime::timestamp` counts them. The reading is not before the epoch
/// and is an instant the calendar can represent: `Utc::now` builds it from the
/// time elapsed since the epoch with `from_timestamp(..).unwrap()`. Like
/// `Utc::now` itself, this panics where the system clock reads before 1970.
#[verifier::external_body]
pub(crate) fn current_timestamp() -> (now: i64)
    ensures
        0 <= now <= MAX_TIMESTAMP,
{
    Utc::now().timestamp()
}

/// chrono's `DateTime::from_timestamp` on `secs` and no nanoseconds, with the
/// default instant in place of a refusal, read back with `DateTime::timestamp`.
/// `from_timestamp` accepts exactly the counts from the first second of year
/// -262143 to the last second of year 262142 and round-trips with `timestamp`;
/// the default `DateTime<Utc>` is the epoch.
#[verifier::external_body]
pub(crate) fn timestamp_or_default(secs: i64) -> (instant: i64)
    ensures
        instant == instant_or_epoch(secs),
{
    DateTime::from_timestamp(secs, 0).unwrap_or_default().timestamp()
}

/// The four big-endian bytes of `x`.
fn u32_to_be(x: u32) -> (bytes: [u8; 4])
    ensures
        bytes@ == be_bytes(x as nat, 4),
{
    let b3: u8 = (x % 256) as u8;
    let x: u32 = x / 256;
    let b2: u8 = (x % 256) as u8;
    let x: u32 = x / 256;
    let b1: u8 = (x % 256) as u8;
    let x: u32 = x / 256;
    let b0: u8 = (x % 256) as u8;
    let bytes = [b0, b1, b2, b3];
    proof {
        reveal_with_fuel(be_bytes, 5);
        assert(bytes@ =~= be_bytes(x as nat / 256, 0).push(b0).push(b1).push(b2).push(b3));
    }
    bytes
}

/// The eight big-endian two's-complement bytes of `x`.
fn i64_to_be(x: i64) -> (bytes: [u8; 8])
    ensures
        bytes@ == be_bytes(unsigned64(x), 8),
{
    let u: u64 = x as u64;
    assert(x >= 0 ==> u == x) by (bit_vector)
        requires
            u == x as u64,
    ;
    assert(x < 0 ==> u == x + 0x1_0000_0000_0000_0000) by (bit_vector)
        requires
            u == x as u64,
    ;
    let b7: u8 = (u % 256) as u8;
    let u: u64 = u / 256;
    let b6: u8 = (u % 256) as u8;
    let u: u64 = u / 256;
    let b5: u8 = (u % 256) as u8;
    let u: u64 = u / 256;
    let b4: u8 = (u % 256) as u8;
    let u: u64 = u / 256;
    let b3: u8 = (u % 256) as u8;
    let u: u64 = u / 256;
    let b2: u8 = (u % 256) as u8;
    let u: u64 = u / 256;
    let b1: u8 = (u % 256) as u8;
    let u: u64 = u / 256;
    let b0: u8 = (u % 256) as u8;
    let bytes = [b0, b1, b2, b3, b4, b5, b6, b7];
    proof {
        reveal_with_fuel(be_bytes, 9);
        assert(bytes@ =~= be_bytes(u as nat / 256, 0).push(b0).push(b1).push(b2).push(b3).push(
            b4,
        ).push(b5).push(b6).push(b7));
    }
    bytes
}

/// The number that the four bytes from `at` on spell in big-endian order.
fn u32_from_be(bytes: &[u8], at: usize) -> (x: u32)
    requires
        at + 4 <= bytes@.len(),
    ensures
        x == be_value(bytes@.subrange(at as int, at + 4)),
{
    let x: u32 = bytes[at] as u32;
    let x: u32 = x * 256 + bytes[at + 1] as u32;
    let x: u32 = x * 256 + bytes[at + 2] as u32;
    let x: u32 = x * 256 + bytes[at + 3] as u32;
    proof {
        let field = bytes@.subrange(at as int, at + 4);
        lemma_be_value_step(field.take(1));
        lemma_be_value_step(field.take(2));
        lemma_be_value_step(field.take(3));
        lemma_be_value_step(field.take(4));
        assert(field.take(1).drop_last() =~= field.take(0));
        assert(field.take(2).drop_last() =~= field.take(1));
        assert(field.take(3).drop_last() =~= field.take(2));
        assert(field.take(4).drop_last() =~= field.take(3));
        assert(field.take(4) =~= field);
    }
    x
}

/// The signed number that the eight bytes from `at` on spell in big-endian
/// two's-complement order.
fn i64_from_be(bytes: &[u8], at: usize) -> (x: i64)
    requires
        at + 8 <= bytes@.len(),
    ensures
        x == signed64(be_value(bytes@.subrange(at as int, at + 8))),
{
    let len: usize = bytes.len();
    let high: u32 = u32_from_be(bytes, at);
    let low: u32 = u32_from_be(bytes, at + 4);
    let u: u64 = high as u64 * 0x1_0000_0000 + low as u64;
    proof {
        let field = bytes@.subrange(at as int, at + 8);
        let front = bytes@.subrange(at as int, at + 4);
        let back = bytes@.subrange(at + 4, at + 8);
        assert(field =~= front + back);
        lemma_be_value_concat(front, back);
        assert(radix_pow(4) == 0x1_0000_0000) by {
            reveal_with_fuel(radix_pow, 5);
        }
    }
    let x: i64 = u as i64;
    assert(u < 0x8000_0000_0000_0000 ==> x == u) by (bit_vector)
        requires
            x == u as i64,
    ;
    assert(u >= 0x8000_0000_0000_0000 ==> x == u - 0x1_0000_0000_0000_0000) by (bit_vector)
        requires
            x == u as i64,
    ;
    x
}

/// Digits written one after the other spell the number of the first,
/// shifted by the width of the second, plus the number of the second.
pub proof fn lemma_be_value_concat(front: Seq<u8>, back: Seq<u8>)
    ensures
        be_value(front + back) == be_value(front) * radix_pow(back.len()) + be_value(back),
    decreases back.len(),
{
    if back.len() == 0 {
        assert(front + back =~= front);
        assert(radix_pow(0) == 1);
        assert(be_value(front) * 1 == be_value(front));
    } else {
        let shorter = back.drop_last();
        lemma_be_value_concat(front, shorter);
        assert((front + back).drop_last() =~= front + shorter);
        assert((front + back).last() == back.last());
        let high = be_value(front);
        let low = be_value(shorter);
        let last = back.last() as nat;
        let scale = radix_pow(shorter.len());
        let power = radix_pow(back.len());
        assert(power == 256 * scale);
        assert(be_value(front + back) == (high * scale + low) * 256 + last);
        assert(be_value(back) == low * 256 + last);
        assert((high * scale + low) * 256 + last == high * power + (low * 256 + last))
            by (nonlinear_arith)
            requires
                power == 256 * scale,
        ;
    }
}

/// One step of reading a big-endian number: the last digit counts once, the
/// digits before it 256 times.
proof fn lemma_be_value_step(bytes: Seq<u8>)
    requires
        bytes.len() > 0,
    ensures
        be_value(bytes) == be_value(bytes.drop_last()) * 256 + bytes.last() as nat,
{
}

impl Stats {
    /// Every instant of the record is one the calendar can represent.
    pub open spec fn well_formed(self) -> bool {
        &&& representable(self.created_at)
        &&& representable(self.updated_at)
        &&& representable(self.last_viewed_at)
    }

    /// The record of an identifier first seen at `now`: never viewed, all
    /// three instants at `now`.
    pub open spec fn fresh(now: i64) -> Stats {
        Stats { views: 0, created_at: now, updated_at: now, last_viewed_at: now }
    }

    /// The record after one more view at `now`. The counter saturates: at
    /// its largest value it stays.
    pub open spec fn viewed(self, now: i64) -> Stats {
        Stats {
            views: if self.views < u32::MAX {
                (self.views + 1) as u32
            } else {
                self.views
            },
            created_at: self.created_at,
            updated_at: self.updated_at,
            last_viewed_at: now,
        }
    }

    /// The record after a change of the content at `now`.
    pub open spec fn updated(self, now: i64) -> Stats {
        Stats {
            views: self.views,
            created_at: self.created_at,
            updated_at: now,
            last_viewed_at: self.last_viewed_at,
        }
    }

    /// The stored form of the record: 28 bytes.
    pub open spec fn encode(self) -> Seq<u8> {
        be_bytes(self.views as nat, 4) + be_bytes(unsigned64(self.created_at), 8) + be_bytes(
            unsigned64(self.updated_at),
            8,
        ) + be_bytes(unsigned64(self.last_viewed_at), 8)
    }

    /// The record that 28 stored bytes stand for. A stored instant beyond
    /// what the calendar can represent reads as the epoch.
    pub open spec fn decode(bytes: Seq<u8>) -> Stats {
        Stats {
            views: be_value(bytes.subrange(0, 4)) as u32,
            created_at: instant_or_epoch(signed64(be_value(bytes.subrange(4, 12)))),
            updated_at: instant_or_epoch(signed64(be_value(bytes.subrange(12, 20)))),
            last_viewed_at: instant_or_epoch(signed64(be_value(bytes.subrange(20, 28)))),
        }
    }

    /// A record for an identifier first seen now.
    pub fn new() -> (stats: Stats)
        ensures
            stats == Stats::fresh(stats.created_at),
            0 <= stats.created_at <= MAX_TIMESTAMP,
    {
        Stats::new_at(current_timestamp())
    }

    /// A record for an identifier first seen at `now`.
    pub fn new_at(now: i64) -> (stats: Stats)
        ensures
            stats == Stats::fresh(now),
    {
        Stats { views: 0, created_at: now, updated_at: now, last_viewed_at: now }
    }

    /// Counts one view, seen now.
    pub fn view(&mut self)
        ensures
            *final(self) == old(self).viewed(final(self).last_viewed_at),
            0 <= final(self).last_viewed_at <= MAX_TIMESTAMP,
    {
        self.view_at(current_timestamp());
    }

    /// Counts one view, seen at `now`.
    pub fn view_at(&mut self, now: i64)
        ensures
            *final(self) == old(self).viewed(now),
    {
        self.views = self.views.saturating_add(1);
        self.last_viewed_at = now;
    }

    /// The record after a change of the content made now.
    pub fn update(self) -> (stats: Stats)
        ensures
            stats == self.updated(stats.updated_at),
            0 <= stats.updated_at <= MAX_TIMESTAMP,
    {
        self.update_at(current_timestamp())
    }

    /// The record after a change of the content made at `now`.
    pub fn update_at(self, now: i64) -> (stats: Stats)
        ensures
            stats == self.updated(now),
    {
        Stats {
            views: self.views,
            created_at: self.created_at,
            updated_at: now,
            last_viewed_at: self.last_viewed_at,
        }
    }

    /// The length of every stored record.
    pub fn fixed_width() -> (width: Option<usize>)
        ensures
            width == Some(STATS_SIZE),
    {
        Some(STATS_SIZE)
    }

    /// Reads a record from its stored form.
    pub fn from_bytes(bytes: &[u8]) -> (stats: Stats)
        requires
            bytes@.len() == STATS_SIZE,
        ensures
            stats == Stats::decode(bytes@),
            stats.well_formed(),
    {
        let views = u32_from_be(bytes, 0);
        let created_at = timestamp_or_default(i64_from_be(bytes, 4));
        let updated_at = timestamp_or_default(i64_from_be(bytes, 12));
        let last_viewed_at = timestamp_or_default(i64_from_be(bytes, 20));
        Stats { views, created_at, updated_at, last_viewed_at }
    }

    /// Writes the record in its stored form.
    pub fn as_bytes(&self) -> (bytes: [u8; 28])
        ensures
            bytes@ == self.encode(),
    {
        let v = u32_to_be(self.views);
        let c = i64_to_be(self.created_at);
        let u = i64_to_be(self.updated_at);
        let l = i64_to_be(self.last_viewed_at);
        let bytes = [
            v[0], v[1], v[2], v[3],
            c[0], c[1], c[2], c[3], c[4], c[5], c[6], c[7],
            u[0], u[1], u[2], u[3], u[4], u[5], u[6], u[7],
            l[0], l[1], l[2], l[3], l[4], l[5], l[6], l[7],
        ];
        proof {
            assert(bytes@ =~= v@ + c@ + u@ + l@);
        }
        bytes
    }
}

/// A number that fits in `width` base-256 digits is read back from them.
pub proof fn lemma_be_round_trip(value: nat, width: nat)
    requires
        value < radix_pow(width),
    ensures
        be_bytes(value, width).len() == width,
        be_value(be_bytes(value, width)) == value,
    decreases width,
{
    if width > 0 {
        let rest = be_bytes(value / 256, (width - 1) as nat);
        lemma_be_round_trip(value / 256, (width - 1) as nat);
        assert(be_bytes(value, width).drop_last() =~= rest);
    }
}

/// 256 to the power `width`: the count of numbers that `width` digits spell.
pub open spec fn radix_pow(width: nat) -> nat
    decreases width,
{
    if width == 0 {
        1
    } else {
        256 * radix_pow((width - 1) as nat)
    }
}

/// Writing a record and reading it back gives the record, where its
/// instants are ones the calendar can represent.
pub proof fn lemma_decode_encode(stats: Stats)
    requires
        stats.well_formed(),
    ensures
        stats.encode().len() == STATS_SIZE,
        Stats::decode(stats.encode()) == stats,
{
    let v = be_bytes(stats.views as nat, 4);
    let c = be_bytes(unsigned64(stats.created_at), 8);
    let u = be_bytes(unsigned64(stats.updated_at), 8);
    let l = be_bytes(unsigned64(stats.last_viewed_at), 8);
    assert(radix_pow(4) == 0x1_0000_0000 && radix_pow(8) == 0x1_0000_0000_0000_0000) by {
        reveal_with_fuel(radix_pow, 9);
    }
    lemma_be_round_trip(stats.views as nat, 4);
    lemma_be_round_trip(unsigned64(stats.created_at), 8);
    lemma_be_round_trip(unsigned64(stats.updated_at), 8);
    lemma_be_round_trip(unsigned64(stats.last_viewed_at), 8);
    let bytes = stats.encode();
    assert(bytes.subrange(0, 4) =~= v);
    assert(bytes.subrange(4, 12) =~= c);
    assert(bytes.subrange(12, 20) =~= u);
    assert(bytes.subrange(20, 28) =~= l);
}

} // verus!
