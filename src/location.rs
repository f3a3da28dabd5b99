use vstd::arithmetic::div_mod::lemma_fundamental_div_mod_converse;
use vstd::arithmetic::power2::{
    lemma2_to64, lemma2_to64_rest, lemma_pow2_adds, lemma_pow2_pos, lemma_pow2_strictly_increases,
    lemma_pow2_unfold, pow2,
};
use vstd::prelude::*;

verus! {

/// A point in time: whole seconds since 1970-01-01T00:00:00Z and the
/// nanoseconds past that second.
#[derive(Clone, Copy, Debug, PartialEq, Eq, Structural)]
pub struct Timestamp {
    pub secs: i64,
    pub nanos: u32,
}

/// The sign bit of a binary64 bit pattern.
pub open spec fn sign_bit(b: u64) -> bool {
    b >= 0x8000_0000_0000_0000
}

/// The 11-bit biased exponent field.
pub open spec fn biased_exponent(b: u64) -> int {
    (b as int / 0x10_0000_0000_0000) % 0x800
}

/// The 52-bit fraction field.
pub open spec fn fraction(b: u64) -> int {
    b as int % 0x10_0000_0000_0000
}

/// Neither an infinity nor a NaN.
pub open spec fn is_finite(b: u64) -> bool {
    biased_exponent(b) < 0x7ff
}

/// The integer significand `m` of a finite value `m * 2^e`.
pub open spec fn significand(b: u64) -> int {
    if biased_exponent(b) == 0 {
        fraction(b)
    } else {
        fraction(b) + 0x10_0000_0000_0000
    }
}

/// The exponent `e` of a finite value `m * 2^e`.
pub open spec fn exponent(b: u64) -> int {
    if biased_exponent(b) == 0 {
        1 - 1075
    } else {
        biased_exponent(b) - 1075
    }
}

pub open spec fn signed_significand(b: u64) -> int {
    if sign_bit(b) {
        -significand(b)
    } else {
        significand(b)
    }
}

/// `floor(x * 10^9)` for the finite value `x` that `b` encodes.
pub open spec fn floor_nanos(b: u64) -> int {
    if exponent(b) >= 0 {
        signed_significand(b) * pow2(exponent(b) as nat) * 1_000_000_000
    } else {
        (signed_significand(b) * 1_000_000_000) / (pow2((-exponent(b)) as nat) as int)
    }
}

/// Whole seconds: `floor(x)`.
pub open spec fn epoch_secs(b: u64) -> int {
    floor_nanos(b) / 1_000_000_000
}

/// Nanoseconds past the whole second: `floor((x - floor(x)) * 10^9)`.
pub open spec fn epoch_subsec_nanos(b: u64) -> int {
    floor_nanos(b) % 1_000_000_000
}

pub open spec fn fits_i64(x: int) -> bool {
    i64::MIN <= x <= i64::MAX
}

/// The time `x` seconds after the epoch, where `b` encodes `x`; `None` when
/// `x` is not finite or its whole seconds do not fit in an `i64`.
pub open spec fn seconds_to_timestamp(b: u64) -> Option<Timestamp> {
    if is_finite(b) && fits_i64(epoch_secs(b)) {
        Some(Timestamp { secs: epoch_secs(b) as i64, nanos: epoch_subsec_nanos(b) as u32 })
    } else {
        None
    }
}

proof fn lemma_pow2_127()
    ensures
        pow2(127) == 0x8000_0000_0000_0000_0000_0000_0000_0000,
        pow2(84) == 0x1000000000000000000000,
{
    lemma2_to64();
    lemma2_to64_rest();
    lemma_pow2_adds(64, 63);
    lemma_pow2_adds(64, 20);
}

fn pow2_u128(k: u32) -> (r: u128)
    requires
        k < 128,
    ensures
        r == pow2(k as nat),
{
    let mut r: u128 = 1;
    let mut i: u32 = 0;
    proof {
        lemma2_to64();
        lemma2_to64_rest();
    }
    while i < k
        invariant
            i <= k,
            k < 128,
            r == pow2(i as nat),
        decreases k - i,
    {
        proof {
            lemma_pow2_unfold((i + 1) as nat);
            lemma_pow2_127();
            if i + 1 < 127 {
                lemma_pow2_strictly_increases((i + 1) as nat, 127);
            }
        }
        r = r * 2;
        i = i + 1;
    }
    r
}

/// Converts fractional seconds since 1970-01-01T00:00:00Z, given as the bit
/// pattern of a binary64 value, into whole seconds and nanoseconds, rounding
/// toward negative infinity.
pub fn timestamp_from_epoch_seconds(bits: u64) -> (r: Option<Timestamp>)
    ensures
        r == seconds_to_timestamp(bits),
{
    let sign = bits >= 0x8000_0000_0000_0000;
    let biased = (bits / 0x10_0000_0000_0000) % 0x800;
    let frac = bits % 0x10_0000_0000_0000;
    if biased == 0x7ff {
        return None;
    }
    let m: u128 = if biased == 0 {
        frac as u128
    } else {
        frac as u128 + 0x10_0000_0000_0000
    };
    assert(m == significand(bits));
    if biased >= 1075 {
        let k = (biased - 1075) as u32;
        assert(exponent(bits) == k);
        let ghost y = signed_significand(bits) * pow2(k as nat);
        proof {
            lemma_fundamental_div_mod_converse(y * 1_000_000_000, 1_000_000_000, y, 0);
        }
        assert(epoch_secs(bits) == y);
        assert(sign ==> y == -(m * pow2(k as nat))) by (nonlinear_arith)
            requires
                y == signed_significand(bits) * pow2(k as nat),
                sign ==> signed_significand(bits) == -m,
        ;
        assert(!sign ==> y == m * pow2(k as nat));
        assert(epoch_subsec_nanos(bits) == 0);
        if k >= 64 {
            proof {
                lemma2_to64();
                lemma2_to64_rest();
                lemma_pow2_strictly_increases(63, k as nat);
                assert(m * pow2(k as nat) >= pow2(k as nat)) by (nonlinear_arith)
                    requires
                        m >= 1,
                ;
            }
            return None;
        }
        let p = pow2_u128(k);
        proof {
            lemma2_to64();
            lemma2_to64_rest();
            lemma_pow2_127();
            if k < 63 {
                lemma_pow2_strictly_increases(k as nat, 63);
            }
            assert(m * p <= 0x20_0000_0000_0000 * 0x8000_0000_0000_0000) by (nonlinear_arith)
                requires
                    m < 0x20_0000_0000_0000,
                    p <= 0x8000_0000_0000_0000,
            ;
        }
        let v: u128 = m * p;
        if sign {
            if v > 0x8000_0000_0000_0000 {
                return None;
            }
            let s: i128 = -(v as i128);
            return Some(Timestamp { secs: s as i64, nanos: 0 });
        } else {
            if v > 0x7fff_ffff_ffff_ffff {
                return None;
            }
            return Some(Timestamp { secs: v as i64, nanos: 0 });
        }
    }
    let k: u32 = if biased == 0 {
        1074
    } else {
        (1075 - biased) as u32
    };
    assert(-exponent(bits) == k);
    let ghost d: int = pow2(k as nat) as int;
    proof {
        lemma_pow2_pos(k as nat);
    }
    let x: u128 = m * 1_000_000_000;
    let q: u128;
    let rem: u128;
    if k >= 84 {
        proof {
            lemma_pow2_127();
            if k > 84 {
                lemma_pow2_strictly_increases(84, k as nat);
            }
            lemma_fundamental_div_mod_converse(x as int, d, 0, x as int);
        }
        q = 0;
        rem = x;
    } else {
        let p = pow2_u128(k);
        q = x / p;
        rem = x % p;
        proof {
            vstd::arithmetic::div_mod::lemma_fundamental_div_mod(x as int, d);
            vstd::arithmetic::div_mod::lemma_mod_pos_bound(x as int, d);
            assert(x as int == q * d + rem) by (nonlinear_arith)
                requires
                    x as int == d * (x as int / d) + (x as int % d),
                    q == x as int / d,
                    rem == x as int % d,
            ;
        }
    }
    assert(x as int == q * d + rem && 0 <= rem < d);
    assert(q <= x) by (nonlinear_arith)
        requires
            x as int == q * d + rem,
            d >= 1,
            rem >= 0,
    ;
    if !sign {
        assert(floor_nanos(bits) == q as int);
        let s = q / 1_000_000_000;
        let n = q % 1_000_000_000;
        return Some(Timestamp { secs: s as i64, nanos: n as u32 });
    }
    let t: u128 = if rem == 0 {
        proof {
            assert(-(x as int) == -(q as int) * d + 0) by (nonlinear_arith)
                requires
                    x as int == q * d + rem,
                    rem == 0,
            ;
            lemma_fundamental_div_mod_converse(-(x as int), d, -(q as int), 0);
        }
        q
    } else {
        proof {
            assert(-(x as int) == (-(q as int) - 1) * d + (d - rem)) by (nonlinear_arith)
                requires
                    x as int == q * d + rem,
            ;
            lemma_fundamental_div_mod_converse(-(x as int), d, -(q as int) - 1, d - rem);
        }
        q + 1
    };
    assert(floor_nanos(bits) == -(t as int));
    let a = t / 1_000_000_000;
    let b = t % 1_000_000_000;
    if b == 0 {
        proof {
            lemma_fundamental_div_mod_converse(-(t as int), 1_000_000_000, -(a as int), 0);
        }
        Some(Timestamp { secs: -(a as i128) as i64, nanos: 0 })
    } else {
        proof {
            lemma_fundamental_div_mod_converse(
                -(t as int),
                1_000_000_000,
                -(a as int) - 1,
                1_000_000_000 - b,
            );
        }
        Some(Timestamp { secs: (-(a as i128) - 1) as i64, nanos: (1_000_000_000 - b) as u32 })
    }
}


/// A NaN: all exponent bits set and a nonzero fraction.
pub open spec fn is_nan(b: u64) -> bool {
    biased_exponent(b) == 0x7ff && fraction(b) != 0
}

/// The value is `>= 0.0`: not a NaN, and either without the sign bit or
/// negative zero.
pub open spec fn is_non_negative(b: u64) -> bool {
    !is_nan(b) && (!sign_bit(b) || b == 0x8000_0000_0000_0000)
}

/// A reported accuracy radius is kept when it is non-negative; a negative
/// radius means that the source does not know it.
pub open spec fn normalized_accuracy(bits: u64) -> Option<u64> {
    if is_non_negative(bits) {
        Some(bits)
    } else {
        None
    }
}

/// Keeps a reported accuracy radius (binary64 bits) when it is non-negative.
pub fn accuracy_from_bits(bits: u64) -> (r: Option<u64>)
    ensures
        r == normalized_accuracy(bits),
{
    let biased = (bits / 0x10_0000_0000_0000) % 0x800;
    let frac = bits % 0x10_0000_0000_0000;
    if biased == 0x7ff && frac != 0 {
        None
    } else if bits < 0x8000_0000_0000_0000 || bits == 0x8000_0000_0000_0000 {
        Some(bits)
    } else {
        None
    }
}

/// The first second that chrono's `Utc` represents: -262143-01-01T00:00:00Z.
pub const MIN_UTC_SECS: i64 = -8_334_601_228_800;

/// The last second that chrono's `Utc` represents: +262142-12-31T23:59:59Z.
pub const MAX_UTC_SECS: i64 = 8_210_266_876_799;

/// Whether chrono's `Utc` represents the instant `secs` seconds and `nanos`
/// nanoseconds after the epoch: the day must lie in chrono's year range, and
/// nanoseconds past one billion stand only for a leap second, in the last
/// second of a minute.
pub open spec fn utc_representable(secs: int, nanos: int) -> bool {
    &&& MIN_UTC_SECS <= secs <= MAX_UTC_SECS
    &&& (nanos < 1_000_000_000 || (nanos < 2_000_000_000 && secs % 60 == 59))
}

/// Relies on chrono's `TimeZone::timestamp_opt` for `Utc`, which calls
/// `DateTime::from_timestamp`: a single date-time exactly when the day
/// `secs.div_euclid(86_400) + 719_163` falls in years -262143 to 262142 and
/// `NaiveTime::from_num_seconds_from_midnight_opt` accepts the nanoseconds;
/// it never panics.
#[verifier::external_body]
fn utc_accepts(secs: i64, nanos: u32) -> (r: bool)
    ensures
        r == utc_representable(secs as int, nanos as int),
{
    chrono::TimeZone::timestamp_opt(&chrono::Utc, secs, nanos).single().is_some()
}

/// One fix as the platform location service reports it; every number is the
/// bit pattern of a binary64 value. `timestamp` counts seconds since
/// 1970-01-01T00:00:00Z.
#[derive(Clone, Copy, Debug, PartialEq, Eq, Structural)]
pub struct NativeFix {
    pub latitude: u64,
    pub longitude: u64,
    pub accuracy: u64,
    pub timestamp: u64,
}

/// A resolved location. Coordinates (WGS-84 degrees) and the accuracy radius
/// (metres) are binary64 bit patterns.
#[derive(Clone, Debug, PartialEq, Eq)]
pub struct Location {
    pub latitude: u64,
    pub longitude: u64,
    pub accuracy_m: Option<u64>,
    pub provider: String,
    pub timestamp: Timestamp,
}

impl Location {
    pub fn new(lat: u64, lon: u64, acc: Option<u64>, provider: &str, timestamp: Timestamp) -> (r:
        Self)
        ensures
            r.latitude == lat,
            r.longitude == lon,
            r.accuracy_m == acc,
            r.provider@ == provider@,
            r.timestamp == timestamp,
    {
        Location {
            latitude: lat,
            longitude: lon,
            accuracy_m: acc,
            provider: provider.to_owned(),
            timestamp,
        }
    }
}

/// The observation time of a native fix: its own timestamp where that
/// converts and chrono represents it, else `None`.
pub open spec fn native_fix_time(fix: NativeFix) -> Option<Timestamp> {
    match seconds_to_timestamp(fix.timestamp) {
        Some(t) => if utc_representable(t.secs as int, t.nanos as int) {
            Some(t)
        } else {
            None
        },
        None => None,
    }
}

/// What a location built from a native fix holds, the time aside.
pub open spec fn is_native_location(l: Location, fix: NativeFix) -> bool {
    &&& l.latitude == fix.latitude
    &&& l.longitude == fix.longitude
    &&& l.accuracy_m == normalized_accuracy(fix.accuracy)
    &&& l.provider@ == "corelocation"@
}

/// Builds the location for a native fix, given whether chrono accepts the
/// fix's converted time and the time to use in its place.
pub fn native_location(fix: &NativeFix, accepted: bool, now: Timestamp) -> (r: Location)
    ensures
        is_native_location(r, *fix),
        r.timestamp == (match seconds_to_timestamp(fix.timestamp) {
            Some(t) => if accepted {
                t
            } else {
                now
            },
            None => now,
        }),
{
    let timestamp = match timestamp_from_epoch_seconds(fix.timestamp) {
        Some(t) => if accepted {
            t
        } else {
            now
        },
        None => now,
    };
    Location::new(
        fix.latitude,
        fix.longitude,
        accuracy_from_bits(fix.accuracy),
        "corelocation",
        timestamp,
    )
}

/// Builds the location for a native fix. Its time is the fix's own where that
/// converts and chrono represents it, else `now`, the time of acquisition.
pub fn location_from_fix(fix: &NativeFix, now: Timestamp) -> (r: Location)
    ensures
        is_native_location(r, *fix),
        r.timestamp == (match native_fix_time(*fix) {
            Some(t) => t,
            None => now,
        }),
{
    match timestamp_from_epoch_seconds(fix.timestamp) {
        Some(t) => {
            if utc_accepts(t.secs, t.nanos) {
                native_location(fix, true, now)
            } else {
                native_location(fix, false, now)
            }
        },
        None => native_location(fix, false, now),
    }
}

} // verus!
