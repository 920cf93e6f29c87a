//! Properties of the `java.time` natives that span calls.

use vstd::prelude::*;
use crate::model::{lemma_field_index_first, Value};
use crate::model::Obj;
use crate::native::give;
use crate::time::{duration_obj, fits_long, instant_obj, tdiv, time_pre, time_spec, tmod, TimeMethod};
use crate::heap::deref;
use crate::model::Reference;

verus! {

/// The fields of a new instant read back as stored.
proof fn lemma_instant_fields(e: int, n: int)
    ensures
        instant_obj(e, n) matches Obj::Object { fields, .. } && {
            &&& crate::model::field_get(fields, "__epoch_second"@) == Some(Value::Long(e as i64))
            &&& crate::model::field_get(fields, "__nano"@) == Some(Value::Int(n as i32))
        },
{
    reveal_strlit("__epoch_second");
    reveal_strlit("__nano");
    let fields = seq![("__epoch_second"@, Value::Long(e as i64)), ("__nano"@, Value::Int(n as i32))];
    lemma_field_index_first(fields, "__epoch_second"@, 0);
    assert(fields[0].0 != "__nano"@) by {
        assert(fields[0].0.len() != "__nano"@.len());
    }
    lemma_field_index_first(fields, "__nano"@, 1);
}

/// The truncating split of a count by 1000 and its recombination.
proof fn lemma_split_millis(m: int)
    ensures
        -1000 < tmod(m, 1000) < 1000,
        tdiv(tmod(m, 1000) * 1_000_000, 1_000_000) == tmod(m, 1000),
        tdiv(m, 1000) * 1000 + tmod(m, 1000) == m,
        tdiv(m, 1000) * 1000 == m - tmod(m, 1000),
{
    let q = tdiv(m, 1000);
    if m >= 0 {
        assert(0 <= m % 1000 < 1000);
        assert(m == (m / 1000) * 1000 + m % 1000);
    } else {
        assert(0 <= (-m) % 1000 < 1000);
        assert(-m == ((-m) / 1000) * 1000 + (-m) % 1000);
    }
    let r = tmod(m, 1000);
    if r >= 0 {
        assert((r * 1_000_000) / 1_000_000 == r);
    } else {
        assert(((-r) * 1_000_000) / 1_000_000 == -r);
        assert(-(r * 1_000_000) == (-r) * 1_000_000);
    }
}

/// `toEpochMilli` undoes `ofEpochMilli`: for every `long` `m`, the instant
/// `Instant.ofEpochMilli(m)` reads back as `m`, negative `m` included, and
/// the read does not overflow.
pub proof fn law_epoch_milli_round_trip(heap: Seq<Obj>, m: i64)
    requires
        heap.len() < usize::MAX,
    ensures
        time_spec(heap, TimeMethod::OfEpochMilli, seq![Value::Long(m)]) matches Ok((Some(i), h1)) && {
            &&& time_pre(h1, TimeMethod::ToEpochMilli, seq![i])
            &&& time_spec(h1, TimeMethod::ToEpochMilli, seq![i]) == give(h1, Value::Long(m))
        },
{
    let e = tdiv(m as int, 1000);
    let n = tmod(m as int, 1000) * 1_000_000;
    lemma_split_millis(m as int);
    lemma_instant_fields(e, n);
    assert(-1_000_000_000 < n < 1_000_000_000);
    assert(i64::MIN <= e <= i64::MAX);
    assert((e as i64) as int == e);
    assert((n as i32) as int == n);
}

/// The fields of a new duration read back as stored.
proof fn lemma_duration_fields(sec: int, n: int)
    ensures
        duration_obj(sec, n) matches Obj::Object { fields, .. } && {
            &&& crate::model::field_get(fields, "__seconds"@) == Some(Value::Long(sec as i64))
            &&& crate::model::field_get(fields, "__nano"@) == Some(Value::Int(n as i32))
        },
{
    reveal_strlit("__seconds");
    reveal_strlit("__nano");
    let fields = seq![("__seconds"@, Value::Long(sec as i64)), ("__nano"@, Value::Int(n as i32))];
    lemma_field_index_first(fields, "__seconds"@, 0);
    assert(fields[0].0 != "__nano"@) by {
        assert(fields[0].0.len() != "__nano"@.len());
    }
    lemma_field_index_first(fields, "__nano"@, 1);
}

/// `Duration.toMillis` undoes `Duration.ofMillis`: for every `long` `m`,
/// the duration `Duration.ofMillis(m)` reads back as `m` milliseconds,
/// negative `m` included, and the read does not overflow.
pub proof fn law_duration_millis_round_trip(heap: Seq<Obj>, m: i64)
    requires
        heap.len() < usize::MAX,
    ensures
        time_spec(heap, TimeMethod::OfMillis, seq![Value::Long(m)]) matches Ok((Some(d), h1)) && {
            &&& time_pre(h1, TimeMethod::ToMillis, seq![d])
            &&& time_spec(h1, TimeMethod::ToMillis, seq![d]) == give(h1, Value::Long(m))
        },
{
    let sec = tdiv(m as int, 1000);
    let n = tmod(m as int, 1000) * 1_000_000;
    lemma_split_millis(m as int);
    lemma_duration_fields(sec, n);
    assert(-1_000_000_000 < n < 1_000_000_000);
    assert(i64::MIN <= sec <= i64::MAX);
    assert((sec as i64) as int == sec);
    assert((n as i32) as int == n);
}

/// `plusMillis(m)` and `minusMillis(m)` move an instant by `m`
/// milliseconds: `toEpochMilli` of the result is `toEpochMilli` of the
/// instant plus (minus) `m`, whenever the arithmetic fits a `long`.
pub proof fn law_plus_minus_millis(heap: Seq<Obj>, t: Reference, e: i64, n: i32, m: i64, plus: bool)
    requires
        heap.len() < usize::MAX,
        deref(heap, t) == Some(instant_obj(e as int, n as int)),
        0 <= n < 1_000_000_000,
        fits_long(e * 1000),
        fits_long(e * 1000 + m),
        fits_long(e * 1000 - m),
        fits_long(e * 1000 + tdiv(n as int, 1_000_000)),
        fits_long(e * 1000 + tdiv(n as int, 1_000_000) + m),
        fits_long(e * 1000 + tdiv(n as int, 1_000_000) - m),
    ensures
        time_spec(heap, TimeMethod::ToEpochMilli, seq![Value::Reference(t)])
            == give(heap, Value::Long((e * 1000 + tdiv(n as int, 1_000_000)) as i64)),
        ({
            let k = if plus { TimeMethod::PlusMillis } else { TimeMethod::MinusMillis };
            let moved = if plus { e * 1000 + tdiv(n as int, 1_000_000) + m } else { e * 1000 + tdiv(n as int, 1_000_000) - m };
            &&& time_pre(heap, k, seq![Value::Long(m), Value::Reference(t)])
            &&& time_spec(heap, k, seq![Value::Long(m), Value::Reference(t)]) matches Ok((Some(i2), h1)) && {
                &&& time_pre(h1, TimeMethod::ToEpochMilli, seq![i2])
                &&& time_spec(h1, TimeMethod::ToEpochMilli, seq![i2]) == give(h1, Value::Long(moved as i64))
            }
        }),
{
    lemma_instant_fields(e as int, n as int);
    assert((e as int) as i64 == e);
    assert((n as int) as i32 == n);
    assert(0 <= tdiv(n as int, 1_000_000) < 1000);
    let total = if plus { e * 1000 + m + tdiv(n as int, 1_000_000) } else { e * 1000 - m + tdiv(n as int, 1_000_000) };
    lemma_split_millis(total);
    let q = tdiv(total, 1000);
    let r = tmod(total, 1000) * 1_000_000;
    lemma_instant_fields(q, r);
    assert(-1_000_000_000 < r < 1_000_000_000);
    assert(i64::MIN <= q <= i64::MAX);
    assert((q as i64) as int == q);
    assert((r as i32) as int == r);
}

/// `plusSeconds(s)` moves an instant by `s` seconds: `getEpochSecond` of
/// the result is the instant's plus `s`, and `getNano` is unchanged.
pub proof fn law_plus_seconds(heap: Seq<Obj>, t: Reference, e: i64, n: i32, sec: i64)
    requires
        heap.len() < usize::MAX,
        deref(heap, t) == Some(instant_obj(e as int, n as int)),
        fits_long(e + sec),
    ensures
        time_pre(heap, TimeMethod::PlusSeconds, seq![Value::Long(sec), Value::Reference(t)]),
        time_spec(heap, TimeMethod::PlusSeconds, seq![Value::Long(sec), Value::Reference(t)]) matches Ok((Some(i2), h1)) && {
            &&& time_spec(h1, TimeMethod::GetEpochSecond, seq![i2]) == give(h1, Value::Long((e + sec) as i64))
            &&& time_spec(h1, TimeMethod::InstantGetNano, seq![i2]) == give(h1, Value::Int(n))
        },
{
    lemma_instant_fields(e as int, n as int);
    assert((e as int) as i64 == e);
    assert((n as int) as i32 == n);
    lemma_instant_fields(e + sec, n as int);
}

/// `Duration.ofNanos(n)` splits `n` into whole seconds and a nanosecond
/// part that recombine to `n`: `getSeconds() * 1_000_000_000 + getNano()
/// == n`, the nanosecond part having the sign of `n` and lying within a
/// second; `Duration.ofSeconds(s).getSeconds()` is `s`.
pub proof fn law_duration_parts(heap: Seq<Obj>, n: i64, sec: i64)
    requires
        heap.len() < usize::MAX,
    ensures
        time_spec(heap, TimeMethod::OfNanos, seq![Value::Long(n)]) matches Ok((Some(d), h1)) && {
            time_spec(h1, TimeMethod::GetSeconds, seq![d]) matches Ok((Some(Value::Long(gs)), _))
            && time_spec(h1, TimeMethod::DurationGetNano, seq![d]) matches Ok((Some(Value::Int(gn)), _))
            && gs * 1_000_000_000 + gn == n
            && -1_000_000_000 < gn < 1_000_000_000
            && (n >= 0 ==> gn >= 0) && (n < 0 ==> gn <= 0)
        },
        time_spec(heap, TimeMethod::OfSeconds, seq![Value::Long(sec)]) matches Ok((Some(d), h1))
            && time_spec(h1, TimeMethod::GetSeconds, seq![d]) == give(h1, Value::Long(sec)),
{
    let q = tdiv(n as int, 1_000_000_000);
    let r = tmod(n as int, 1_000_000_000);
    if n >= 0 {
        assert(0 <= (n as int) % 1_000_000_000 < 1_000_000_000);
        assert(n as int == ((n as int) / 1_000_000_000) * 1_000_000_000 + (n as int) % 1_000_000_000);
    } else {
        assert(0 <= (-(n as int)) % 1_000_000_000 < 1_000_000_000);
        assert(-(n as int) == ((-(n as int)) / 1_000_000_000) * 1_000_000_000 + (-(n as int)) % 1_000_000_000);
    }
    assert(-1_000_000_000 < r < 1_000_000_000);
    assert(i64::MIN <= q <= i64::MAX);
    lemma_duration_fields(q, r);
    assert((q as i64) as int == q);
    assert((r as i32) as int == r);
    lemma_duration_fields(sec as int, 0);
    assert((sec as int) as i64 == sec);
}

} // verus!
