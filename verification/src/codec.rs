//! The positional record codec: wire records arrive as JSON arrays whose
//! field meaning is fixed purely by position.  A schema is an ordered list
//! of field descriptors — reserved or not, optional or not, and a decode
//! rule — consumed by one generic routine; record types each supply their
//! schema and pick their fields from the decoded list.

use vstd::prelude::*;

use crate::error::DecodeFailure;
use crate::json::JsonValue;
use crate::text::int_text_val;
use crate::trading::{trading_order_type_of, TradingOrderType};

verus! {

/// Whether a count of epoch milliseconds converts to a calendar timestamp,
/// a function of the count alone.
pub uninterp spec fn ms_convertible(ms: i64) -> bool;

/// Relies on chrono::DateTime::from_timestamp_millis: `Some` exactly for
/// the counts of epoch milliseconds inside chrono's representable calendar
/// range.
#[verifier::external_body]
fn timestamp_in_calendar_range(ms: i64) -> (r: bool)
    ensures
        r == ms_convertible(ms),
{
    chrono::DateTime::from_timestamp_millis(ms).is_some()
}

/// How the value at one array position is decoded.
#[derive(Debug, Clone, Copy)]
pub enum FieldKind {
    /// Accept anything; used for reserved slots.
    Any,
    /// A string, passed through.
    Str,
    /// A number, kept as its decimal text.
    NumText,
    /// An unsigned integer no larger than the bound.
    UIntMax(u64),
    /// A signed integer within the closed range.
    IntRange(i64, i64),
    /// Epoch milliseconds that must convert to a calendar timestamp.
    TimeMs,
    /// The boolean coercion rule: a native boolean, the numbers zero and
    /// one, or the tokens "true" and "false".
    Bool,
    /// A trading order type token; unknown tokens take the default variant.
    OrderType,
}

/// One position of a schema: reserved slots are consumed but dropped from
/// the output; optional fields accept null.
#[derive(Debug, Clone, Copy)]
pub struct FieldSpec {
    pub reserved: bool,
    pub optional: bool,
    pub kind: FieldKind,
}

/// A required field with the given rule.
pub fn req(kind: FieldKind) -> (r: FieldSpec)
    ensures
        r == s_req(kind),
{
    FieldSpec { reserved: false, optional: false, kind }
}

/// An optional field with the given rule.
pub fn opt(kind: FieldKind) -> (r: FieldSpec)
    ensures
        r == s_opt(kind),
{
    FieldSpec { reserved: false, optional: true, kind }
}

/// A reserved slot: consumed to keep the positions aligned, never validated
/// and never kept.
pub fn res() -> (r: FieldSpec)
    ensures
        r == s_res(),
{
    FieldSpec { reserved: true, optional: true, kind: FieldKind::Any }
}

/// A decoded field.
#[derive(Debug, PartialEq, Eq)]
pub enum FieldValue {
    /// An absent optional field.
    Null,
    Bool(bool),
    UInt(u64),
    Int(i64),
    /// Epoch milliseconds, already checked against the calendar range.
    Time(i64),
    /// A number's decimal text.
    Num(String),
    Text(String),
    Order(TradingOrderType),
}

/// What one rule makes of one JSON value, `None` on a coercion failure.
pub open spec fn decode_kind_spec(kind: FieldKind, v: JsonValue) -> Option<FieldValue> {
    match kind {
        FieldKind::Any => Some(FieldValue::Null),
        FieldKind::Str => match v {
            JsonValue::Str(s) => Some(FieldValue::Text(s)),
            _ => None,
        },
        FieldKind::NumText => match v {
            JsonValue::Num(s) => Some(FieldValue::Num(s)),
            _ => None,
        },
        FieldKind::UIntMax(max) => match v {
            JsonValue::Num(s) => match int_text_val(s@) {
                Some(n) => if 0 <= n <= max {
                    Some(FieldValue::UInt(n as u64))
                } else {
                    None
                },
                None => None,
            },
            _ => None,
        },
        FieldKind::IntRange(lo, hi) => match v {
            JsonValue::Num(s) => match int_text_val(s@) {
                Some(n) => if lo <= n <= hi {
                    Some(FieldValue::Int(n as i64))
                } else {
                    None
                },
                None => None,
            },
            _ => None,
        },
        FieldKind::TimeMs => match v {
            JsonValue::Num(s) => match int_text_val(s@) {
                Some(n) => if i64::MIN <= n <= i64::MAX && ms_convertible(n as i64) {
                    Some(FieldValue::Time(n as i64))
                } else {
                    None
                },
                None => None,
            },
            _ => None,
        },
        FieldKind::Bool => match v {
            JsonValue::Bool(b) => Some(FieldValue::Bool(b)),
            JsonValue::Num(s) => if s@ == "0"@ {
                Some(FieldValue::Bool(false))
            } else if s@ == "1"@ {
                Some(FieldValue::Bool(true))
            } else {
                None
            },
            JsonValue::Str(s) => if s@ == "true"@ {
                Some(FieldValue::Bool(true))
            } else if s@ == "false"@ {
                Some(FieldValue::Bool(false))
            } else {
                None
            },
            _ => None,
        },
        FieldKind::OrderType => match v {
            JsonValue::Str(s) => Some(FieldValue::Order(trading_order_type_of(s@))),
            _ => None,
        },
    }
}

/// What one schema position makes of one JSON value: reserved slots accept
/// anything, optional fields accept null, the rest is the rule's work.
pub open spec fn decode_scalar_spec(spec: FieldSpec, v: JsonValue) -> Option<FieldValue> {
    if spec.reserved {
        Some(FieldValue::Null)
    } else {
        match v {
            JsonValue::Null => if spec.optional {
                Some(FieldValue::Null)
            } else {
                None
            },
            _ => decode_kind_spec(spec.kind, v),
        }
    }
}

/// Decodes one value under one schema position.
pub fn decode_scalar(spec: &FieldSpec, v: &JsonValue) -> (r: Option<FieldValue>)
    ensures
        r == decode_scalar_spec(*spec, *v),
{
    if spec.reserved {
        return Some(FieldValue::Null);
    }
    match v {
        JsonValue::Null => {
            if spec.optional {
                Some(FieldValue::Null)
            } else {
                None
            }
        },
        _ => decode_kind(&spec.kind, v),
    }
}

fn decode_kind(kind: &FieldKind, v: &JsonValue) -> (r: Option<FieldValue>)
    ensures
        r == decode_kind_spec(*kind, *v),
{
    match kind {
        FieldKind::Any => Some(FieldValue::Null),
        FieldKind::Str => match v {
            JsonValue::Str(s) => Some(FieldValue::Text(s.clone())),
            _ => {
                proof {
                    assert(decode_kind_spec(*kind, *v) is None);
                }
                None
            },
        },
        FieldKind::NumText => match v {
            JsonValue::Num(s) => Some(FieldValue::Num(s.clone())),
            _ => {
                proof {
                    assert(decode_kind_spec(*kind, *v) is None);
                }
                None
            },
        },
        FieldKind::UIntMax(max) => match v {
            JsonValue::Num(s) => match crate::text::parse_i64(s.as_str()) {
                Some(n) => {
                    if n >= 0 && n as u64 <= *max {
                        Some(FieldValue::UInt(n as u64))
                    } else {
                        proof {
                            assert(decode_kind_spec(*kind, *v) is None);
                        }
                        None
                    }
                },
                None => {
                    let pu = crate::text::parse_u64(s.as_str());
                    let r = match pu {
                        Some(m) => {
                            if m <= *max {
                                Some(FieldValue::UInt(m))
                            } else {
                                None
                            }
                        },
                        None => None,
                    };
                    proof {
                        if crate::text::is_dec_seq(s@) {
                            crate::text::lemma_dec_val_nonneg(s@);
                        }
                        if r is None {
                            match pu {
                                Some(m) => {
                                    assert(m > *max);
                                    assert(int_text_val(s@) == Some(crate::text::dec_val(s@)));
                                    assert(int_text_val(s@).unwrap() > *max);
                                    assert(decode_kind_spec(*kind, *v) is None);
                                },
                                None => {
                                    if crate::text::is_dec_seq(s@) {
                                        assert(crate::text::dec_val(s@) > u64::MAX as int);
                                        assert(decode_kind_spec(*kind, *v) is None);
                                    } else {
                                        if s@.len() > 1 && s@[0] == '-' && crate::text::is_dec_seq(
                                            s@.skip(1),
                                        ) {
                                            crate::text::lemma_dec_val_nonneg(s@.skip(1));
                                        }
                                        assert(decode_kind_spec(*kind, *v) is None);
                                    }
                                },
                            }
                        }
                    }
                    r
                },
            },
            _ => {
                proof {
                    assert(decode_kind_spec(*kind, *v) is None);
                }
                None
            },
        },
        FieldKind::IntRange(lo, hi) => match v {
            JsonValue::Num(s) => match crate::text::parse_i64(s.as_str()) {
                Some(n) => {
                    if *lo <= n && n <= *hi {
                        Some(FieldValue::Int(n))
                    } else {
                        proof {
                            assert(decode_kind_spec(*kind, *v) is None);
                        }
                        None
                    }
                },
                None => {
                    proof {
                        assert(decode_kind_spec(*kind, *v) is None);
                    }
                    None
                },
            },
            _ => {
                proof {
                    assert(decode_kind_spec(*kind, *v) is None);
                }
                None
            },
        },
        FieldKind::TimeMs => match v {
            JsonValue::Num(s) => match crate::text::parse_i64(s.as_str()) {
                Some(n) => {
                    if timestamp_in_calendar_range(n) {
                        Some(FieldValue::Time(n))
                    } else {
                        proof {
                            assert(decode_kind_spec(*kind, *v) is None);
                        }
                        None
                    }
                },
                None => {
                    proof {
                        assert(decode_kind_spec(*kind, *v) is None);
                    }
                    None
                },
            },
            _ => {
                proof {
                    assert(decode_kind_spec(*kind, *v) is None);
                }
                None
            },
        },
        FieldKind::Bool => match v {
            JsonValue::Bool(b) => Some(FieldValue::Bool(*b)),
            JsonValue::Num(s) => {
                if crate::text::str_eq(s.as_str(), "0") {
                    Some(FieldValue::Bool(false))
                } else if crate::text::str_eq(s.as_str(), "1") {
                    Some(FieldValue::Bool(true))
                } else {
                    proof {
                        assert(decode_kind_spec(*kind, *v) is None);
                    }
                    None
                }
            },
            JsonValue::Str(s) => {
                if crate::text::str_eq(s.as_str(), "true") {
                    Some(FieldValue::Bool(true))
                } else if crate::text::str_eq(s.as_str(), "false") {
                    Some(FieldValue::Bool(false))
                } else {
                    proof {
                        assert(decode_kind_spec(*kind, *v) is None);
                    }
                    None
                }
            },
            _ => {
                proof {
                    assert(decode_kind_spec(*kind, *v) is None);
                }
                None
            },
        },
        FieldKind::OrderType => match v {
            JsonValue::Str(s) => Some(FieldValue::Order(TradingOrderType::from(s.as_str()))),
            _ => {
                proof {
                    assert(decode_kind_spec(*kind, *v) is None);
                }
                None
            },
        },
    }
}

/// What decoding the positions from `i` on yields: the decoded values of
/// the non-reserved positions in order, or the first failing position.
pub open spec fn decode_fields_from(
    arr: Seq<JsonValue>,
    schema: Seq<FieldSpec>,
    i: int,
) -> Result<Seq<FieldValue>, DecodeFailure>
    decreases schema.len() - i,
{
    if i < 0 || i >= schema.len() {
        Ok(Seq::<FieldValue>::empty())
    } else {
        match decode_scalar_spec(schema[i], arr[i]) {
            None => Err(DecodeFailure::Field { position: i as usize }),
            Some(fv) => match decode_fields_from(arr, schema, i + 1) {
                Err(e) => Err(e),
                Ok(tail) => Ok(
                    if schema[i].reserved {
                        tail
                    } else {
                        seq![fv] + tail
                    },
                ),
            },
        }
    }
}

/// What decoding an array under a schema yields: an arity failure when the
/// lengths differ, else the fields as `decode_fields_from` describes.
pub open spec fn decode_fields_spec(arr: Seq<JsonValue>, schema: Seq<FieldSpec>) -> Result<
    Seq<FieldValue>,
    DecodeFailure,
> {
    if arr.len() != schema.len() {
        Err(
            DecodeFailure::Arity {
                expected: schema.len() as usize,
                actual: arr.len() as usize,
            },
        )
    } else {
        decode_fields_from(arr, schema, 0)
    }
}

/// Decodes a wire array under a schema: the arity must match exactly; each
/// position is decoded by its rule; reserved positions are consumed but
/// dropped from the output.
pub fn decode_fields(arr: &Vec<JsonValue>, schema: &Vec<FieldSpec>) -> (r: Result<
    Vec<FieldValue>,
    DecodeFailure,
>)
    ensures
        (match r {
            Ok(out) => decode_fields_spec(arr@, schema@) == Ok::<Seq<FieldValue>, DecodeFailure>(
                out@,
            ),
            Err(e) => decode_fields_spec(arr@, schema@) == Err::<Seq<FieldValue>, DecodeFailure>(
                e,
            ),
        }),
{
    let n = schema.len();
    if arr.len() != n {
        return Err(DecodeFailure::Arity { expected: n, actual: arr.len() });
    }
    let mut out: Vec<FieldValue> = Vec::new();
    for i in 0..n
        invariant
            n == schema@.len(),
            n == arr@.len(),
            decode_fields_from(arr@, schema@, 0) == (match decode_fields_from(
                arr@,
                schema@,
                i as int,
            ) {
                Err(e) => Err::<Seq<FieldValue>, DecodeFailure>(e),
                Ok(tail) => Ok::<Seq<FieldValue>, DecodeFailure>(out@ + tail),
            }),
    {
        match decode_scalar(&schema[i], &arr[i]) {
            None => {
                return Err(DecodeFailure::Field { position: i });
            },
            Some(fv) => {
                let ghost prev_out = out@;
                if !schema[i].reserved {
                    out.push(fv);
                }
                proof {
                    assert(decode_fields_from(arr@, schema@, i as int) == (match decode_scalar_spec(
                        schema@[i as int],
                        arr@[i as int],
                    ) {
                        None => Err::<Seq<FieldValue>, DecodeFailure>(
                            DecodeFailure::Field { position: i as usize },
                        ),
                        Some(x) => match decode_fields_from(arr@, schema@, i + 1) {
                            Err(e) => Err::<Seq<FieldValue>, DecodeFailure>(e),
                            Ok(tail) => Ok::<Seq<FieldValue>, DecodeFailure>(
                                if schema@[i as int].reserved {
                                    tail
                                } else {
                                    seq![x] + tail
                                },
                            ),
                        },
                    }));
                    let tail_result = decode_fields_from(arr@, schema@, i + 1);
                    if tail_result is Ok {
                        let tail = tail_result.unwrap();
                        if schema@[i as int].reserved {
                            assert(out@ + tail =~= prev_out + tail);
                        } else {
                            assert(prev_out + (seq![fv] + tail) =~= out@ + tail);
                        }
                    }
                }
            },
        }
    }
    proof {
        assert(out@ + Seq::<FieldValue>::empty() =~= out@);
    }
    Ok(out)
}

/// The schema form of a required field.
pub open spec fn s_req(kind: FieldKind) -> FieldSpec {
    FieldSpec { reserved: false, optional: false, kind }
}

/// The schema form of an optional field.
pub open spec fn s_opt(kind: FieldKind) -> FieldSpec {
    FieldSpec { reserved: false, optional: true, kind }
}

/// The schema form of a reserved slot.
pub open spec fn s_res() -> FieldSpec {
    FieldSpec { reserved: true, optional: true, kind: FieldKind::Any }
}

/// The string a decoded text field holds.
pub fn take_text(fv: &FieldValue) -> (r: String)
    requires
        fv is Text,
    ensures
        *fv == FieldValue::Text(r),
{
    match fv {
        FieldValue::Text(s) => s.clone(),
        _ => vstd::pervasive::unreached(),
    }
}

/// The string a decoded optional text field holds, if present.
pub fn take_opt_text(fv: &FieldValue) -> (r: Option<String>)
    requires
        fv is Text || fv is Null,
    ensures
        (match r {
            Some(s) => *fv == FieldValue::Text(s),
            None => *fv == FieldValue::Null,
        }),
{
    match fv {
        FieldValue::Text(s) => Some(s.clone()),
        FieldValue::Null => None,
        _ => vstd::pervasive::unreached(),
    }
}

/// The decimal text a decoded number field holds.
pub fn take_num(fv: &FieldValue) -> (r: String)
    requires
        fv is Num,
    ensures
        *fv == FieldValue::Num(r),
{
    match fv {
        FieldValue::Num(s) => s.clone(),
        _ => vstd::pervasive::unreached(),
    }
}

/// The boolean a decoded boolean field holds.
pub fn take_bool(fv: &FieldValue) -> (r: bool)
    requires
        fv is Bool,
    ensures
        *fv == FieldValue::Bool(r),
{
    match fv {
        FieldValue::Bool(b) => *b,
        _ => vstd::pervasive::unreached(),
    }
}

/// The value a decoded unsigned field holds.
pub fn take_u64(fv: &FieldValue) -> (r: u64)
    requires
        fv is UInt,
    ensures
        *fv == FieldValue::UInt(r),
{
    match fv {
        FieldValue::UInt(n) => *n,
        _ => vstd::pervasive::unreached(),
    }
}

/// The value a decoded optional unsigned field holds, if present.
pub fn take_opt_u64(fv: &FieldValue) -> (r: Option<u64>)
    requires
        fv is UInt || fv is Null,
    ensures
        (match r {
            Some(n) => *fv == FieldValue::UInt(n),
            None => *fv == FieldValue::Null,
        }),
{
    match fv {
        FieldValue::UInt(n) => Some(*n),
        FieldValue::Null => None,
        _ => vstd::pervasive::unreached(),
    }
}

/// The millisecond count a decoded time field holds.
pub fn take_time(fv: &FieldValue) -> (r: i64)
    requires
        fv is Time,
    ensures
        *fv == FieldValue::Time(r),
{
    match fv {
        FieldValue::Time(t) => *t,
        _ => vstd::pervasive::unreached(),
    }
}

/// The order type a decoded enumerated field holds.
pub fn take_order(fv: &FieldValue) -> (r: TradingOrderType)
    requires
        fv is Order,
    ensures
        *fv == FieldValue::Order(r),
{
    match fv {
        FieldValue::Order(t) => *t,
        _ => vstd::pervasive::unreached(),
    }
}

/// The order type a decoded optional enumerated field holds, if present.
pub fn take_opt_order(fv: &FieldValue) -> (r: Option<TradingOrderType>)
    requires
        fv is Order || fv is Null,
    ensures
        (match r {
            Some(t) => *fv == FieldValue::Order(t),
            None => *fv == FieldValue::Null,
        }),
{
    match fv {
        FieldValue::Order(t) => Some(*t),
        FieldValue::Null => None,
        _ => vstd::pervasive::unreached(),
    }
}

/// The value a decoded signed field holds.
pub fn take_int(fv: &FieldValue) -> (r: i64)
    requires
        fv is Int,
    ensures
        *fv == FieldValue::Int(r),
{
    match fv {
        FieldValue::Int(n) => *n,
        _ => vstd::pervasive::unreached(),
    }
}

} // verus!
