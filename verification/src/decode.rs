//! Reading typed fields out of parsed JSON objects.
//!
//! Every extractor comes in two halves: a spec function pair saying when the
//! field is acceptable (`*_ok`) and what value it denotes (`*_rel`), and an
//! executable function proved to return exactly that. Unknown members are
//! ignored throughout; a member that is present must have the right shape.
use vstd::prelude::*;

use crate::error::DecodeError;
use crate::instant::Instant;
use crate::instant::parse_instant;
use crate::instant::utc_instant_of;
use crate::json::JVal;
use crate::json::JsonMember;
use crate::json::JsonNum;
use crate::json::JsonValue;
use crate::json::members_view;
use crate::json::lemma_members_view_index;
use crate::json::list_view;
use crate::json::lemma_list_view_index;
use crate::text::pow10;
use crate::text::pow10_u64;
use crate::text::str_eq;

verus! {

/// The value of the first member named `key`, if any.
pub open spec fn jget(m: Seq<(Seq<char>, JVal)>, key: Seq<char>) -> Option<JVal>
    decreases m,
{
    if m.len() == 0 {
        None
    } else if m[0].0 == key {
        Some(m[0].1)
    } else {
        jget(m.drop_first(), key)
    }
}

/// Look a member up by key.
pub fn obj_get<'a>(members: &'a Vec<JsonMember>, key: &str) -> (r: Option<&'a JsonValue>)
    ensures
        match jget(members_view(members@), key@) {
            Some(jv) => r matches Some(v) && v@ == jv,
            None => r is None,
        },
{
    let ghost m = members_view(members@);
    let n = members.len();
    proof {
        crate::json::lemma_members_view_len(members@);
    }
    let mut i: usize = 0;
    proof {
        assert(m.skip(0) =~= m);
    }
    while i < n
        invariant
            n == members@.len(),
            m == members_view(members@),
            m.len() == n,
            i <= n,
            jget(m, key@) == jget(m.skip(i as int), key@),
        decreases n - i,
    {
        proof {
            lemma_members_view_index(members@, i as int);
            assert(m.skip(i as int).len() == n - i);
            assert(m.skip(i as int)[0] == m[i as int]);
        }
        if str_eq(members[i].key.as_str(), key) {
            proof {
                assert(jget(m.skip(i as int), key@) == Some(m[i as int].1));
            }
            return Some(&members[i].value);
        }
        proof {
            assert(m.skip(i as int).drop_first() =~= m.skip(i + 1));
        }
        i = i + 1;
    }
    proof {
        assert(m.skip(n as int) =~= Seq::<(Seq<char>, JVal)>::empty());
    }
    None
}

/// A required string member.
pub open spec fn req_str_ok(m: Seq<(Seq<char>, JVal)>, k: Seq<char>) -> bool {
    jget(m, k) matches Some(JVal::Str(_))
}

pub open spec fn req_str_rel(x: String, m: Seq<(Seq<char>, JVal)>, k: Seq<char>) -> bool {
    match jget(m, k) {
        Some(JVal::Str(s)) => x@ == s,
        _ => false,
    }
}

pub fn get_req_str(members: &Vec<JsonMember>, key: &str) -> (r: Result<String, DecodeError>)
    ensures
        match r {
            Ok(v) => req_str_ok(members_view(members@), key@) && req_str_rel(
                v,
                members_view(members@),
                key@,
            ),
            Err(e) => !req_str_ok(members_view(members@), key@) && e == DecodeError::Shape,
        },
{
    match obj_get(members, key) {
        Some(JsonValue::Str(s)) => Ok(s.clone()),
        _ => Err(DecodeError::Shape),
    }
}

/// An optional string member: absent or `null` means "no value".
pub open spec fn opt_str_ok(m: Seq<(Seq<char>, JVal)>, k: Seq<char>) -> bool {
    match jget(m, k) {
        None => true,
        Some(JVal::Null) => true,
        Some(JVal::Str(_)) => true,
        _ => false,
    }
}

pub open spec fn opt_str_rel(x: Option<String>, m: Seq<(Seq<char>, JVal)>, k: Seq<char>) -> bool {
    match jget(m, k) {
        None => x is None,
        Some(JVal::Null) => x is None,
        Some(JVal::Str(s)) => x matches Some(v) && v@ == s,
        _ => false,
    }
}

pub fn get_opt_str(members: &Vec<JsonMember>, key: &str) -> (r: Result<
    Option<String>,
    DecodeError,
>)
    ensures
        match r {
            Ok(v) => opt_str_ok(members_view(members@), key@) && opt_str_rel(
                v,
                members_view(members@),
                key@,
            ),
            Err(e) => !opt_str_ok(members_view(members@), key@) && e == DecodeError::Shape,
        },
{
    match obj_get(members, key) {
        None => Ok(None),
        Some(JsonValue::Null) => Ok(None),
        Some(JsonValue::Str(s)) => Ok(Some(s.clone())),
        _ => Err(DecodeError::Shape),
    }
}

/// A required boolean member.
pub open spec fn req_bool_ok(m: Seq<(Seq<char>, JVal)>, k: Seq<char>) -> bool {
    jget(m, k) matches Some(JVal::Bool(_))
}

pub open spec fn req_bool_rel(x: bool, m: Seq<(Seq<char>, JVal)>, k: Seq<char>) -> bool {
    jget(m, k) == Some(JVal::Bool(x))
}

pub fn get_req_bool(members: &Vec<JsonMember>, key: &str) -> (r: Result<bool, DecodeError>)
    ensures
        match r {
            Ok(v) => req_bool_ok(members_view(members@), key@) && req_bool_rel(
                v,
                members_view(members@),
                key@,
            ),
            Err(e) => !req_bool_ok(members_view(members@), key@) && e == DecodeError::Shape,
        },
{
    match obj_get(members, key) {
        Some(JsonValue::Bool(b)) => Ok(*b),
        _ => Err(DecodeError::Shape),
    }
}

/// An optional boolean member.
pub open spec fn opt_bool_ok(m: Seq<(Seq<char>, JVal)>, k: Seq<char>) -> bool {
    match jget(m, k) {
        None => true,
        Some(JVal::Null) => true,
        Some(JVal::Bool(_)) => true,
        _ => false,
    }
}

pub open spec fn opt_bool_rel(x: Option<bool>, m: Seq<(Seq<char>, JVal)>, k: Seq<char>) -> bool {
    match jget(m, k) {
        None => x is None,
        Some(JVal::Null) => x is None,
        Some(JVal::Bool(b)) => x == Some(b),
        _ => false,
    }
}

pub fn get_opt_bool(members: &Vec<JsonMember>, key: &str) -> (r: Result<Option<bool>, DecodeError>)
    ensures
        match r {
            Ok(v) => opt_bool_ok(members_view(members@), key@) && opt_bool_rel(
                v,
                members_view(members@),
                key@,
            ),
            Err(e) => !opt_bool_ok(members_view(members@), key@) && e == DecodeError::Shape,
        },
{
    match obj_get(members, key) {
        None => Ok(None),
        Some(JsonValue::Null) => Ok(None),
        Some(JsonValue::Bool(b)) => Ok(Some(*b)),
        _ => Err(DecodeError::Shape),
    }
}

/// The integer a JSON number denotes, if it denotes one exactly and it fits
/// the signed 64-bit magnitude bound.
pub open spec fn int_of_jnum(n: JsonNum) -> Option<int> {
    if n.scale > 8 {
        None
    } else if (n.mant as int) % (pow10(n.scale as nat) as int) != 0 {
        None
    } else {
        let u = (n.mant as int) / (pow10(n.scale as nat) as int);
        if u > i64::MAX {
            None
        } else if n.neg {
            Some(-u)
        } else {
            Some(u)
        }
    }
}

/// Executable twin of [`int_of_jnum`].
pub fn int_of_jnum_x(n: JsonNum) -> (r: Option<i64>)
    ensures
        match int_of_jnum(n) {
            Some(v) => r matches Some(x) && x as int == v,
            None => r is None,
        },
{
    if n.scale > 8 {
        return None;
    }
    let p = pow10_u64(n.scale);
    proof {
        crate::text::lemma_pow10_mono(0, n.scale as nat);
    }
    if n.mant % p != 0 {
        return None;
    }
    let u = n.mant / p;
    if u > 0x7fff_ffff_ffff_ffff {
        return None;
    }
    if n.neg {
        Some(-(u as i64))
    } else {
        Some(u as i64)
    }
}

/// The integer's thousandfold a JSON number denotes exactly: the value in
/// thousandths, used for hue and saturation.
pub open spec fn millis_of_jnum(n: JsonNum) -> Option<int> {
    if n.scale > 8 {
        None
    } else {
        let num = (n.mant as int) * 1000;
        if num % (pow10(n.scale as nat) as int) != 0 {
            None
        } else {
            let u = num / (pow10(n.scale as nat) as int);
            if u > i64::MAX {
                None
            } else if n.neg {
                Some(-u)
            } else {
                Some(u)
            }
        }
    }
}

/// Executable twin of [`millis_of_jnum`].
pub fn millis_of_jnum_x(n: JsonNum) -> (r: Option<i64>)
    ensures
        match millis_of_jnum(n) {
            Some(v) => r matches Some(x) && x as int == v,
            None => r is None,
        },
{
    if n.scale > 8 {
        return None;
    }
    let p = pow10_u64(n.scale) as u128;
    proof {
        crate::text::lemma_pow10_mono(0, n.scale as nat);
    }
    let num = (n.mant as u128) * 1000;
    if num % p != 0 {
        return None;
    }
    let u = num / p;
    if u > 0x7fff_ffff_ffff_ffff {
        return None;
    }
    if n.neg {
        Some(-(u as i64))
    } else {
        Some(u as i64)
    }
}

/// A required integer member within `lo ..= hi`.
pub open spec fn num_req_ok(m: Seq<(Seq<char>, JVal)>, k: Seq<char>, lo: int, hi: int) -> bool {
    match jget(m, k) {
        Some(JVal::Num(n)) => match int_of_jnum(n) {
            Some(v) => lo <= v <= hi,
            None => false,
        },
        _ => false,
    }
}

pub open spec fn num_req_rel(x: int, m: Seq<(Seq<char>, JVal)>, k: Seq<char>) -> bool {
    match jget(m, k) {
        Some(JVal::Num(n)) => int_of_jnum(n) == Some(x),
        _ => false,
    }
}

pub fn get_req_int(members: &Vec<JsonMember>, key: &str, lo: i64, hi: i64) -> (r: Result<
    i64,
    DecodeError,
>)
    requires
        lo <= hi,
    ensures
        match r {
            Ok(v) => num_req_ok(members_view(members@), key@, lo as int, hi as int) && num_req_rel(
                v as int,
                members_view(members@),
                key@,
            ) && lo <= v <= hi,
            Err(e) => !num_req_ok(members_view(members@), key@, lo as int, hi as int) && e
                == DecodeError::Shape,
        },
{
    match obj_get(members, key) {
        Some(JsonValue::Num(n)) => match int_of_jnum_x(*n) {
            Some(v) => {
                if lo <= v && v <= hi {
                    Ok(v)
                } else {
                    Err(DecodeError::Shape)
                }
            },
            None => Err(DecodeError::Shape),
        },
        _ => Err(DecodeError::Shape),
    }
}

/// An optional integer member within `lo ..= hi`.
pub open spec fn num_opt_ok(m: Seq<(Seq<char>, JVal)>, k: Seq<char>, lo: int, hi: int) -> bool {
    match jget(m, k) {
        None => true,
        Some(JVal::Null) => true,
        Some(JVal::Num(n)) => match int_of_jnum(n) {
            Some(v) => lo <= v <= hi,
            None => false,
        },
        _ => false,
    }
}

pub open spec fn num_opt_rel(x: Option<int>, m: Seq<(Seq<char>, JVal)>, k: Seq<char>) -> bool {
    match jget(m, k) {
        None => x is None,
        Some(JVal::Null) => x is None,
        Some(JVal::Num(n)) => x matches Some(v) && int_of_jnum(n) == Some(v),
        _ => false,
    }
}

pub fn get_opt_int(members: &Vec<JsonMember>, key: &str, lo: i64, hi: i64) -> (r: Result<
    Option<i64>,
    DecodeError,
>)
    requires
        lo <= hi,
    ensures
        match r {
            Ok(v) => num_opt_ok(members_view(members@), key@, lo as int, hi as int) && num_opt_rel(
                match v {
                    Some(x) => Some(x as int),
                    None => None,
                },
                members_view(members@),
                key@,
            ) && (v matches Some(x) ==> lo <= x <= hi),
            Err(e) => !num_opt_ok(members_view(members@), key@, lo as int, hi as int) && e
                == DecodeError::Shape,
        },
{
    match obj_get(members, key) {
        None => Ok(None),
        Some(JsonValue::Null) => Ok(None),
        Some(JsonValue::Num(n)) => match int_of_jnum_x(*n) {
            Some(v) => {
                if lo <= v && v <= hi {
                    Ok(Some(v))
                } else {
                    Err(DecodeError::Shape)
                }
            },
            None => Err(DecodeError::Shape),
        },
        _ => Err(DecodeError::Shape),
    }
}

/// An optional fixed-point member read in thousandths.
pub open spec fn millis_opt_ok(m: Seq<(Seq<char>, JVal)>, k: Seq<char>) -> bool {
    match jget(m, k) {
        None => true,
        Some(JVal::Null) => true,
        Some(JVal::Num(n)) => millis_of_jnum(n) is Some,
        _ => false,
    }
}

pub open spec fn millis_opt_rel(x: Option<int>, m: Seq<(Seq<char>, JVal)>, k: Seq<char>) -> bool {
    match jget(m, k) {
        None => x is None,
        Some(JVal::Null) => x is None,
        Some(JVal::Num(n)) => x matches Some(v) && millis_of_jnum(n) == Some(v),
        _ => false,
    }
}

pub fn get_opt_millis(members: &Vec<JsonMember>, key: &str) -> (r: Result<
    Option<i64>,
    DecodeError,
>)
    ensures
        match r {
            Ok(v) => millis_opt_ok(members_view(members@), key@) && millis_opt_rel(
                match v {
                    Some(x) => Some(x as int),
                    None => None,
                },
                members_view(members@),
                key@,
            ),
            Err(e) => !millis_opt_ok(members_view(members@), key@) && e == DecodeError::Shape,
        },
{
    match obj_get(members, key) {
        None => Ok(None),
        Some(JsonValue::Null) => Ok(None),
        Some(JsonValue::Num(n)) => match millis_of_jnum_x(*n) {
            Some(v) => Ok(Some(v)),
            None => Err(DecodeError::Shape),
        },
        _ => Err(DecodeError::Shape),
    }
}

/// A required timestamp member: a string that chrono accepts. A malformed
/// or missing one fails the record.
pub open spec fn req_ts_ok(m: Seq<(Seq<char>, JVal)>, k: Seq<char>) -> bool {
    match jget(m, k) {
        Some(JVal::Str(s)) => utc_instant_of(s) is Some,
        _ => false,
    }
}

pub open spec fn req_ts_rel(t: Instant, m: Seq<(Seq<char>, JVal)>, k: Seq<char>) -> bool {
    match jget(m, k) {
        Some(JVal::Str(s)) => utc_instant_of(s) == Some(t.epoch_millis),
        _ => false,
    }
}

pub fn get_req_ts(members: &Vec<JsonMember>, key: &str) -> (r: Result<Instant, DecodeError>)
    ensures
        match r {
            Ok(t) => req_ts_ok(members_view(members@), key@) && req_ts_rel(
                t,
                members_view(members@),
                key@,
            ),
            Err(e) => !req_ts_ok(members_view(members@), key@) && (e == DecodeError::Shape || e
                == DecodeError::Timestamp),
        },
{
    match obj_get(members, key) {
        Some(JsonValue::Str(s)) => match parse_instant(s.as_str()) {
            Some(t) => Ok(t),
            None => Err(DecodeError::Timestamp),
        },
        _ => Err(DecodeError::Shape),
    }
}

/// An optional timestamp member, read leniently: absence, a non-string
/// value, or a string chrono rejects all degrade to "no value". This never
/// fails a record.
pub open spec fn opt_ts_rel(o: Option<Instant>, m: Seq<(Seq<char>, JVal)>, k: Seq<char>) -> bool {
    match jget(m, k) {
        Some(JVal::Str(s)) => match utc_instant_of(s) {
            Some(ms) => o == Some(Instant { epoch_millis: ms }),
            None => o is None,
        },
        _ => o is None,
    }
}

pub fn get_opt_ts(members: &Vec<JsonMember>, key: &str) -> (r: Option<Instant>)
    ensures
        opt_ts_rel(r, members_view(members@), key@),
{
    match obj_get(members, key) {
        Some(JsonValue::Str(s)) => parse_instant(s.as_str()),
        _ => None,
    }
}

/// A timestamp member that defaults to the epoch when absent but must be
/// well formed when present.
pub open spec fn def_ts_ok(m: Seq<(Seq<char>, JVal)>, k: Seq<char>) -> bool {
    match jget(m, k) {
        None => true,
        Some(JVal::Str(s)) => utc_instant_of(s) is Some,
        _ => false,
    }
}

pub open spec fn def_ts_rel(t: Instant, m: Seq<(Seq<char>, JVal)>, k: Seq<char>) -> bool {
    match jget(m, k) {
        None => t.epoch_millis == 0,
        Some(JVal::Str(s)) => utc_instant_of(s) == Some(t.epoch_millis),
        _ => false,
    }
}

pub fn get_def_ts(members: &Vec<JsonMember>, key: &str) -> (r: Result<Instant, DecodeError>)
    ensures
        match r {
            Ok(t) => def_ts_ok(members_view(members@), key@) && def_ts_rel(
                t,
                members_view(members@),
                key@,
            ),
            Err(e) => !def_ts_ok(members_view(members@), key@) && (e == DecodeError::Shape || e
                == DecodeError::Timestamp),
        },
{
    match obj_get(members, key) {
        None => Ok(Instant { epoch_millis: 0 }),
        Some(JsonValue::Str(s)) => match parse_instant(s.as_str()) {
            Some(t) => Ok(t),
            None => Err(DecodeError::Timestamp),
        },
        _ => Err(DecodeError::Shape),
    }
}

/// A required array-of-strings member.
pub open spec fn arr_str_ok(m: Seq<(Seq<char>, JVal)>, k: Seq<char>) -> bool {
    match jget(m, k) {
        Some(JVal::Arr(items)) => forall|i: int| #![trigger items[i]]
            0 <= i < items.len() ==> items[i] is Str,
        _ => false,
    }
}

pub open spec fn arr_str_rel(vs: Seq<String>, m: Seq<(Seq<char>, JVal)>, k: Seq<char>) -> bool {
    match jget(m, k) {
        Some(JVal::Arr(items)) => vs.len() == items.len() && forall|i: int|
            #![trigger items[i]]
            0 <= i < items.len() ==> (items[i] matches JVal::Str(s) && vs[i]@ == s),
        _ => false,
    }
}

pub fn get_str_array(members: &Vec<JsonMember>, key: &str) -> (r: Result<Vec<String>, DecodeError>)
    ensures
        match r {
            Ok(v) => arr_str_ok(members_view(members@), key@) && arr_str_rel(
                v@,
                members_view(members@),
                key@,
            ),
            Err(e) => !arr_str_ok(members_view(members@), key@) && e == DecodeError::Shape,
        },
{
    match obj_get(members, key) {
        Some(jv) => match jv {
            JsonValue::Arr(items) => {
                let ghost gitems = list_view(items@);
                proof {
                    assert(jv@ == JVal::Arr(gitems));
                    crate::json::lemma_list_view_len(items@);
                }
                let n = items.len();
                let mut out: Vec<String> = Vec::new();
                let mut i: usize = 0;
                while i < n
                    invariant
                        n == items@.len(),
                        gitems == list_view(items@),
                        gitems.len() == n,
                        jget(members_view(members@), key@) == Some(JVal::Arr(gitems)),
                        i <= n,
                        out@.len() == i,
                        forall|q: int|
                            #![trigger gitems[q]]
                            0 <= q < i ==> (gitems[q] matches JVal::Str(s) && out@[q]@ == s),
                    decreases n - i,
                {
                    proof {
                        lemma_list_view_index(items@, i as int);
                        assert(jget(members_view(members@), key@) == Some(JVal::Arr(gitems)));
                    }
                    match &items[i] {
                        JsonValue::Str(s) => {
                            out.push(s.clone());
                        },
                        _ => {
                            proof {
                                assert(!(gitems[i as int] is Str));
                            }
                            return Err(DecodeError::Shape);
                        },
                    }
                    i = i + 1;
                }
                proof {
                    assert(jget(members_view(members@), key@) == Some(JVal::Arr(gitems)));
                    assert(arr_str_rel(out@, members_view(members@), key@));
                }
                Ok(out)
            },
            _ => Err(DecodeError::Shape),
        },
        None => Err(DecodeError::Shape),
    }
}

/// Lift a machine-width optional into the mathematical integers.
pub open spec fn opt_int_of_u8(x: Option<u8>) -> Option<int> {
    match x {
        Some(v) => Some(v as int),
        None => None,
    }
}

pub open spec fn opt_int_of_u16(x: Option<u16>) -> Option<int> {
    match x {
        Some(v) => Some(v as int),
        None => None,
    }
}

pub open spec fn opt_int_of_i16(x: Option<i16>) -> Option<int> {
    match x {
        Some(v) => Some(v as int),
        None => None,
    }
}

pub open spec fn opt_int_of_i64(x: Option<i64>) -> Option<int> {
    match x {
        Some(v) => Some(v as int),
        None => None,
    }
}

pub fn to_opt_u8(x: Option<i64>) -> (r: Option<u8>)
    requires
        x matches Some(v) ==> 0 <= v <= 255,
    ensures
        opt_int_of_u8(r) == opt_int_of_i64(x),
{
    match x {
        Some(v) => Some(v as u8),
        None => None,
    }
}

pub fn to_opt_u16(x: Option<i64>) -> (r: Option<u16>)
    requires
        x matches Some(v) ==> 0 <= v <= 65535,
    ensures
        opt_int_of_u16(r) == opt_int_of_i64(x),
{
    match x {
        Some(v) => Some(v as u16),
        None => None,
    }
}

pub fn to_opt_i16(x: Option<i64>) -> (r: Option<i16>)
    requires
        x matches Some(v) ==> -32768 <= v <= 32767,
    ensures
        opt_int_of_i16(r) == opt_int_of_i64(x),
{
    match x {
        Some(v) => Some(v as i16),
        None => None,
    }
}


/// An optional array-of-strings member: absent or `null` means "no value".
pub open spec fn opt_arr_str_ok(m: Seq<(Seq<char>, JVal)>, k: Seq<char>) -> bool {
    match jget(m, k) {
        None => true,
        Some(JVal::Null) => true,
        Some(JVal::Arr(items)) => forall|i: int| #![trigger items[i]]
            0 <= i < items.len() ==> items[i] is Str,
        _ => false,
    }
}

pub open spec fn opt_arr_str_rel(o: Option<Vec<String>>, m: Seq<(Seq<char>, JVal)>, k: Seq<char>) -> bool {
    match jget(m, k) {
        None => o is None,
        Some(JVal::Null) => o is None,
        Some(JVal::Arr(items)) => o matches Some(v) && v@.len() == items.len() && forall|i: int|
            #![trigger items[i]]
            0 <= i < items.len() ==> (items[i] matches JVal::Str(s) && v@[i]@ == s),
        _ => false,
    }
}

pub fn get_opt_str_array(members: &Vec<JsonMember>, key: &str) -> (r: Result<
    Option<Vec<String>>,
    DecodeError,
>)
    ensures
        match r {
            Ok(v) => opt_arr_str_ok(members_view(members@), key@) && opt_arr_str_rel(
                v,
                members_view(members@),
                key@,
            ),
            Err(e) => !opt_arr_str_ok(members_view(members@), key@) && e == DecodeError::Shape,
        },
{
    match obj_get(members, key) {
        None => Ok(None),
        Some(jv) => match jv {
            JsonValue::Null => Ok(None),
            JsonValue::Arr(items) => {
                let ghost gitems = list_view(items@);
                proof {
                    assert(jv@ == JVal::Arr(gitems));
                    crate::json::lemma_list_view_len(items@);
                }
                let n = items.len();
                let mut out: Vec<String> = Vec::new();
                let mut i: usize = 0;
                while i < n
                    invariant
                        n == items@.len(),
                        gitems == list_view(items@),
                        gitems.len() == n,
                        jget(members_view(members@), key@) == Some(JVal::Arr(gitems)),
                        i <= n,
                        out@.len() == i,
                        forall|q: int|
                            #![trigger gitems[q]]
                            0 <= q < i ==> (gitems[q] matches JVal::Str(s) && out@[q]@ == s),
                    decreases n - i,
                {
                    proof {
                        lemma_list_view_index(items@, i as int);
                    }
                    match &items[i] {
                        JsonValue::Str(s) => {
                            out.push(s.clone());
                        },
                        _ => {
                            proof {
                                assert(!(gitems[i as int] is Str));
                            }
                            return Err(DecodeError::Shape);
                        },
                    }
                    i = i + 1;
                }
                proof {
                    assert(opt_arr_str_rel(
                        Some(out),
                        members_view(members@),
                        key@,
                    ));
                }
                Ok(Some(out))
            },
            _ => Err(DecodeError::Shape),
        },
    }
}

} // verus!
