//! The JSON shape the hub speaks, as this crate reads it.
//!
//! [`spec_parse_json`] and the spec functions around it spell out the
//! accepted grammar over a sequence of characters; [`parse_json`] is the
//! executable reader, proved to return exactly what the grammar says. Two
//! deliberate narrowings against full JSON, both written into the grammar:
//! `\uXXXX` string escapes are not accepted, and a number carries at most 19
//! digits, at most 8 of them fractional, so that its digits always fit one
//! machine word.
use vstd::prelude::*;

use crate::error::DecodeError;
use crate::text::pow10;
use crate::text::lemma_pow10_add;
use crate::text::lemma_pow10_mono;
use crate::text::pow10_u64;
use crate::text::push_char;
use vstd::string::StrSliceExecFns;
use vstd::string::StringExecFns;

verus! {

/// A JSON number, read as `(-1 if neg else 1) * mant / 10^scale`: the
/// written digits with `scale` of them behind the decimal point.
#[derive(Debug, Clone, Copy, PartialEq, Eq, Structural)]
pub struct JsonNum {
    pub neg: bool,
    pub mant: u64,
    pub scale: u8,
}

/// A parsed JSON value. Object members keep the order in which they were
/// written; nothing is deduplicated.
#[derive(Debug, PartialEq)]
pub enum JsonValue {
    Null,
    Bool(bool),
    Num(JsonNum),
    Str(String),
    Arr(Vec<JsonValue>),
    Obj(Vec<JsonMember>),
}

/// One `key: value` pair of a JSON object.
#[derive(Debug, PartialEq)]
pub struct JsonMember {
    pub key: String,
    pub value: JsonValue,
}

/// The mathematical shape of a JSON value, used by every contract that
/// speaks about parsed text.
pub enum JVal {
    Null,
    Bool(bool),
    Num(JsonNum),
    Str(Seq<char>),
    Arr(Seq<JVal>),
    Obj(Seq<(Seq<char>, JVal)>),
}

/// The views of a list of values, in order.
pub open spec fn list_view(l: Seq<JsonValue>) -> Seq<JVal>
    decreases l,
{
    if l.len() == 0 {
        Seq::empty()
    } else {
        list_view(l.drop_last()).push(l.last().view())
    }
}

/// The views of a list of members, in order.
pub open spec fn members_view(l: Seq<JsonMember>) -> Seq<(Seq<char>, JVal)>
    decreases l,
{
    if l.len() == 0 {
        Seq::empty()
    } else {
        members_view(l.drop_last()).push((l.last().key@, l.last().value.view()))
    }
}

impl View for JsonValue {
    type V = JVal;

    open spec fn view(&self) -> JVal
        decreases self,
    {
        match self {
            JsonValue::Null => JVal::Null,
            JsonValue::Bool(b) => JVal::Bool(*b),
            JsonValue::Num(n) => JVal::Num(*n),
            JsonValue::Str(s) => JVal::Str(s@),
            JsonValue::Arr(items) => JVal::Arr(list_view(items@)),
            JsonValue::Obj(members) => JVal::Obj(members_view(members@)),
        }
    }
}

pub proof fn lemma_list_view_len(l: Seq<JsonValue>)
    ensures
        list_view(l).len() == l.len(),
    decreases l,
{
    if l.len() > 0 {
        lemma_list_view_len(l.drop_last());
        assert(l.drop_last().len() == l.len() - 1);
        assert(list_view(l) == list_view(l.drop_last()).push(l.last().view()));
        assert(list_view(l).len() == list_view(l.drop_last()).len() + 1);
    } else {
        assert(list_view(l) == Seq::<JVal>::empty());
    }
}

pub proof fn lemma_list_view_index(l: Seq<JsonValue>, i: int)
    requires
        0 <= i < l.len(),
    ensures
        list_view(l).len() == l.len(),
        list_view(l)[i] == l[i]@,
    decreases l,
{
    lemma_list_view_len(l);
    assert(list_view(l) == list_view(l.drop_last()).push(l.last().view()));
    if i < l.len() - 1 {
        lemma_list_view_index(l.drop_last(), i);
        assert(l.drop_last()[i] == l[i]);
        assert(list_view(l)[i] == list_view(l.drop_last())[i]);
    } else {
        assert(l.last() == l[i]);
    }
}

pub proof fn lemma_list_view_push(l: Seq<JsonValue>, v: JsonValue)
    ensures
        list_view(l.push(v)) == list_view(l).push(v@),
{
    assert(l.push(v).drop_last() =~= l);
    assert(l.push(v).last() == v);
}

pub proof fn lemma_members_view_len(l: Seq<JsonMember>)
    ensures
        members_view(l).len() == l.len(),
    decreases l,
{
    if l.len() > 0 {
        lemma_members_view_len(l.drop_last());
        assert(l.drop_last().len() == l.len() - 1);
        assert(members_view(l) == members_view(l.drop_last()).push(
            (l.last().key@, l.last().value.view()),
        ));
    } else {
        assert(members_view(l) == Seq::<(Seq<char>, JVal)>::empty());
    }
}

pub proof fn lemma_members_view_index(l: Seq<JsonMember>, i: int)
    requires
        0 <= i < l.len(),
    ensures
        members_view(l).len() == l.len(),
        members_view(l)[i] == (l[i].key@, l[i].value@),
    decreases l,
{
    lemma_members_view_len(l);
    assert(members_view(l) == members_view(l.drop_last()).push(
        (l.last().key@, l.last().value.view()),
    ));
    if i < l.len() - 1 {
        lemma_members_view_index(l.drop_last(), i);
        assert(l.drop_last()[i] == l[i]);
        assert(members_view(l)[i] == members_view(l.drop_last())[i]);
    } else {
        assert(l.last() == l[i]);
    }
}

pub proof fn lemma_members_view_push(l: Seq<JsonMember>, m: JsonMember)
    ensures
        members_view(l.push(m)) == members_view(l).push((m.key@, m.value@)),
{
    assert(l.push(m).drop_last() =~= l);
    assert(l.push(m).last() == m);
}

/// JSON whitespace.
pub open spec fn is_ws(c: char) -> bool {
    c == ' ' || c == '\n' || c == '\r' || c == '\t'
}

/// The first position at or after `i` that does not hold whitespace.
pub open spec fn skip_ws(s: Seq<char>, i: int) -> int
    decreases s.len() - i,
{
    if 0 <= i < s.len() && is_ws(s[i]) {
        skip_ws(s, i + 1)
    } else {
        i
    }
}

pub open spec fn is_digit(c: char) -> bool {
    48 <= c as u32 <= 57
}

pub open spec fn digit_of(c: char) -> int {
    c as u32 - 48
}

/// The first position at or after `i` that does not hold a decimal digit.
pub open spec fn digits_end(s: Seq<char>, i: int) -> int
    decreases s.len() - i,
{
    if 0 <= i < s.len() && is_digit(s[i]) {
        digits_end(s, i + 1)
    } else {
        i
    }
}

/// The value of the digit run `s[i ..< k]`, most significant first.
pub open spec fn digits_value(s: Seq<char>, i: int, k: int) -> int
    decreases k - i,
{
    if i < k {
        digits_value(s, i, k - 1) * 10 + digit_of(s[k - 1])
    } else {
        0
    }
}

/// A number starting at `i`: an optional minus, an integer digit run, and
/// an optional fraction of 1 to 8 digits; 19 digits in all at most.
pub open spec fn parse_num(s: Seq<char>, i: int) -> Option<(JsonNum, int)> {
    let neg = 0 <= i < s.len() && s[i] == '-';
    let j = if neg {
        i + 1
    } else {
        i
    };
    let k = digits_end(s, j);
    if k == j {
        None
    } else if k < s.len() && s[k] == '.' {
        let f = digits_end(s, k + 1);
        let scale = f - (k + 1);
        if scale < 1 || scale > 8 || (k - j) + scale > 19 {
            None
        } else {
            let m = digits_value(s, j, k) * pow10(scale as nat) + digits_value(s, k + 1, f);
            Some((JsonNum { neg, mant: m as u64, scale: scale as u8 }, f))
        }
    } else {
        if k - j > 19 {
            None
        } else {
            Some((JsonNum { neg, mant: digits_value(s, j, k) as u64, scale: 0 }, k))
        }
    }
}

/// What a one-character escape after a backslash stands for; `\uXXXX` is
/// not accepted.
pub open spec fn unescape(c: char) -> Option<char> {
    if c == '"' {
        Some('"')
    } else if c == '\\' {
        Some('\\')
    } else if c == '/' {
        Some('/')
    } else if c == 'n' {
        Some('\n')
    } else if c == 't' {
        Some('\t')
    } else if c == 'r' {
        Some('\r')
    } else if c == 'b' {
        Some('\u{8}')
    } else if c == 'f' {
        Some('\u{c}')
    } else {
        None
    }
}

/// The characters of a string literal, read from just after the opening
/// quote up to and including the closing quote. Unescaped control
/// characters are refused.
pub open spec fn parse_str_chars(s: Seq<char>, i: int) -> Option<(Seq<char>, int)>
    decreases s.len() - i,
{
    if !(0 <= i < s.len()) {
        None
    } else if s[i] == '"' {
        Some((Seq::empty(), i + 1))
    } else if s[i] == '\\' {
        if i + 1 < s.len() {
            match unescape(s[i + 1]) {
                Some(c) => match parse_str_chars(s, i + 2) {
                    Some((rest, e)) => Some((seq![c] + rest, e)),
                    None => None,
                },
                None => None,
            }
        } else {
            None
        }
    } else if (s[i] as u32) < 32 {
        None
    } else {
        match parse_str_chars(s, i + 1) {
            Some((rest, e)) => Some((seq![s[i]] + rest, e)),
            None => None,
        }
    }
}

pub open spec fn has_null(s: Seq<char>, i: int) -> bool {
    i + 4 <= s.len() && s[i] == 'n' && s[i + 1] == 'u' && s[i + 2] == 'l' && s[i + 3] == 'l'
}

pub open spec fn has_true(s: Seq<char>, i: int) -> bool {
    i + 4 <= s.len() && s[i] == 't' && s[i + 1] == 'r' && s[i + 2] == 'u' && s[i + 3] == 'e'
}

pub open spec fn has_false(s: Seq<char>, i: int) -> bool {
    i + 5 <= s.len() && s[i] == 'f' && s[i + 1] == 'a' && s[i + 2] == 'l' && s[i + 3] == 's'
        && s[i + 4] == 'e'
}

/// One JSON value starting at `i`, after optional whitespace. The fuel
/// bounds how deep values and lists may nest; the top-level entry point
/// hands in more than any text of the given length can use.
pub open spec fn parse_value(s: Seq<char>, i: int, fuel: nat) -> Option<(JVal, int)>
    decreases fuel,
{
    if fuel == 0 {
        None
    } else {
        let j = skip_ws(s, i);
        if !(0 <= j < s.len()) {
            None
        } else {
            let c = s[j];
            if c == 'n' {
                if has_null(s, j) {
                    Some((JVal::Null, j + 4))
                } else {
                    None
                }
            } else if c == 't' {
                if has_true(s, j) {
                    Some((JVal::Bool(true), j + 4))
                } else {
                    None
                }
            } else if c == 'f' {
                if has_false(s, j) {
                    Some((JVal::Bool(false), j + 5))
                } else {
                    None
                }
            } else if c == '"' {
                match parse_str_chars(s, j + 1) {
                    Some((cs, e)) => Some((JVal::Str(cs), e)),
                    None => None,
                }
            } else if c == '-' || is_digit(c) {
                match parse_num(s, j) {
                    Some((n, e)) => Some((JVal::Num(n), e)),
                    None => None,
                }
            } else if c == '[' {
                let a = skip_ws(s, j + 1);
                if a < s.len() && s[a] == ']' {
                    Some((JVal::Arr(Seq::empty()), a + 1))
                } else {
                    match parse_value(s, j + 1, (fuel - 1) as nat) {
                        Some((v, e)) => match parse_arr_tail(
                            s,
                            e,
                            (fuel - 1) as nat,
                            Seq::empty().push(v),
                        ) {
                            Some((items, e2)) => Some((JVal::Arr(items), e2)),
                            None => None,
                        },
                        None => None,
                    }
                }
            } else if c == '{' {
                let a = skip_ws(s, j + 1);
                if a < s.len() && s[a] == '}' {
                    Some((JVal::Obj(Seq::empty()), a + 1))
                } else {
                    match parse_member(s, j + 1, (fuel - 1) as nat) {
                        Some((m, e)) => match parse_obj_tail(
                            s,
                            e,
                            (fuel - 1) as nat,
                            Seq::empty().push(m),
                        ) {
                            Some((ms, e2)) => Some((JVal::Obj(ms), e2)),
                            None => None,
                        },
                        None => None,
                    }
                }
            } else {
                None
            }
        }
    }
}

/// The rest of an array after a parsed element: a comma and another
/// element, or the closing bracket.
pub open spec fn parse_arr_tail(s: Seq<char>, i: int, fuel: nat, acc: Seq<JVal>) -> Option<
    (Seq<JVal>, int),
>
    decreases fuel,
{
    if fuel == 0 {
        None
    } else {
        let j = skip_ws(s, i);
        if !(0 <= j < s.len()) {
            None
        } else if s[j] == ']' {
            Some((acc, j + 1))
        } else if s[j] == ',' {
            match parse_value(s, j + 1, (fuel - 1) as nat) {
                Some((v, e)) => parse_arr_tail(s, e, (fuel - 1) as nat, acc.push(v)),
                None => None,
            }
        } else {
            None
        }
    }
}

/// One `"key": value` member starting at `i`, after optional whitespace.
pub open spec fn parse_member(s: Seq<char>, i: int, fuel: nat) -> Option<((Seq<char>, JVal), int)>
    decreases fuel,
{
    if fuel == 0 {
        None
    } else {
        let j = skip_ws(s, i);
        if !(0 <= j < s.len()) || s[j] != '"' {
            None
        } else {
            match parse_str_chars(s, j + 1) {
                Some((k, e)) => {
                    let c = skip_ws(s, e);
                    if c < s.len() && s[c] == ':' {
                        match parse_value(s, c + 1, (fuel - 1) as nat) {
                            Some((v, e2)) => Some(((k, v), e2)),
                            None => None,
                        }
                    } else {
                        None
                    }
                },
                None => None,
            }
        }
    }
}

/// The rest of an object after a parsed member: a comma and another member,
/// or the closing brace.
pub open spec fn parse_obj_tail(
    s: Seq<char>,
    i: int,
    fuel: nat,
    acc: Seq<(Seq<char>, JVal)>,
) -> Option<(Seq<(Seq<char>, JVal)>, int)>
    decreases fuel,
{
    if fuel == 0 {
        None
    } else {
        let j = skip_ws(s, i);
        if !(0 <= j < s.len()) {
            None
        } else if s[j] == '}' {
            Some((acc, j + 1))
        } else if s[j] == ',' {
            match parse_member(s, j + 1, (fuel - 1) as nat) {
                Some((m, e)) => parse_obj_tail(s, e, (fuel - 1) as nat, acc.push(m)),
                None => None,
            }
        } else {
            None
        }
    }
}

/// The whole text as one JSON value, with nothing but whitespace after it.
pub open spec fn spec_parse_json(s: Seq<char>) -> Option<JVal> {
    if s.len() > (usize::MAX - 4) / 2 {
        None
    } else {
        match parse_value(s, 0, (2 * s.len() + 4) as nat) {
            Some((v, e)) => {
                if skip_ws(s, e) == s.len() {
                    Some(v)
                } else {
                    None
                }
            },
            None => None,
        }
    }
}

pub proof fn lemma_digits_end_props(s: Seq<char>, i: int)
    requires
        0 <= i <= s.len(),
    ensures
        i <= digits_end(s, i) <= s.len(),
        forall|t: int| i <= t < digits_end(s, i) ==> is_digit(s[t]),
    decreases s.len() - i,
{
    if i < s.len() && is_digit(s[i]) {
        lemma_digits_end_props(s, i + 1);
    }
}

pub proof fn lemma_digits_value_bound(s: Seq<char>, i: int, k: int)
    requires
        i <= k,
        forall|t: int| i <= t < k ==> is_digit(s[t]),
    ensures
        0 <= digits_value(s, i, k) < pow10((k - i) as nat),
    decreases k - i,
{
    if i < k {
        lemma_digits_value_bound(s, i, k - 1);
        assert(is_digit(s[k - 1]));
        assert(digit_of(s[k - 1]) <= 9);
        assert(pow10((k - i) as nat) == 10 * pow10((k - 1 - i) as nat));
    } else {
        assert(pow10(0) == 1);
    }
}

proof fn lemma_fixed_fit(x: int, y: int, m: nat, n: nat)
    requires
        0 <= x < pow10(m),
        0 <= y < pow10(n),
    ensures
        0 <= x * pow10(n) + y < pow10(m + n),
{
    lemma_pow10_add(m, n);
    lemma_pow10_mono(0, n);
    assert(x * pow10(n) <= (pow10(m) - 1) * pow10(n)) by (nonlinear_arith)
        requires
            0 <= x,
            x <= pow10(m) - 1,
            pow10(n) >= 1,
    ;
    assert((pow10(m) - 1) * pow10(n) == pow10(m) * pow10(n) - pow10(n)) by (nonlinear_arith);
}

fn skip_ws_x(s: &str, len: usize, i: usize) -> (r: usize)
    requires
        len == s@.len(),
        i <= len,
    ensures
        r as int == skip_ws(s@, i as int),
        i <= r <= len,
    decreases len - i,
{
    if i < len {
        let c = s.get_char(i);
        if c == ' ' || c == '\n' || c == '\r' || c == '\t' {
            return skip_ws_x(s, len, i + 1);
        }
    }
    i
}

fn digits_end_x(s: &str, len: usize, i: usize) -> (r: usize)
    requires
        len == s@.len(),
        i <= len,
    ensures
        r as int == digits_end(s@, i as int),
        i <= r <= len,
    decreases len - i,
{
    if i < len {
        let c = s.get_char(i);
        let u = c as u32;
        if 48 <= u && u <= 57 {
            return digits_end_x(s, len, i + 1);
        }
    }
    i
}

fn digits_value_x(s: &str, len: usize, i: usize, k: usize) -> (r: u64)
    requires
        len == s@.len(),
        i <= k <= len,
        k - i <= 19,
        forall|t: int| i <= t < k ==> is_digit(s@[t]),
    ensures
        r as int == digits_value(s@, i as int, k as int),
{
    proof {
        reveal_with_fuel(pow10, 21);
        assert(pow10(19) == 10_000_000_000_000_000_000);
    }
    let mut acc: u64 = 0;
    let mut t: usize = i;
    while t < k
        invariant
            i <= t <= k <= len,
            len == s@.len(),
            k - i <= 19,
            forall|q: int| i <= q < k ==> is_digit(s@[q]),
            acc as int == digits_value(s@, i as int, t as int),
            pow10(19) == 10_000_000_000_000_000_000,
        decreases k - t,
    {
        proof {
            lemma_digits_value_bound(s@, i as int, t as int);
            lemma_pow10_mono((t - i) as nat, 18);
            lemma_pow10_mono(18, 19);
            assert(is_digit(s@[t as int]));
        }
        let c = s.get_char(t);
        let d = (c as u32 - 48) as u64;
        acc = acc * 10 + d;
        t = t + 1;
    }
    acc
}

fn parse_num_x(s: &str, len: usize, i: usize) -> (r: Option<(JsonNum, usize)>)
    requires
        len == s@.len(),
        i <= len,
    ensures
        match parse_num(s@, i as int) {
            Some((n, e)) => r matches Some((rn, re)) && rn == n && re as int == e && re <= len,
            None => r is None,
        },
{
    let neg = i < len && s.get_char(i) == '-';
    let j = if neg {
        i + 1
    } else {
        i
    };
    let k = digits_end_x(s, len, j);
    proof {
        lemma_digits_end_props(s@, j as int);
    }
    if k == j {
        return None;
    }
    if k < len && s.get_char(k) == '.' {
        let f = digits_end_x(s, len, k + 1);
        proof {
            lemma_digits_end_props(s@, k + 1 as int);
        }
        let scale = f - (k + 1);
        if scale < 1 || scale > 8 || (k - j) + scale > 19 {
            return None;
        }
        let ip = digits_value_x(s, len, j, k);
        let fp = digits_value_x(s, len, k + 1, f);
        let p = pow10_u64(scale as u8);
        proof {
            lemma_digits_value_bound(s@, j as int, k as int);
            lemma_digits_value_bound(s@, k + 1 as int, f as int);
            lemma_fixed_fit(ip as int, fp as int, (k - j) as nat, scale as nat);
            lemma_pow10_mono(((k - j) + scale) as nat, 19);
            reveal_with_fuel(pow10, 21);
            assert(pow10(19) == 10_000_000_000_000_000_000);
        }
        let mant = ip * p + fp;
        Some((JsonNum { neg, mant, scale: scale as u8 }, f))
    } else {
        if k - j > 19 {
            return None;
        }
        proof {
            lemma_digits_value_bound(s@, j as int, k as int);
            lemma_pow10_mono((k - j) as nat, 19);
            reveal_with_fuel(pow10, 21);
            assert(pow10(19) == 10_000_000_000_000_000_000);
        }
        let mant = digits_value_x(s, len, j, k);
        Some((JsonNum { neg, mant, scale: 0 }, k))
    }
}

fn unescape_x(c: char) -> (r: Option<char>)
    ensures
        r == unescape(c),
{
    if c == '"' {
        Some('"')
    } else if c == '\\' {
        Some('\\')
    } else if c == '/' {
        Some('/')
    } else if c == 'n' {
        Some('\n')
    } else if c == 't' {
        Some('\t')
    } else if c == 'r' {
        Some('\r')
    } else if c == 'b' {
        Some('\u{8}')
    } else if c == 'f' {
        Some('\u{c}')
    } else {
        None
    }
}

fn parse_str_x(s: &str, len: usize, i: usize) -> (r: Option<(String, usize)>)
    requires
        len == s@.len(),
        i <= len,
    ensures
        match parse_str_chars(s@, i as int) {
            Some((cs, e)) => r matches Some((rs, re)) && rs@ == cs && re as int == e && re <= len,
            None => r is None,
        },
    decreases len - i,
{
    if i >= len {
        return None;
    }
    let c = s.get_char(i);
    if c == '"' {
        return Some((String::new(), i + 1));
    }
    if c == '\\' {
        if i + 1 >= len {
            return None;
        }
        match unescape_x(s.get_char(i + 1)) {
            Some(u) => match parse_str_x(s, len, i + 2) {
                Some((rest, re)) => {
                    let mut out = String::new();
                    push_char(&mut out, u);
                    out.append(rest.as_str());
                    proof {
                        assert(out@ =~= seq![u] + rest@);
                    }
                    Some((out, re))
                },
                None => None,
            },
            None => None,
        }
    } else if (c as u32) < 32 {
        None
    } else {
        match parse_str_x(s, len, i + 1) {
            Some((rest, re)) => {
                let mut out = String::new();
                push_char(&mut out, c);
                out.append(rest.as_str());
                proof {
                    assert(out@ =~= seq![c] + rest@);
                }
                Some((out, re))
            },
            None => None,
        }
    }
}

fn has_lit4_x(s: &str, len: usize, j: usize, c0: char, c1: char, c2: char, c3: char) -> (r: bool)
    requires
        len == s@.len(),
        j < len,
    ensures
        r == (j + 4 <= s@.len() && s@[j as int] == c0 && s@[j + 1] == c1 && s@[j + 2] == c2
            && s@[j + 3] == c3),
{
    if len - j < 4 {
        return false;
    }
    s.get_char(j) == c0 && s.get_char(j + 1) == c1 && s.get_char(j + 2) == c2 && s.get_char(j + 3)
        == c3
}

fn parse_value_x(s: &str, len: usize, i: usize, fuel: usize) -> (r: Option<(JsonValue, usize)>)
    requires
        len == s@.len(),
        i <= len,
    ensures
        match parse_value(s@, i as int, fuel as nat) {
            Some((v, e)) => r matches Some((rv, re)) && rv@ == v && re as int == e && re <= len,
            None => r is None,
        },
    decreases fuel,
{
    if fuel == 0 {
        return None;
    }
    let j = skip_ws_x(s, len, i);
    if j >= len {
        return None;
    }
    let c = s.get_char(j);
    if c == 'n' {
        if has_lit4_x(s, len, j, 'n', 'u', 'l', 'l') {
            Some((JsonValue::Null, j + 4))
        } else {
            None
        }
    } else if c == 't' {
        if has_lit4_x(s, len, j, 't', 'r', 'u', 'e') {
            Some((JsonValue::Bool(true), j + 4))
        } else {
            None
        }
    } else if c == 'f' {
        if len - j >= 5 && has_lit4_x(s, len, j + 1, 'a', 'l', 's', 'e') {
            Some((JsonValue::Bool(false), j + 5))
        } else {
            None
        }
    } else if c == '"' {
        match parse_str_x(s, len, j + 1) {
            Some((cs, e)) => Some((JsonValue::Str(cs), e)),
            None => None,
        }
    } else if c == '-' || {
        let u = c as u32;
        48 <= u && u <= 57
    } {
        match parse_num_x(s, len, j) {
            Some((n, e)) => Some((JsonValue::Num(n), e)),
            None => None,
        }
    } else if c == '[' {
        let a = skip_ws_x(s, len, j + 1);
        if a < len && s.get_char(a) == ']' {
            let empty: Vec<JsonValue> = Vec::new();
            proof {
                assert(JsonValue::Arr(empty)@ == JVal::Arr(Seq::<JVal>::empty()));
            }
            Some((JsonValue::Arr(empty), a + 1))
        } else {
            match parse_value_x(s, len, j + 1, fuel - 1) {
                Some((v, e)) => {
                    let ghost gv = v@;
                    let mut acc: Vec<JsonValue> = Vec::new();
                    acc.push(v);
                    proof {
                        lemma_list_view_push(Seq::empty(), acc@[0]);
                        assert(list_view(acc@) =~= Seq::empty().push(gv));
                    }
                    match parse_arr_tail_x(s, len, e, fuel - 1, acc) {
                        Some((items, e2)) => Some((JsonValue::Arr(items), e2)),
                        None => None,
                    }
                },
                None => None,
            }
        }
    } else if c == '{' {
        let a = skip_ws_x(s, len, j + 1);
        if a < len && s.get_char(a) == '}' {
            let empty: Vec<JsonMember> = Vec::new();
            proof {
                assert(JsonValue::Obj(empty)@ == JVal::Obj(Seq::<(Seq<char>, JVal)>::empty()));
            }
            Some((JsonValue::Obj(empty), a + 1))
        } else {
            match parse_member_x(s, len, j + 1, fuel - 1) {
                Some((m, e)) => {
                    let ghost gm = (m.key@, m.value@);
                    let mut acc: Vec<JsonMember> = Vec::new();
                    acc.push(m);
                    proof {
                        lemma_members_view_push(Seq::empty(), acc@[0]);
                        assert(members_view(acc@) =~= Seq::empty().push(gm));
                    }
                    match parse_obj_tail_x(s, len, e, fuel - 1, acc) {
                        Some((ms, e2)) => Some((JsonValue::Obj(ms), e2)),
                        None => None,
                    }
                },
                None => None,
            }
        }
    } else {
        None
    }
}

fn parse_arr_tail_x(s: &str, len: usize, i: usize, fuel: usize, acc: Vec<JsonValue>) -> (r: Option<
    (Vec<JsonValue>, usize),
>)
    requires
        len == s@.len(),
        i <= len,
    ensures
        match parse_arr_tail(s@, i as int, fuel as nat, list_view(acc@)) {
            Some((items, e)) => r matches Some((rv, re)) && list_view(rv@) == items && re as int
                == e && re <= len,
            None => r is None,
        },
    decreases fuel,
{
    if fuel == 0 {
        return None;
    }
    let j = skip_ws_x(s, len, i);
    if j >= len {
        return None;
    }
    let c = s.get_char(j);
    if c == ']' {
        Some((acc, j + 1))
    } else if c == ',' {
        match parse_value_x(s, len, j + 1, fuel - 1) {
            Some((v, e)) => {
                let ghost acc0 = acc@;
                let ghost gv = v@;
                let mut acc2 = acc;
                acc2.push(v);
                proof {
                    lemma_list_view_push(acc0, acc2@.last());
                    assert(list_view(acc2@) =~= list_view(acc0).push(gv));
                }
                parse_arr_tail_x(s, len, e, fuel - 1, acc2)
            },
            None => None,
        }
    } else {
        None
    }
}

fn parse_member_x(s: &str, len: usize, i: usize, fuel: usize) -> (r: Option<(JsonMember, usize)>)
    requires
        len == s@.len(),
        i <= len,
    ensures
        match parse_member(s@, i as int, fuel as nat) {
            Some((m, e)) => r matches Some((rm, re)) && rm.key@ == m.0 && rm.value@ == m.1
                && re as int == e && re <= len,
            None => r is None,
        },
    decreases fuel,
{
    if fuel == 0 {
        return None;
    }
    let j = skip_ws_x(s, len, i);
    if j >= len {
        return None;
    }
    if s.get_char(j) != '"' {
        return None;
    }
    match parse_str_x(s, len, j + 1) {
        Some((k, e)) => {
            let c = skip_ws_x(s, len, e);
            if c < len && s.get_char(c) == ':' {
                match parse_value_x(s, len, c + 1, fuel - 1) {
                    Some((v, e2)) => Some((JsonMember { key: k, value: v }, e2)),
                    None => None,
                }
            } else {
                None
            }
        },
        None => None,
    }
}

fn parse_obj_tail_x(s: &str, len: usize, i: usize, fuel: usize, acc: Vec<JsonMember>) -> (r: Option<
    (Vec<JsonMember>, usize),
>)
    requires
        len == s@.len(),
        i <= len,
    ensures
        match parse_obj_tail(s@, i as int, fuel as nat, members_view(acc@)) {
            Some((ms, e)) => r matches Some((rv, re)) && members_view(rv@) == ms && re as int == e
                && re <= len,
            None => r is None,
        },
    decreases fuel,
{
    if fuel == 0 {
        return None;
    }
    let j = skip_ws_x(s, len, i);
    if j >= len {
        return None;
    }
    let c = s.get_char(j);
    if c == '}' {
        Some((acc, j + 1))
    } else if c == ',' {
        match parse_member_x(s, len, j + 1, fuel - 1) {
            Some((m, e)) => {
                let ghost acc0 = acc@;
                let ghost gm = (m.key@, m.value@);
                let mut acc2 = acc;
                acc2.push(m);
                proof {
                    lemma_members_view_push(acc0, acc2@.last());
                    assert(members_view(acc2@) =~= members_view(acc0).push(gm));
                }
                parse_obj_tail_x(s, len, e, fuel - 1, acc2)
            },
            None => None,
        }
    } else {
        None
    }
}

/// Read the whole text as one JSON value.
pub fn parse_json(s: &str) -> (r: Result<JsonValue, DecodeError>)
    ensures
        match spec_parse_json(s@) {
            Some(j) => r matches Ok(v) && v@ == j,
            None => r matches Err(e) && e == DecodeError::Syntax,
        },
{
    let len = s.unicode_len();
    if len > (usize::MAX - 4) / 2 {
        return Err(DecodeError::Syntax);
    }
    let fuel = 2 * len + 4;
    match parse_value_x(s, len, 0, fuel) {
        Some((v, e)) => {
            let e2 = skip_ws_x(s, len, e);
            if e2 == len {
                Ok(v)
            } else {
                Err(DecodeError::Syntax)
            }
        },
        None => Err(DecodeError::Syntax),
    }
}

} // verus!
