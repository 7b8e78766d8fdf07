//! A small JSON reader for the venues' wire messages.
//!
//! The frames and REST responses this library consumes are ASCII JSON
//! documents: objects, arrays, strings, numbers without exponents,
//! booleans and null.  Numbers are read as fixed-point amounts with
//! four fractional digits (further digits are truncated), which is the
//! precision everything downstream works in.  Anything outside this
//! shape — non-ASCII text, exponents, `\u` escapes, nesting beyond
//! [`MAX_DEPTH`] — is rejected, which the stream layer reports as a
//! decode error for that frame.

use vstd::prelude::*;

use crate::fixed::{append_ascii, AMOUNT_MAX};
use crate::session::DecodeError;

verus! {

/// Nesting allowed in an incoming document; the venue schemas use four
/// levels.
pub const MAX_DEPTH: u32 = 32;

/// One JSON value.
#[derive(Debug)]
pub enum Json {
    Null,
    Bool(bool),
    /// A number, as a fixed-point amount and its sign.
    Num { neg: bool, mag: u64 },
    Str(String),
    Arr(Vec<Json>),
    Obj(Vec<(String, Json)>),
}

/// First value under `key`, the way the venues' readers treat repeated
/// keys.
pub open spec fn spec_obj_get(fields: Seq<(String, Json)>, key: Seq<char>) -> Option<Json>
    decreases fields.len(),
{
    if fields.len() == 0 {
        None
    } else if fields[0].0@ == key {
        Some(fields[0].1)
    } else {
        spec_obj_get(fields.drop_first(), key)
    }
}

impl Json {
    /// Field lookup on an object; `None` on any other value.
    pub fn get<'a>(&'a self, key: &str) -> (r: Option<&'a Json>)
        ensures
            match *self {
                Json::Obj(fields) => match spec_obj_get(fields@, key@) {
                    Some(v) => r is Some && *r->0 == v,
                    None => r is None,
                },
                _ => r is None,
            },
    {
        match self {
            Json::Obj(fields) => {
                let n = fields.len();
                let mut i: usize = 0;
                proof {
                    assert(fields@.skip(0) =~= fields@);
                }
                while i < n
                    invariant
                        *self == Json::Obj(*fields),
                        n == fields@.len(),
                        0 <= i <= n,
                        spec_obj_get(fields@, key@) == spec_obj_get(fields@.skip(i as int), key@),
                    decreases n - i,
                {
                    proof {
                        assert(fields@.skip(i as int).len() > 0);
                        assert(fields@.skip(i as int)[0] == fields@[i as int]);
                        assert(fields@.skip(i as int).drop_first() =~= fields@.skip(i + 1));
                    }
                    if str_eq_maybe(&fields[i].0, key) {
                        proof {
                            assert(spec_obj_get(fields@.skip(i as int), key@)
                                == Some(fields@[i as int].1));
                        }
                        let found = &fields[i].1;
                        assert(*found == fields@[i as int].1);
                        assert(spec_obj_get(fields@, key@) == Some(fields@[i as int].1));
                        return Some(found);
                    }
                    i = i + 1;
                }
                proof {
                    assert(fields@.skip(n as int) =~= Seq::<(String, Json)>::empty());
                }
                None
            },
            _ => None,
        }
    }

    /// The string inside a `Str` value.
    pub fn as_str(&self) -> (r: Option<&String>)
        ensures
            match *self {
                Json::Str(s) => r is Some && *r->0 == s,
                _ => r is None,
            },
    {
        match self {
            Json::Str(s) => Some(s),
            _ => None,
        }
    }

    /// The amount inside a non-negative `Num` value.
    pub fn as_amount(&self) -> (r: Option<u64>)
        ensures
            match *self {
                Json::Num { neg, mag } => {
                    if neg && mag != 0 {
                        r is None
                    } else {
                        r == Some::<u64>(mag)
                    }
                },
                _ => r is None,
            },
    {
        match self {
            Json::Num { neg, mag } => {
                if *neg && *mag != 0 {
                    None
                } else {
                    Some(*mag)
                }
            },
            _ => None,
        }
    }

    /// The whole part of a non-negative `Num` value, for counters and
    /// timestamps.
    pub fn as_uint(&self) -> (r: Option<u64>)
        ensures
            match *self {
                Json::Num { neg, mag } => {
                    if neg && mag != 0 {
                        r is None
                    } else {
                        r == Some::<u64>((mag / 10000) as u64)
                    }
                },
                _ => r is None,
            },
    {
        match self {
            Json::Num { neg, mag } => {
                if *neg && *mag != 0 {
                    None
                } else {
                    Some(*mag / 10000)
                }
            },
            _ => None,
        }
    }

    /// The elements of an `Arr` value.
    pub fn as_arr(&self) -> (r: Option<&Vec<Json>>)
        ensures
            match *self {
                Json::Arr(items) => r is Some && *r->0 == items,
                _ => r is None,
            },
    {
        match self {
            Json::Arr(items) => Some(items),
            _ => None,
        }
    }
}

/// Content equality between a parsed string and an expected key,
/// character by character.
pub(crate) fn str_eq_maybe(a: &String, b: &str) -> (r: bool)
    ensures
        r == (a@ == b@),
{
    let la = a.as_str().unicode_len();
    let lb = b.unicode_len();
    if la != lb {
        return false;
    }
    let mut i: usize = 0;
    while i < la
        invariant
            la == a@.len(),
            la == b@.len(),
            0 <= i <= la,
            forall|j: int| 0 <= j < i ==> a@[j] == b@[j],
        decreases la - i,
    {
        if a.as_str().get_char(i) != b.get_char(i) {
            return false;
        }
        i = i + 1;
    }
    proof {
        assert(a@ =~= b@);
    }
    true
}

pub open spec fn is_ws_char(c: char) -> bool {
    c == ' ' || c == '\t' || c == '\n' || c == '\r'
}

fn skip_ws(s: &str, from: usize) -> (r: usize)
    requires
        s.is_ascii(),
        from <= s@.len(),
    ensures
        from <= r <= s@.len(),
        r < s@.len() ==> !is_ws_char(s@[r as int]),
        r == spec_skip_ws(s@, from as int),
{
    let len = s.unicode_len();
    let mut i: usize = from;
    while i < len && ws_at(s, i)
        invariant
            s.is_ascii(),
            len == s@.len(),
            from <= i <= len,
            spec_skip_ws(s@, from as int) == spec_skip_ws(s@, i as int),
        decreases len - i,
    {
        i = i + 1;
    }
    i
}

fn ws_at(s: &str, i: usize) -> (r: bool)
    requires
        s.is_ascii(),
        i < s@.len(),
    ensures
        r == is_ws_char(s@[i as int]),
{
    let b = s.get_ascii(i);
    b == 32 || b == 9 || b == 10 || b == 13
}

/// Parse the string body starting at the opening quote at `i`; returns
/// the text and the index just past the closing quote, exactly as
/// [`spec_scan_string`] reads it.  `\u` escapes and raw control
/// characters are not accepted.
fn parse_string(s: &str, i: usize) -> (r: Option<(String, usize)>)
    requires
        s.is_ascii(),
        i < s@.len(),
        s@[i as int] == '"',
    ensures
        r is Some ==> i < (r->0).1 <= s@.len(),
        r matches Some((t, end)) ==> spec_scan_string(s@, i + 1, Seq::empty()) == Some(
            (t@, end as int),
        ),
        r is None ==> spec_scan_string(s@, i + 1, Seq::empty()) is None,
{
    let len = s.unicode_len();
    let mut acc = String::new();
    let mut run_start: usize = i + 1;
    let mut j: usize = i + 1;
    proof {
        assert(acc@ + s@.subrange(run_start as int, j as int) =~= Seq::<char>::empty());
    }
    while j < len
        invariant
            s.is_ascii(),
            len == s@.len(),
            i + 1 <= run_start <= j <= len,
            acc.is_ascii(),
            spec_scan_string(s@, i + 1, Seq::empty()) == spec_scan_string(
                s@,
                j as int,
                acc@ + s@.subrange(run_start as int, j as int),
            ),
        decreases len - j,
    {
        let ghost pending = acc@ + s@.subrange(run_start as int, j as int);
        let b = s.get_ascii(j);
        if b == 34 {
            // closing quote
            append_ascii(&mut acc, s.substring_ascii(run_start, j));
            assert(acc@ == pending);
            return Some((acc, j + 1));
        } else if b == 92 {
            // backslash escape
            append_ascii(&mut acc, s.substring_ascii(run_start, j));
            assert(acc@ == pending);
            if j + 1 >= len {
                return None;
            }
            let e = s.get_ascii(j + 1);
            let piece: &str = if e == 34 {
                "\""
            } else if e == 92 {
                "\\"
            } else if e == 47 {
                "/"
            } else if e == 110 {
                "\n"
            } else if e == 116 {
                "\t"
            } else if e == 114 {
                "\r"
            } else if e == 98 {
                "\u{0008}"
            } else if e == 102 {
                "\u{000c}"
            } else {
                proof {
                    assert(esc_char_of(s@[j + 1]) is None);
                }
                return None;
            };
            proof {
                reveal_strlit("\"");
                reveal_strlit("\\");
                reveal_strlit("/");
                reveal_strlit("\n");
                reveal_strlit("\t");
                reveal_strlit("\r");
                reveal_strlit("\u{0008}");
                reveal_strlit("\u{000c}");
                assert(esc_char_of(s@[j + 1]) matches Some(m) && piece@ =~= seq![m]);
                assert(vstd::utf8::is_ascii_chars(piece@));
            }
            append_ascii(&mut acc, piece);
            proof {
                let m = esc_char_of(s@[j + 1])->0;
                assert(acc@ =~= pending.push(m));
                assert(spec_scan_string(s@, j as int, pending) == spec_scan_string(
                    s@,
                    j + 2,
                    pending.push(m),
                ));
            }
            run_start = j + 2;
            j = j + 2;
            proof {
                assert(acc@ + s@.subrange(run_start as int, j as int) =~= acc@);
            }
        } else if b < 32 {
            // raw control character inside a string
            return None;
        } else {
            proof {
                assert(s@[j as int] != '"' && s@[j as int] != '\\' && (s@[j as int] as u32)
                    >= 32);
                assert(spec_scan_string(s@, j as int, pending) == spec_scan_string(
                    s@,
                    j + 1,
                    pending.push(s@[j as int]),
                ));
                assert(acc@ + s@.subrange(run_start as int, j + 1) =~= pending.push(
                    s@[j as int],
                ));
            }
            j = j + 1;
        }
    }
    // end of input before the closing quote
    None
}

/// Parse a number starting at `i` (a digit or `'-'`), as a fixed-point
/// amount, exactly as [`spec_read_number`] reads it: fractional digits
/// past the fourth truncated, exponents rejected.
fn parse_number(s: &str, i: usize) -> (r: Option<(bool, u64, usize)>)
    requires
        s.is_ascii(),
        i < s@.len(),
    ensures
        r is Some ==> i < (r->0).2 <= s@.len(),
        r matches Some((neg, mag, end)) ==> spec_read_number(s@, i as int) == Some(
            (neg, mag as int, end as int),
        ),
        r is None ==> spec_read_number(s@, i as int) is None,
{
    let len = s.unicode_len();
    let mut j: usize = i;
    let neg = s.get_ascii(j) == 45;
    if neg {
        j = j + 1;
    }
    let int_start = j;
    let mut acc: u64 = 0;
    while j < len && dec_at(s, j)
        invariant
            s.is_ascii(),
            len == s@.len(),
            i < len,
            neg == (s@[i as int] == '-'),
            int_start as int == (if neg { i + 1 } else { i as int }),
            int_start <= j <= len,
            acc < 1_000_000_000_000_000,
            spec_scan_digits(s@, int_start as int, 0) == spec_scan_digits(
                s@,
                j as int,
                acc as int,
            ),
        decreases len - j,
    {
        if acc >= 100_000_000_000_000 {
            // the integer part would no longer fit the fixed-point range
            return None;
        }
        let b = s.get_ascii(j);
        acc = acc * 10 + (b - 48) as u64;
        j = j + 1;
    }
    proof {
        assert(spec_scan_digits(s@, int_start as int, 0) == Some((acc as int, j as int)));
    }
    if j == int_start {
        return None;
    }
    let mut mag: u64 = acc * 10000;
    let ghost has_frac = j < s@.len() && s@[j as int] == '.';
    if j < len && dot_at(s, j) {
        j = j + 1;
        let frac_start = j;
        let mut facc: u64 = 0;
        while j < len && dec_at(s, j)
            invariant
                s.is_ascii(),
                len == s@.len(),
                frac_start <= j <= len,
                (j - frac_start == 0 && facc == 0) || (j - frac_start == 1 && facc <= 9) || (j
                    - frac_start == 2 && facc <= 99) || (j - frac_start == 3 && facc <= 999) || (j
                    - frac_start >= 4 && facc <= 9999),
                spec_scan_frac(s@, frac_start as int, frac_start as int, 0) == spec_scan_frac(
                    s@,
                    j as int,
                    frac_start as int,
                    facc as int,
                ),
            decreases len - j,
        {
            if j - frac_start < 4 {
                let b = s.get_ascii(j);
                facc = facc * 10 + (b - 48) as u64;
            }
            j = j + 1;
        }
        proof {
            assert(spec_scan_frac(s@, frac_start as int, frac_start as int, 0) == (
                facc as int,
                j as int,
            ));
        }
        if j == frac_start {
            return None;
        }
        let nfrac = j - frac_start;
        let scaled: u64 = if nfrac >= 4 {
            facc
        } else if nfrac == 3 {
            facc * 10
        } else if nfrac == 2 {
            facc * 100
        } else {
            facc * 1000
        };
        mag = mag + scaled;
    }
    if j < len {
        // exponents are outside the accepted shape
        let b = s.get_ascii(j);
        if b == 101 || b == 69 {
            return None;
        }
    }
    Some((neg, mag, j))
}

fn dec_at(s: &str, i: usize) -> (r: bool)
    requires
        s.is_ascii(),
        i < s@.len(),
    ensures
        r == crate::fixed::is_dec_digit(s@[i as int]),
{
    let b = s.get_ascii(i);
    48 <= b && b <= 57
}

fn dot_at(s: &str, i: usize) -> (r: bool)
    requires
        s.is_ascii(),
        i < s@.len(),
    ensures
        r == (s@[i as int] == '.'),
{
    s.get_ascii(i) == 46
}

fn expect_lit(s: &str, i: usize, lit: &str) -> (r: Option<usize>)
    requires
        s.is_ascii(),
        lit.is_ascii(),
        i <= s@.len(),
    ensures
        r is Some ==> i <= r->0 <= s@.len() && r->0 == i + lit@.len(),
        r is Some <==> spec_match_lit(s@, i as int, lit@),
{
    let len = s.unicode_len();
    let ll = lit.unicode_len();
    if ll > len - i {
        return None;
    }
    let mut k: usize = 0;
    while k < ll
        invariant
            s.is_ascii(),
            lit.is_ascii(),
            len == s@.len(),
            ll == lit@.len(),
            i + ll <= len,
            0 <= k <= ll,
            forall|m: int| 0 <= m < k ==> s@[i + m] == lit@[m],
        decreases ll - k,
    {
        if s.get_ascii(i + k) != lit.get_ascii(k) {
            proof {
                assert(s@.subrange(i as int, i + ll)[k as int] == s@[i + k]);
                assert(s@[i + k] != lit@[k as int]);
            }
            return None;
        }
        k = k + 1;
    }
    proof {
        assert(s@.subrange(i as int, i + ll) =~= lit@);
    }
    Some(i + ll)
}

/// Parse one value starting at or after `i`; returns the value and the
/// index just past it, exactly as [`spec_read_value`] reads it.
fn parse_value(s: &str, i: usize, depth: u32) -> (r: Option<(Json, usize)>)
    requires
        s.is_ascii(),
        i <= s@.len(),
    ensures
        r is Some ==> i < (r->0).1 <= s@.len(),
        r matches Some((v, end)) ==> spec_read_value(s@, i as int, depth as int) == Some(
            (view_json(v), end as int),
        ),
        r is None ==> spec_read_value(s@, i as int, depth as int) is None,
    decreases depth, 1int,
{
    let len = s.unicode_len();
    let j = skip_ws(s, i);
    if j >= len {
        return None;
    }
    let b = s.get_ascii(j);
    if b == 34 {
        match parse_string(s, j) {
            Some((text, end)) => Some((Json::Str(text), end)),
            None => None,
        }
    } else if b == 123 {
        if depth == 0 {
            None
        } else {
            parse_object(s, j, depth)
        }
    } else if b == 91 {
        if depth == 0 {
            None
        } else {
            parse_array(s, j, depth)
        }
    } else if b == 116 {
        proof {
            reveal_strlit("true");
        }
        match expect_lit(s, j, "true") {
            Some(end) => Some((Json::Bool(true), end)),
            None => None,
        }
    } else if b == 102 {
        proof {
            reveal_strlit("false");
        }
        match expect_lit(s, j, "false") {
            Some(end) => Some((Json::Bool(false), end)),
            None => None,
        }
    } else if b == 110 {
        proof {
            reveal_strlit("null");
        }
        match expect_lit(s, j, "null") {
            Some(end) => Some((Json::Null, end)),
            None => None,
        }
    } else if b == 45 || (48 <= b && b <= 57) {
        match parse_number(s, j) {
            Some((neg, mag, end)) => Some((Json::Num { neg, mag }, end)),
            None => None,
        }
    } else {
        None
    }
}

fn parse_array(s: &str, i: usize, depth: u32) -> (r: Option<(Json, usize)>)
    requires
        s.is_ascii(),
        depth >= 1,
        i < s@.len(),
        s@[i as int] == '[',
    ensures
        r is Some ==> i < (r->0).1 <= s@.len(),
        r matches Some((v, end)) ==> spec_read_array(s@, i as int, depth as int) == Some(
            (view_json(v), end as int),
        ),
        r is None ==> spec_read_array(s@, i as int, depth as int) is None,
    decreases depth, 0int,
{
    let len = s.unicode_len();
    let mut items: Vec<Json> = Vec::new();
    let mut j = skip_ws(s, i + 1);
    if j < len && s.get_ascii(j) == 93 {
        proof {
            assert(view_arr(items@) =~= Seq::<JsonModel>::empty());
        }
        return Some((Json::Arr(items), j + 1));
    }
    proof {
        assert(view_arr(items@) =~= Seq::<JsonModel>::empty());
    }
    loop
        invariant
            s.is_ascii(),
            len == s@.len(),
            i < j <= len,
            depth >= 1,
            spec_read_array(s@, i as int, depth as int) == spec_read_elems(
                s@,
                j as int,
                depth as int,
                view_arr(items@),
            ),
        decreases len - j,
    {
        let ghost acc_model = view_arr(items@);
        let parsed = parse_value(s, j, depth - 1);
        match parsed {
            Some((v, end)) => {
                proof {
                    lemma_view_arr_push(items@, v);
                }
                items.push(v);
                let k = skip_ws(s, end);
                if k >= len {
                    return None;
                }
                let b = s.get_ascii(k);
                if b == 93 {
                    return Some((Json::Arr(items), k + 1));
                } else if b == 44 {
                    j = k + 1;
                } else {
                    return None;
                }
            },
            None => {
                return None;
            },
        }
    }
}

fn parse_object(s: &str, i: usize, depth: u32) -> (r: Option<(Json, usize)>)
    requires
        s.is_ascii(),
        depth >= 1,
        i < s@.len(),
        s@[i as int] == '{',
    ensures
        r is Some ==> i < (r->0).1 <= s@.len(),
        r matches Some((v, end)) ==> spec_read_object(s@, i as int, depth as int) == Some(
            (view_json(v), end as int),
        ),
        r is None ==> spec_read_object(s@, i as int, depth as int) is None,
    decreases depth, 0int,
{
    let len = s.unicode_len();
    let mut fields: Vec<(String, Json)> = Vec::new();
    let mut j = skip_ws(s, i + 1);
    if j < len && s.get_ascii(j) == 125 {
        proof {
            assert(view_obj(fields@) =~= Seq::<(Seq<char>, JsonModel)>::empty());
        }
        return Some((Json::Obj(fields), j + 1));
    }
    proof {
        assert(view_obj(fields@) =~= Seq::<(Seq<char>, JsonModel)>::empty());
    }
    loop
        invariant
            s.is_ascii(),
            len == s@.len(),
            i < j <= len,
            depth >= 1,
            spec_read_object(s@, i as int, depth as int) == spec_read_members(
                s@,
                j as int,
                depth as int,
                view_obj(fields@),
            ),
        decreases len - j,
    {
        if j >= len || s.get_ascii(j) != 34 {
            return None;
        }
        let key = parse_string(s, j);
        match key {
            Some((k, kend)) => {
                let c = skip_ws(s, kend);
                if c >= len || s.get_ascii(c) != 58 {
                    return None;
                }
                let parsed = parse_value(s, c + 1, depth - 1);
                match parsed {
                    Some((v, end)) => {
                        proof {
                            lemma_view_obj_push(fields@, k, v);
                        }
                        fields.push((k, v));
                        let t = skip_ws(s, end);
                        if t >= len {
                            return None;
                        }
                        let b = s.get_ascii(t);
                        if b == 125 {
                            return Some((Json::Obj(fields), t + 1));
                        } else if b == 44 {
                            j = skip_ws(s, t + 1);
                        } else {
                            return None;
                        }
                    },
                    None => {
                        return None;
                    },
                }
            },
            None => {
                return None;
            },
        }
    }
}

/// A JSON document at the specification level: what a text denotes,
/// with strings as plain character sequences.
pub enum JsonModel {
    Null,
    Bool(bool),
    Num { neg: bool, mag: u64 },
    Str(Seq<char>),
    Arr(Seq<JsonModel>),
    Obj(Seq<(Seq<char>, JsonModel)>),
}

/// The document a parsed value denotes.
pub open spec fn view_json(j: Json) -> JsonModel
    decreases j,
{
    match j {
        Json::Null => JsonModel::Null,
        Json::Bool(b) => JsonModel::Bool(b),
        Json::Num { neg, mag } => JsonModel::Num { neg, mag },
        Json::Str(t) => JsonModel::Str(t@),
        Json::Arr(items) => JsonModel::Arr(view_arr(items@)),
        Json::Obj(fields) => JsonModel::Obj(view_obj(fields@)),
    }
}

pub open spec fn view_arr(items: Seq<Json>) -> Seq<JsonModel>
    decreases items,
{
    if items.len() == 0 {
        Seq::empty()
    } else {
        seq![view_json(items[0])] + view_arr(items.drop_first())
    }
}

pub open spec fn view_obj(fields: Seq<(String, Json)>) -> Seq<(Seq<char>, JsonModel)>
    decreases fields,
{
    if fields.len() == 0 {
        Seq::empty()
    } else {
        seq![(fields[0].0@, view_json(fields[0].1))] + view_obj(fields.drop_first())
    }
}

pub proof fn lemma_view_arr_props(items: Seq<Json>)
    ensures
        view_arr(items).len() == items.len(),
        forall|i: int| 0 <= i < items.len() ==> view_arr(items)[i] == view_json(#[trigger] items[i]),
    decreases items.len(),
{
    if items.len() > 0 {
        lemma_view_arr_props(items.drop_first());
        assert forall|i: int|
            0 <= i < items.len() implies view_arr(items)[i] == view_json(#[trigger] items[i]) by {
            if i > 0 {
                assert(view_arr(items)[i] == view_arr(items.drop_first())[i - 1]);
                assert(items.drop_first()[i - 1] == items[i]);
            }
        }
    }
}

pub proof fn lemma_view_obj_props(fields: Seq<(String, Json)>)
    ensures
        view_obj(fields).len() == fields.len(),
        forall|i: int|
            0 <= i < fields.len() ==> view_obj(fields)[i] == ((#[trigger] fields[i]).0@, view_json(
                fields[i].1,
            )),
    decreases fields.len(),
{
    if fields.len() > 0 {
        lemma_view_obj_props(fields.drop_first());
        assert forall|i: int|
            0 <= i < fields.len() implies view_obj(fields)[i] == ((#[trigger] fields[i]).0@,
        view_json(fields[i].1)) by {
            if i > 0 {
                assert(view_obj(fields)[i] == view_obj(fields.drop_first())[i - 1]);
                assert(fields.drop_first()[i - 1] == fields[i]);
            }
        }
    }
}

pub proof fn lemma_view_arr_push(items: Seq<Json>, v: Json)
    ensures
        view_arr(items.push(v)) == view_arr(items).push(view_json(v)),
{
    lemma_view_arr_props(items.push(v));
    lemma_view_arr_props(items);
    assert forall|i: int|
        0 <= i < items.len() + 1 implies view_arr(items.push(v))[i] == view_arr(items).push(
        view_json(v),
    )[i] by {
        if i < items.len() {
            assert(items.push(v)[i] == items[i]);
        } else {
            assert(items.push(v)[i] == v);
        }
    }
    assert(view_arr(items.push(v)) =~= view_arr(items).push(view_json(v)));
}

pub proof fn lemma_view_obj_push(fields: Seq<(String, Json)>, k: String, v: Json)
    ensures
        view_obj(fields.push((k, v))) == view_obj(fields).push((k@, view_json(v))),
{
    lemma_view_obj_props(fields.push((k, v)));
    lemma_view_obj_props(fields);
    assert forall|i: int|
        0 <= i < fields.len() + 1 implies view_obj(fields.push((k, v)))[i] == view_obj(
        fields,
    ).push((k@, view_json(v)))[i] by {
        if i < fields.len() {
            assert(fields.push((k, v))[i] == fields[i]);
        } else {
            assert(fields.push((k, v))[i] == (k, v));
        }
    }
    assert(view_obj(fields.push((k, v))) =~= view_obj(fields).push((k@, view_json(v))));
}

/// First value under `key` at the document level.
pub open spec fn obj_get_m(fields: Seq<(Seq<char>, JsonModel)>, key: Seq<char>) -> Option<JsonModel>
    decreases fields.len(),
{
    if fields.len() == 0 {
        None
    } else if fields[0].0 == key {
        Some(fields[0].1)
    } else {
        obj_get_m(fields.drop_first(), key)
    }
}

/// Field lookup on a document; `None` off objects.
pub open spec fn get_m(m: JsonModel, key: Seq<char>) -> Option<JsonModel> {
    match m {
        JsonModel::Obj(fields) => obj_get_m(fields, key),
        _ => None,
    }
}

pub proof fn lemma_obj_get_view(fields: Seq<(String, Json)>, key: Seq<char>)
    ensures
        match spec_obj_get(fields, key) {
            None => obj_get_m(view_obj(fields), key) is None,
            Some(v) => obj_get_m(view_obj(fields), key) == Some(view_json(v)),
        },
    decreases fields.len(),
{
    if fields.len() > 0 {
        assert(view_obj(fields)[0] == (fields[0].0@, view_json(fields[0].1)));
        if fields[0].0@ != key {
            lemma_obj_get_view(fields.drop_first(), key);
            assert(view_obj(fields).drop_first() =~= view_obj(fields.drop_first()));
        }
    }
}

/// The first index at or after `from` holding a non-whitespace
/// character, or the end.
pub open spec fn spec_skip_ws(s: Seq<char>, from: int) -> int
    decreases s.len() - from,
{
    if from < s.len() && is_ws_char(s[from]) {
        spec_skip_ws(s, from + 1)
    } else {
        from
    }
}

/// The character an escape stands for, if the escape is accepted.
pub open spec fn esc_char_of(e: char) -> Option<char> {
    if e == '"' {
        Some('"')
    } else if e == '\\' {
        Some('\\')
    } else if e == '/' {
        Some('/')
    } else if e == 'n' {
        Some('\n')
    } else if e == 't' {
        Some('\t')
    } else if e == 'r' {
        Some('\r')
    } else if e == 'b' {
        Some('\u{0008}')
    } else if e == 'f' {
        Some('\u{000c}')
    } else {
        None
    }
}

/// Reading a string body from just after the opening quote: the text
/// denoted so far is `acc`; yields the full text and the index past the
/// closing quote, or nothing if the body is unterminated or holds a
/// rejected escape or control character.
pub open spec fn spec_scan_string(s: Seq<char>, j: int, acc: Seq<char>) -> Option<(Seq<char>, int)>
    decreases s.len() - j,
{
    if j >= s.len() {
        None
    } else if s[j] == '"' {
        Some((acc, j + 1))
    } else if s[j] == '\\' {
        if j + 1 >= s.len() {
            None
        } else {
            match esc_char_of(s[j + 1]) {
                Some(c) => spec_scan_string(s, j + 2, acc.push(c)),
                None => None,
            }
        }
    } else if (s[j] as u32) < 32 {
        None
    } else {
        spec_scan_string(s, j + 1, acc.push(s[j]))
    }
}

/// Reading an integer digit run from `j` with the value so far `acc`;
/// nothing if the value would leave the fixed-point range.
pub open spec fn spec_scan_digits(s: Seq<char>, j: int, acc: int) -> Option<(int, int)>
    decreases s.len() - j,
{
    if j < s.len() && crate::fixed::is_dec_digit(s[j]) {
        if acc >= 100_000_000_000_000 {
            None
        } else {
            spec_scan_digits(s, j + 1, acc * 10 + crate::fixed::dec_digit_val(s[j]))
        }
    } else {
        Some((acc, j))
    }
}

/// Reading a fractional digit run that started at `f0`: only the first
/// four digits contribute to the value.
pub open spec fn spec_scan_frac(s: Seq<char>, j: int, f0: int, facc: int) -> (int, int)
    decreases s.len() - j,
{
    if j < s.len() && crate::fixed::is_dec_digit(s[j]) {
        if j - f0 < 4 {
            spec_scan_frac(s, j + 1, f0, facc * 10 + crate::fixed::dec_digit_val(s[j]))
        } else {
            spec_scan_frac(s, j + 1, f0, facc)
        }
    } else {
        (facc, j)
    }
}

/// Reading a number at `i`: sign, integer digits, optional fraction,
/// no exponent; the value as a fixed-point magnitude.
pub open spec fn spec_read_number(s: Seq<char>, i: int) -> Option<(bool, int, int)> {
    let neg = s[i] == '-';
    let i1: int = if neg {
        i + 1
    } else {
        i
    };
    match spec_scan_digits(s, i1, 0) {
        None => None,
        Some((acc, j)) => {
            if j == i1 {
                None
            } else {
                let base = acc * 10000;
                if j < s.len() && s[j] == '.' {
                    let f0 = j + 1;
                    let (facc, jf) = spec_scan_frac(s, f0, f0, 0);
                    if jf == f0 {
                        None
                    } else {
                        let nf = jf - f0;
                        let scaled: int = if nf >= 4 {
                            facc
                        } else if nf == 3 {
                            facc * 10
                        } else if nf == 2 {
                            facc * 100
                        } else {
                            facc * 1000
                        };
                        if jf < s.len() && (s[jf] == 'e' || s[jf] == 'E') {
                            None
                        } else {
                            Some((neg, base + scaled, jf))
                        }
                    }
                } else {
                    if j < s.len() && (s[j] == 'e' || s[j] == 'E') {
                        None
                    } else {
                        Some((neg, base, j))
                    }
                }
            }
        },
    }
}

/// The text carries `lit` verbatim at `i`.
pub open spec fn spec_match_lit(s: Seq<char>, i: int, lit: Seq<char>) -> bool {
    i + lit.len() <= s.len() && s.subrange(i, i + lit.len() as int) == lit
}

/// Reading one value at or after `i`, to the given nesting allowance:
/// the document it denotes and the index just past it.
pub open spec fn spec_read_value(s: Seq<char>, i: int, depth: int) -> Option<(JsonModel, int)>
    decreases depth, 2int, 0int,
{
    let j = spec_skip_ws(s, i);
    if j >= s.len() {
        None
    } else {
        let c = s[j];
        if c == '"' {
            match spec_scan_string(s, j + 1, Seq::empty()) {
                Some((t, end)) => Some((JsonModel::Str(t), end)),
                None => None,
            }
        } else if c == '{' {
            if depth == 0 {
                None
            } else {
                spec_read_object(s, j, depth)
            }
        } else if c == '[' {
            if depth == 0 {
                None
            } else {
                spec_read_array(s, j, depth)
            }
        } else if c == 't' {
            if spec_match_lit(s, j, "true"@) {
                Some((JsonModel::Bool(true), j + "true"@.len()))
            } else {
                None
            }
        } else if c == 'f' {
            if spec_match_lit(s, j, "false"@) {
                Some((JsonModel::Bool(false), j + "false"@.len()))
            } else {
                None
            }
        } else if c == 'n' {
            if spec_match_lit(s, j, "null"@) {
                Some((JsonModel::Null, j + "null"@.len()))
            } else {
                None
            }
        } else if c == '-' || crate::fixed::is_dec_digit(c) {
            match spec_read_number(s, j) {
                Some((neg, mag, end)) => Some((JsonModel::Num { neg, mag: mag as u64 }, end)),
                None => None,
            }
        } else {
            None
        }
    }
}

/// Reading an array whose `[` stands at `i`.
pub open spec fn spec_read_array(s: Seq<char>, i: int, depth: int) -> Option<(JsonModel, int)>
    decreases depth, 1int, 0int,
{
    let j0 = spec_skip_ws(s, i + 1);
    if j0 < s.len() && s[j0] == ']' {
        Some((JsonModel::Arr(Seq::empty()), j0 + 1))
    } else {
        spec_read_elems(s, j0, depth, Seq::empty())
    }
}

/// Reading the remaining elements of an array, the ones before having
/// denoted `acc`.
pub open spec fn spec_read_elems(
    s: Seq<char>,
    j: int,
    depth: int,
    acc: Seq<JsonModel>,
) -> Option<(JsonModel, int)>
    decreases depth, 0int, s.len() + 1 - j,
{
    if depth < 1 || j > s.len() {
        None
    } else {
        match spec_read_value(s, j, depth - 1) {
            None => None,
            Some((v, end)) => {
                let k = spec_skip_ws(s, end);
                if k >= s.len() {
                    None
                } else if s[k] == ']' {
                    Some((JsonModel::Arr(acc.push(v)), k + 1))
                } else if s[k] == ',' {
                    spec_read_elems(
                        s,
                        if k + 1 > j {
                            k + 1
                        } else {
                            j + 1
                        },
                        depth,
                        acc.push(v),
                    )
                } else {
                    None
                }
            },
        }
    }
}

/// Reading an object whose `{` stands at `i`.
pub open spec fn spec_read_object(s: Seq<char>, i: int, depth: int) -> Option<(JsonModel, int)>
    decreases depth, 1int, 0int,
{
    let j0 = spec_skip_ws(s, i + 1);
    if j0 < s.len() && s[j0] == '}' {
        Some((JsonModel::Obj(Seq::empty()), j0 + 1))
    } else {
        spec_read_members(s, j0, depth, Seq::empty())
    }
}

/// Reading the remaining members of an object, the ones before having
/// denoted `acc`.
pub open spec fn spec_read_members(
    s: Seq<char>,
    j: int,
    depth: int,
    acc: Seq<(Seq<char>, JsonModel)>,
) -> Option<(JsonModel, int)>
    decreases depth, 0int, s.len() + 1 - j,
{
    if depth < 1 || j > s.len() {
        None
    } else if j >= s.len() || s[j] != '"' {
        None
    } else {
        match spec_scan_string(s, j + 1, Seq::empty()) {
            None => None,
            Some((key, kend)) => {
                let c = spec_skip_ws(s, kend);
                if c >= s.len() || s[c] != ':' {
                    None
                } else {
                    match spec_read_value(s, c + 1, depth - 1) {
                        None => None,
                        Some((v, end)) => {
                            let t = spec_skip_ws(s, end);
                            if t >= s.len() {
                                None
                            } else if s[t] == '}' {
                                Some((JsonModel::Obj(acc.push((key, v))), t + 1))
                            } else if s[t] == ',' {
                                spec_read_members(
                                    s,
                                    if spec_skip_ws(s, t + 1) > j && spec_skip_ws(s, t + 1)
                                        <= s.len() {
                                        spec_skip_ws(s, t + 1)
                                    } else {
                                        j + 1
                                    },
                                    depth,
                                    acc.push((key, v)),
                                )
                            } else {
                                None
                            }
                        },
                    }
                }
            },
        }
    }
}

/// The document a complete text denotes: ASCII, one value, only
/// whitespace around it.
pub open spec fn spec_json_doc(s: Seq<char>) -> Option<JsonModel> {
    if !vstd::utf8::is_ascii_chars(s) {
        None
    } else {
        match spec_read_value(s, 0, MAX_DEPTH as int) {
            Some((v, end)) => if spec_skip_ws(s, end) == s.len() {
                Some(v)
            } else {
                None
            },
            None => None,
        }
    }
}

/// What an optional fixed-point field of an object denotes: absent,
/// `null` or a non-object carrier reads as no value; a present field
/// must be a bounded non-negative number or the row is in error.
pub open spec fn spec_opt_amount(j: Json, key: Seq<char>) -> Result<Option<u64>, DecodeError> {
    match j {
        Json::Obj(fields) => match spec_obj_get(fields@, key) {
            None => Ok(None),
            Some(v) => match v {
                Json::Null => Ok(None),
                Json::Num { neg, mag } => if (!neg || mag == 0) && mag <= AMOUNT_MAX {
                    Ok(Some(mag))
                } else {
                    Err(DecodeError {})
                },
                _ => Err(DecodeError {}),
            },
        },
        _ => Ok(None),
    }
}

/// Whether an object carries a string under `key`, and its text.
pub open spec fn spec_str_field(j: Json, key: Seq<char>) -> Option<Seq<char>> {
    match j {
        Json::Obj(fields) => match spec_obj_get(fields@, key) {
            Some(v) => match v {
                Json::Str(s) => Some(s@),
                _ => None,
            },
            _ => None,
        },
        _ => None,
    }
}

/// What an amount carried as a decimal string denotes: a well-formed,
/// bounded decimal reads as its value, anything else as zero.
pub open spec fn spec_amount_str(j: Json, key: Seq<char>) -> u64 {
    match j {
        Json::Obj(fields) => match spec_obj_get(fields@, key) {
            Some(v) => match v {
                Json::Str(s) => if crate::fixed::dec4_wf(s@) && crate::fixed::dec4_val(s@)
                    <= AMOUNT_MAX as int {
                    crate::fixed::dec4_val(s@) as u64
                } else {
                    0
                },
                _ => 0,
            },
            None => 0,
        },
        _ => 0,
    }
}

/// What an optional fixed-point field of a document denotes: absent,
/// `null` or a non-object carrier reads as no value; a present field
/// must be a bounded non-negative number or the row is in error.
pub open spec fn opt_amount_m(m: JsonModel, key: Seq<char>) -> Result<Option<u64>, DecodeError> {
    match get_m(m, key) {
        None => Ok(None),
        Some(v) => match v {
            JsonModel::Null => Ok(None),
            JsonModel::Num { neg, mag } => if (!neg || mag == 0) && mag <= AMOUNT_MAX {
                Ok(Some(mag))
            } else {
                Err(DecodeError {})
            },
            _ => Err(DecodeError {}),
        },
    }
}

/// Whether a document object carries a string under `key`, and its
/// text.
pub open spec fn str_field_m(m: JsonModel, key: Seq<char>) -> Option<Seq<char>> {
    match get_m(m, key) {
        Some(v) => match v {
            JsonModel::Str(t) => Some(t),
            _ => None,
        },
        _ => None,
    }
}

/// A string field read leniently: absent or non-string reads empty.
pub open spec fn str_or_empty_m(m: JsonModel, key: Seq<char>) -> Seq<char> {
    match str_field_m(m, key) {
        Some(t) => t,
        None => Seq::empty(),
    }
}

/// A boolean field read leniently: absent or non-boolean reads false.
pub open spec fn bool_or_false_m(m: JsonModel, key: Seq<char>) -> bool {
    match get_m(m, key) {
        Some(JsonModel::Bool(b)) => b,
        _ => false,
    }
}

/// The whole part of a non-negative number field, for counters and
/// timestamps.
pub open spec fn uint_field_m(m: JsonModel, key: Seq<char>) -> Option<u64> {
    match get_m(m, key) {
        Some(JsonModel::Num { neg, mag }) => if !neg || mag == 0 {
            Some((mag / 10000) as u64)
        } else {
            None
        },
        _ => None,
    }
}

/// What an amount carried as a decimal string denotes: a well-formed,
/// bounded decimal reads as its value, anything else as zero.
pub open spec fn amount_str_m(m: JsonModel, key: Seq<char>) -> u64 {
    match str_field_m(m, key) {
        Some(t) => if crate::fixed::dec4_wf(t) && crate::fixed::dec4_val(t) <= AMOUNT_MAX as int {
            crate::fixed::dec4_val(t) as u64
        } else {
            0
        },
        None => 0,
    }
}

/// What [`Json::get`] finds corresponds, through the view, to the
/// document-level lookup.
pub proof fn lemma_get_m_of_view(j: Json, key: Seq<char>)
    ensures
        match j {
            Json::Obj(fields) => match spec_obj_get(fields@, key) {
                None => get_m(view_json(j), key) is None,
                Some(v) => get_m(view_json(j), key) == Some(view_json(v)),
            },
            _ => get_m(view_json(j), key) is None,
        },
{
    match j {
        Json::Obj(fields) => {
            lemma_obj_get_view(fields@, key);
        },
        _ => {},
    }
}

/// Characters that may stand inside a JSON string without escaping:
/// printable ASCII except the quote and the backslash.  Text built into
/// request bodies is required to be of this shape.
pub open spec fn json_plain(s: Seq<char>) -> bool {
    forall|i: int|
        0 <= i < s.len() ==> (' ' <= #[trigger] s[i] <= '~' && s[i] != '"' && s[i] != '\\')
}

/// Characters of a URL-safe token (symbols, coin names): letters and
/// digits only.
pub open spec fn is_token_char(c: char) -> bool {
    ('0' <= c && c <= '9') || ('A' <= c && c <= 'Z') || ('a' <= c && c <= 'z')
}

pub open spec fn plain_token(s: Seq<char>) -> bool {
    forall|i: int| 0 <= i < s.len() ==> is_token_char(#[trigger] s[i])
}

pub proof fn lemma_token_plain(s: Seq<char>)
    requires
        plain_token(s),
    ensures
        json_plain(s),
{
}

pub proof fn lemma_plain_ascii(s: Seq<char>)
    requires
        json_plain(s),
    ensures
        vstd::utf8::is_ascii_chars(s),
{
}

pub proof fn lemma_digits_plain(s: Seq<char>)
    requires
        crate::fixed::all_dec_digits(s),
    ensures
        json_plain(s),
        plain_token(s),
{
}

/// The decimal text of a non-negative integer can stand inside a JSON
/// string or a query value.
pub proof fn lemma_uint_str_plain(n: int)
    requires
        n >= 0,
    ensures
        json_plain(crate::fixed::spec_uint_str(n)),
        plain_token(crate::fixed::spec_uint_str(n)),
{
    crate::fixed::lemma_uint_str_digits(n);
    lemma_digits_plain(crate::fixed::spec_uint_str(n));
}

/// The fixed-point text of a non-negative amount can stand inside a
/// JSON string.
pub proof fn lemma_fmt_dec4_plain(v: int)
    requires
        v >= 0,
    ensures
        json_plain(crate::fixed::spec_fmt_dec4(v)),
{
    crate::fixed::lemma_uint_str_digits(v / 10000);
    crate::fixed::lemma_pad4_digits(v % 10000);
    let a = crate::fixed::spec_uint_str(v / 10000);
    let p = crate::fixed::spec_pad4(v % 10000);
    let s = crate::fixed::spec_fmt_dec4(v);
    assert forall|i: int|
        0 <= i < s.len() implies (' ' <= #[trigger] s[i] <= '~' && s[i] != '"' && s[i]
        != '\\') by {
        if i < a.len() {
            assert(s[i] == a[i]);
            assert(crate::fixed::is_dec_digit(a[i]));
        } else if i == a.len() {
            assert(s[i] == '.');
        } else {
            assert(s[i] == p[i - a.len() - 1]);
            assert(crate::fixed::is_dec_digit(p[i - a.len() - 1]));
        }
    }
}

/// Parse a complete JSON document: one value with only whitespace
/// around it, exactly the document [`spec_json_doc`] reads.
pub(crate) fn parse_json(s: &str) -> (r: Option<Json>)
    ensures
        r is Some <==> spec_json_doc(s@) is Some,
        r matches Some(v) ==> spec_json_doc(s@) == Some(view_json(v)),
{
    if !s.is_ascii() {
        return None;
    }
    match parse_value(s, 0, MAX_DEPTH) {
        Some((v, end)) => {
            let rest = skip_ws(s, end);
            if rest == s.unicode_len() {
                Some(v)
            } else {
                None
            }
        },
        None => None,
    }
}

} // verus!
