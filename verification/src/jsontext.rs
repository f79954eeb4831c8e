//! Reading and writing the wire document as text.
//!
//! The grammar is the JSON subset that the agreed wire schema uses:
//! objects, arrays, strings with the common escapes, booleans, `null`,
//! and decimal numbers read to hundredths.  `spec_parse_value` is the
//! reading's definition and `json_text_of` the writing's; the
//! executable functions return exactly what they lay down.

use vstd::prelude::*;
use crate::json::{JsonV, JsonValue, jv, jv_seq, entries_v, lemma_jv_seq, lemma_entries_v};
use crate::codec::ParseError;

verus! {

broadcast use vstd::std_specs::vec::group_vec_axioms, vstd::seq::group_seq_axioms;

/// A JSON whitespace character.
pub open spec fn is_ws(c: char) -> bool {
    c == ' ' || c == '\t' || c == '\n' || c == '\r'
}

/// A decimal digit.
pub open spec fn is_digit(c: char) -> bool {
    '0' <= c && c <= '9'
}

/// The value of a decimal digit.
pub open spec fn digit_val(c: char) -> int {
    c as int - '0' as int
}

/// The position of the first non-whitespace character at or after `i`.
pub open spec fn skip_ws(s: Seq<char>, i: int) -> int
    decreases s.len() - i,
{
    if 0 <= i < s.len() && is_ws(s[i]) {
        skip_ws(s, i + 1)
    } else {
        i
    }
}

/// `skip_ws` stays inside the text.
pub proof fn lemma_skip_ws(s: Seq<char>, i: int)
    requires
        0 <= i <= s.len(),
    ensures
        i <= skip_ws(s, i) <= s.len(),
        skip_ws(s, i) < s.len() ==> !is_ws(s[skip_ws(s, i)]),
    decreases s.len() - i,
{
    if i < s.len() && is_ws(s[i]) {
        lemma_skip_ws(s, i + 1);
    }
}

/// Moves past whitespace.
fn ws_to(s: &Vec<char>, i: usize) -> (r: usize)
    requires
        i <= s@.len(),
    ensures
        r == skip_ws(s@, i as int),
        i <= r <= s@.len(),
{
    let mut p: usize = i;
    while p < s.len() && (s[p] == ' ' || s[p] == '\t' || s[p] == '\n' || s[p] == '\r')
        invariant
            i <= p <= s@.len(),
            skip_ws(s@, i as int) == skip_ws(s@, p as int),
        decreases s@.len() - p,
    {
        p = p + 1;
    }
    proof {
        lemma_skip_ws(s@, p as int);
    }
    p
}

/// The character an escape letter stands for.
pub open spec fn escape_char(c: char) -> Option<char> {
    if c == '"' {
        Option::Some('"')
    } else if c == '\\' {
        Option::Some('\\')
    } else if c == '/' {
        Option::Some('/')
    } else if c == 'n' {
        Option::Some('\n')
    } else if c == 'r' {
        Option::Some('\r')
    } else if c == 't' {
        Option::Some('\t')
    } else if c == 'b' {
        Option::Some('\u{8}')
    } else if c == 'f' {
        Option::Some('\u{c}')
    } else {
        Option::None
    }
}

/// Reads the inside of a string literal from `i`, with the collected
/// text in front, up to the closing quote.
pub open spec fn spec_parse_string(s: Seq<char>, i: int, acc: Seq<char>) -> Option<
    (Seq<char>, int),
>
    decreases s.len() - i,
{
    if !(0 <= i < s.len()) {
        Option::None
    } else if s[i] == '"' {
        Option::Some((acc, i + 1))
    } else if s[i] == '\\' {
        if i + 1 < s.len() {
            match escape_char(s[i + 1]) {
                Option::Some(c) => spec_parse_string(s, i + 2, acc.push(c)),
                Option::None => Option::None,
            }
        } else {
            Option::None
        }
    } else {
        spec_parse_string(s, i + 1, acc.push(s[i]))
    }
}

/// A successful string read moves forward and stays inside the text.
pub proof fn lemma_parse_string_prog(s: Seq<char>, i: int, acc: Seq<char>)
    ensures
        spec_parse_string(s, i, acc) matches Option::Some((t, p)) ==> i < p <= s.len(),
    decreases s.len() - i,
{
    if 0 <= i < s.len() {
        if s[i] == '\\' {
            if i + 1 < s.len() && escape_char(s[i + 1]) is Some {
                lemma_parse_string_prog(s, i + 2, acc.push(escape_char(s[i + 1])->0));
            }
        } else if s[i] != '"' {
            lemma_parse_string_prog(s, i + 1, acc.push(s[i]));
        }
    }
}

/// Reads a string literal's inside.
fn parse_string_at(s: &Vec<char>, i: usize) -> (r: Result<(Vec<char>, usize), ParseError>)
    requires
        i <= s@.len(),
    ensures
        match r {
            Result::Ok((t, p)) => spec_parse_string(s@, i as int, Seq::empty())
                == Option::Some((t@, p as int)) && i < p <= s@.len(),
            Result::Err(e) => spec_parse_string(s@, i as int, Seq::empty()) is None && e
                == ParseError::MalformedPayload,
        },
{
    let mut acc: Vec<char> = Vec::new();
    let mut p: usize = i;
    loop
        invariant
            i <= p <= s@.len(),
            spec_parse_string(s@, i as int, Seq::empty()) == spec_parse_string(
                s@,
                p as int,
                acc@,
            ),
        decreases s@.len() - p,
    {
        if p >= s.len() {
            return Result::Err(ParseError::MalformedPayload);
        }
        let c: char = s[p];
        if c == '"' {
            proof {
                lemma_parse_string_prog(s@, i as int, Seq::empty());
            }
            return Result::Ok((acc, p + 1));
        }
        if c == '\\' {
            if p + 1 >= s.len() {
                return Result::Err(ParseError::MalformedPayload);
            }
            let e: char = s[p + 1];
            let dec: char = if e == '"' {
                '"'
            } else if e == '\\' {
                '\\'
            } else if e == '/' {
                '/'
            } else if e == 'n' {
                '\n'
            } else if e == 'r' {
                '\r'
            } else if e == 't' {
                '\t'
            } else if e == 'b' {
                '\u{8}'
            } else if e == 'f' {
                '\u{c}'
            } else {
                return Result::Err(ParseError::MalformedPayload);
            };
            proof {
                assert(escape_char(e) == Option::Some(dec));
            }
            acc.push(dec);
            p = p + 2;
        } else {
            acc.push(c);
            p = p + 1;
        }
    }
}

/// Reads an unsigned digit run: its value, how many digits, and the
/// position after it.  More than fifteen digits are refused, so every
/// number read fits the machine word downstream.
pub open spec fn spec_parse_digits(s: Seq<char>, i: int, acc: int, count: int) -> Option<
    (int, int, int),
>
    decreases s.len() - i,
{
    if 0 <= i < s.len() && is_digit(s[i]) {
        if count >= 15 {
            Option::None
        } else {
            spec_parse_digits(s, i + 1, acc * 10 + digit_val(s[i]), count + 1)
        }
    } else {
        Option::Some((acc, count, i))
    }
}

/// Ten to the `n`.
pub open spec fn pow10(n: int) -> int
    decreases n,
{
    if n <= 0 {
        1
    } else {
        10 * pow10(n - 1)
    }
}

/// A digit read stays inside the text and keeps its value under the
/// digit bound.
pub proof fn lemma_parse_digits_prog(s: Seq<char>, i: int, acc: int, count: int)
    requires
        0 <= i <= s.len(),
        0 <= count <= 15,
        0 <= acc < pow10(count),
    ensures
        spec_parse_digits(s, i, acc, count) matches Option::Some((v, n, p)) ==> i <= p
            <= s.len() && count <= n <= 15 && 0 <= v < pow10(n),
    decreases s.len() - i,
{
    if 0 <= i < s.len() && is_digit(s[i]) && count < 15 {
        assert(pow10(count + 1) == 10 * pow10(count));
        lemma_parse_digits_prog(s, i + 1, acc * 10 + digit_val(s[i]), count + 1);
    }
}

/// Reads a digit run.
fn parse_digits_at(s: &Vec<char>, i: usize) -> (r: Option<(i64, usize, usize)>)
    requires
        i <= s@.len(),
    ensures
        match r {
            Option::Some((v, n, p)) => spec_parse_digits(s@, i as int, 0, 0) == Option::Some(
                (v as int, n as int, p as int),
            ) && i <= p <= s@.len() && n <= 15 && 0 <= v < 1000000000000000,
            Option::None => spec_parse_digits(s@, i as int, 0, 0) is None,
        },
{
    proof {
        reveal_with_fuel(pow10, 17);
    }
    let mut acc: i64 = 0;
    let mut count: usize = 0;
    let mut p: usize = i;
    loop
        invariant
            i <= p <= s@.len(),
            0 <= count <= 15,
            0 <= acc < pow10(count as int),
            pow10(15) == 1000000000000000,
            pow10(count as int) <= pow10(15),
            spec_parse_digits(s@, i as int, 0, 0) == spec_parse_digits(
                s@,
                p as int,
                acc as int,
                count as int,
            ),
        decreases s@.len() - p,
    {
        if p < s.len() && '0' <= s[p] && s[p] <= '9' {
            if count >= 15 {
                return Option::None;
            }
            let d: i64 = (s[p] as u32 as i64) - ('0' as u32 as i64);
            proof {
                assert(d == digit_val(s@[p as int]));
                assert(pow10(count as int + 1) == 10 * pow10(count as int));
                assert(pow10(count as int + 1) <= pow10(15)) by {
                    lemma_pow10_mono(count as int + 1, 15);
                }
            }
            acc = acc * 10 + d;
            count = count + 1;
            p = p + 1;
        } else {
            return Option::Some((acc, count, p));
        }
    }
}

/// `pow10` grows with its argument.
pub proof fn lemma_pow10_mono(a: int, b: int)
    requires
        0 <= a <= b,
    ensures
        pow10(a) <= pow10(b),
        pow10(a) >= 1,
    decreases b,
{
    if a < b {
        lemma_pow10_mono(a, b - 1);
    } else if a > 0 {
        lemma_pow10_mono(a - 1, a - 1);
    }
}

/// The position after a digit run.
pub open spec fn after_digits(s: Seq<char>, i: int) -> int
    decreases s.len() - i,
{
    if 0 <= i < s.len() && is_digit(s[i]) {
        after_digits(s, i + 1)
    } else {
        i
    }
}

/// `after_digits` stays inside the text.
pub proof fn lemma_after_digits(s: Seq<char>, i: int)
    requires
        0 <= i <= s.len(),
    ensures
        i <= after_digits(s, i) <= s.len(),
    decreases s.len() - i,
{
    if i < s.len() && is_digit(s[i]) {
        lemma_after_digits(s, i + 1);
    }
}

/// Moves past a digit run.
fn digits_to(s: &Vec<char>, i: usize) -> (r: usize)
    requires
        i <= s@.len(),
    ensures
        r == after_digits(s@, i as int),
        i <= r <= s@.len(),
{
    let mut p: usize = i;
    while p < s.len() && '0' <= s[p] && s[p] <= '9'
        invariant
            i <= p <= s@.len(),
            after_digits(s@, i as int) == after_digits(s@, p as int),
        decreases s@.len() - p,
    {
        p = p + 1;
    }
    p
}

/// Reads the fraction digits after the decimal point: their value in
/// hundredths (further digits are read and dropped) and the position
/// after the run.  At least one digit must stand there.
pub open spec fn spec_parse_frac(s: Seq<char>, i: int) -> Option<(int, int)> {
    if 0 <= i < s.len() && is_digit(s[i]) {
        if i + 1 < s.len() && is_digit(s[i + 1]) {
            Option::Some(
                (digit_val(s[i]) * 10 + digit_val(s[i + 1]), after_digits(s, i + 2)),
            )
        } else {
            Option::Some((digit_val(s[i]) * 10, i + 1))
        }
    } else {
        Option::None
    }
}

/// Reads a number from `i`: its value in hundredths and the position
/// after it.  A minus sign, a digit run, and optionally a point with a
/// fraction; anything else refused.
pub open spec fn spec_parse_number(s: Seq<char>, i: int) -> Option<(int, int)> {
    let neg = 0 <= i < s.len() && s[i] == '-';
    let j = if neg {
        i + 1
    } else {
        i
    };
    if !(0 <= j < s.len() && is_digit(s[j])) {
        Option::None
    } else {
        match spec_parse_digits(s, j, 0, 0) {
            Option::Some((w, n, p)) => {
                if 0 <= p < s.len() && s[p] == '.' {
                    match spec_parse_frac(s, p + 1) {
                        Option::Some((f, q)) => Option::Some(
                            (if neg { -(w * 100 + f) } else { w * 100 + f }, q),
                        ),
                        Option::None => Option::None,
                    }
                } else {
                    Option::Some((if neg { -(w * 100) } else { w * 100 }, p))
                }
            },
            Option::None => Option::None,
        }
    }
}

/// Reads a number.
fn parse_number_at(s: &Vec<char>, i: usize) -> (r: Result<(i64, usize), ParseError>)
    requires
        i <= s@.len(),
    ensures
        match r {
            Result::Ok((v, p)) => spec_parse_number(s@, i as int) == Option::Some(
                (v as int, p as int),
            ) && i < p <= s@.len(),
            Result::Err(e) => spec_parse_number(s@, i as int) is None && e
                == ParseError::MalformedPayload,
        },
{
    let neg: bool = i < s.len() && s[i] == '-';
    let j: usize = if neg {
        i + 1
    } else {
        i
    };
    if !(j < s.len() && '0' <= s[j] && s[j] <= '9') {
        return Result::Err(ParseError::MalformedPayload);
    }
    let (w, _n, p): (i64, usize, usize) = match parse_digits_at(s, j) {
        Option::Some(t) => t,
        Option::None => {
            return Result::Err(ParseError::MalformedPayload);
        },
    };
    proof {
        reveal_with_fuel(pow10, 3);
        assert(pow10(0) == 1 && pow10(1) == 10);
        assert(spec_parse_digits(s@, j as int, 0, 0) == spec_parse_digits(
            s@,
            j as int + 1,
            digit_val(s@[j as int]),
            1,
        ));
        lemma_parse_digits_prog(s@, j as int + 1, digit_val(s@[j as int]), 1);
    }
    if p < s.len() && s[p] == '.' {
        if !(p + 1 < s.len() && '0' <= s[p + 1] && s[p + 1] <= '9') {
            return Result::Err(ParseError::MalformedPayload);
        }
        let d1: i64 = (s[p + 1] as u32 as i64) - ('0' as u32 as i64);
        proof {
            assert(d1 == digit_val(s@[p as int + 1]));
        }
        if p + 2 < s.len() && '0' <= s[p + 2] && s[p + 2] <= '9' {
            let d2: i64 = (s[p + 2] as u32 as i64) - ('0' as u32 as i64);
            proof {
                assert(d2 == digit_val(s@[p as int + 2]));
                lemma_after_digits(s@, p as int + 2);
            }
            let q: usize = digits_to(s, p + 2);
            let f: i64 = d1 * 10 + d2;
            let v: i64 = if neg {
                -(w * 100 + f)
            } else {
                w * 100 + f
            };
            Result::Ok((v, q))
        } else {
            let f: i64 = d1 * 10;
            let v: i64 = if neg {
                -(w * 100 + f)
            } else {
                w * 100 + f
            };
            Result::Ok((v, p + 2))
        }
    } else {
        let v: i64 = if neg {
            -(w * 100)
        } else {
            w * 100
        };
        Result::Ok((v, p))
    }
}

/// A successful number read moves forward and stays inside the text.
pub proof fn lemma_parse_number_prog(s: Seq<char>, i: int)
    requires
        0 <= i <= s.len(),
    ensures
        spec_parse_number(s, i) matches Option::Some((v, p)) ==> i < p <= s.len(),
{
    reveal_with_fuel(pow10, 2);
    let neg = 0 <= i < s.len() && s[i] == '-';
    let j = if neg {
        i + 1
    } else {
        i
    };
    if 0 <= j < s.len() && is_digit(s[j]) {
        assert(spec_parse_digits(s, j, 0, 0) == spec_parse_digits(
            s,
            j + 1,
            digit_val(s[j]),
            1,
        ));
        lemma_parse_digits_prog(s, j + 1, digit_val(s[j]), 1);
        if spec_parse_digits(s, j, 0, 0) is Some {
            let p = (spec_parse_digits(s, j, 0, 0)->0).2;
            if 0 <= p < s.len() && s[p] == '.' {
                if p + 1 < s.len() && is_digit(s[p + 1]) && p + 2 < s.len() && is_digit(
                    s[p + 2],
                ) {
                    lemma_after_digits(s, p + 2);
                }
            }
        }
    }
}

/// Reads one JSON value from `i`, after any whitespace: the value and
/// the position after it.  The fuel only bounds the recursion; every
/// read this library makes supplies more fuel than characters, which
/// the executable parser's contract demands.
pub open spec fn spec_parse_value(s: Seq<char>, i: int, fuel: nat) -> Option<(JsonV, int)>
    decreases fuel,
{
    if fuel == 0 {
        Option::None
    } else {
        let j = skip_ws(s, i);
        if !(0 <= j < s.len()) {
            Option::None
        } else if s[j] == '{' {
            let k = skip_ws(s, j + 1);
            if 0 <= k < s.len() && s[k] == '}' {
                Option::Some((JsonV::Obj(Seq::empty()), k + 1))
            } else {
                match spec_parse_members(s, k, (fuel - 1) as nat, Seq::empty()) {
                    Option::Some((es, p)) => Option::Some((JsonV::Obj(es), p)),
                    Option::None => Option::None,
                }
            }
        } else if s[j] == '[' {
            let k = skip_ws(s, j + 1);
            if 0 <= k < s.len() && s[k] == ']' {
                Option::Some((JsonV::Arr(Seq::empty()), k + 1))
            } else {
                match spec_parse_elems(s, k, (fuel - 1) as nat, Seq::empty()) {
                    Option::Some((es, p)) => Option::Some((JsonV::Arr(es), p)),
                    Option::None => Option::None,
                }
            }
        } else if s[j] == '"' {
            match spec_parse_string(s, j + 1, Seq::empty()) {
                Option::Some((t, p)) => Option::Some((JsonV::Text(t), p)),
                Option::None => Option::None,
            }
        } else if s[j] == 't' {
            if j + 4 <= s.len() && s[j + 1] == 'r' && s[j + 2] == 'u' && s[j + 3] == 'e' {
                Option::Some((JsonV::Bool(true), j + 4))
            } else {
                Option::None
            }
        } else if s[j] == 'f' {
            if j + 5 <= s.len() && s[j + 1] == 'a' && s[j + 2] == 'l' && s[j + 3] == 's' && s[j
                + 4] == 'e' {
                Option::Some((JsonV::Bool(false), j + 5))
            } else {
                Option::None
            }
        } else if s[j] == 'n' {
            if j + 4 <= s.len() && s[j + 1] == 'u' && s[j + 2] == 'l' && s[j + 3] == 'l' {
                Option::Some((JsonV::Null, j + 4))
            } else {
                Option::None
            }
        } else if s[j] == '-' || is_digit(s[j]) {
            match spec_parse_number(s, j) {
                Option::Some((v, p)) => Option::Some((JsonV::Num(v), p)),
                Option::None => Option::None,
            }
        } else {
            Option::None
        }
    }
}

/// Reads the members of an object from the first key on, with the
/// collected members in front, up to the closing brace.
pub open spec fn spec_parse_members(
    s: Seq<char>,
    i: int,
    fuel: nat,
    acc: Seq<(Seq<char>, JsonV)>,
) -> Option<(Seq<(Seq<char>, JsonV)>, int)>
    decreases fuel,
{
    if fuel == 0 {
        Option::None
    } else if !(0 <= i < s.len() && s[i] == '"') {
        Option::None
    } else {
        match spec_parse_string(s, i + 1, Seq::empty()) {
            Option::None => Option::None,
            Option::Some((k, p1)) => {
                let p2 = skip_ws(s, p1);
                if !(0 <= p2 < s.len() && s[p2] == ':') {
                    Option::None
                } else {
                    match spec_parse_value(s, p2 + 1, (fuel - 1) as nat) {
                        Option::None => Option::None,
                        Option::Some((v, p3)) => {
                            let p4 = skip_ws(s, p3);
                            if 0 <= p4 < s.len() && s[p4] == ',' {
                                spec_parse_members(
                                    s,
                                    skip_ws(s, p4 + 1),
                                    (fuel - 1) as nat,
                                    acc.push((k, v)),
                                )
                            } else if 0 <= p4 < s.len() && s[p4] == '}' {
                                Option::Some((acc.push((k, v)), p4 + 1))
                            } else {
                                Option::None
                            }
                        },
                    }
                }
            },
        }
    }
}

/// Reads the elements of an array from the first element on, with the
/// collected elements in front, up to the closing bracket.
pub open spec fn spec_parse_elems(s: Seq<char>, i: int, fuel: nat, acc: Seq<JsonV>) -> Option<
    (Seq<JsonV>, int),
>
    decreases fuel,
{
    if fuel == 0 {
        Option::None
    } else {
        match spec_parse_value(s, i, (fuel - 1) as nat) {
            Option::None => Option::None,
            Option::Some((v, p)) => {
                let p2 = skip_ws(s, p);
                if 0 <= p2 < s.len() && s[p2] == ',' {
                    spec_parse_elems(s, p2 + 1, (fuel - 1) as nat, acc.push(v))
                } else if 0 <= p2 < s.len() && s[p2] == ']' {
                    Option::Some((acc.push(v), p2 + 1))
                } else {
                    Option::None
                }
            },
        }
    }
}

/// A successful value read moves forward and stays inside the text.
pub proof fn lemma_parse_value_prog(s: Seq<char>, i: int, fuel: nat)
    requires
        0 <= i <= s.len(),
    ensures
        spec_parse_value(s, i, fuel) matches Option::Some((v, p)) ==> i < p <= s.len(),
    decreases fuel,
{
    if fuel > 0 {
        lemma_skip_ws(s, i);
        let j = skip_ws(s, i);
        if 0 <= j < s.len() {
            if s[j] == '{' {
                lemma_skip_ws(s, j + 1);
                let k = skip_ws(s, j + 1);
                if !(0 <= k < s.len() && s[k] == '}') {
                    lemma_parse_members_prog(s, k, (fuel - 1) as nat, Seq::empty());
                }
            } else if s[j] == '[' {
                lemma_skip_ws(s, j + 1);
                let k = skip_ws(s, j + 1);
                if !(0 <= k < s.len() && s[k] == ']') {
                    lemma_parse_elems_prog(s, k, (fuel - 1) as nat, Seq::empty());
                }
            } else if s[j] == '"' {
                lemma_parse_string_prog(s, j + 1, Seq::empty());
            } else if s[j] == '-' || is_digit(s[j]) {
                lemma_parse_number_prog(s, j);
            }
        }
    }
}

/// A successful member read moves forward and stays inside the text.
pub proof fn lemma_parse_members_prog(s: Seq<char>, i: int, fuel: nat, acc: Seq<
    (Seq<char>, JsonV),
>)
    requires
        0 <= i <= s.len(),
    ensures
        spec_parse_members(s, i, fuel, acc) matches Option::Some((es, p)) ==> i < p <= s.len(),
    decreases fuel,
{
    if fuel > 0 && 0 <= i < s.len() && s[i] == '"' {
        lemma_parse_string_prog(s, i + 1, Seq::empty());
        let sres = spec_parse_string(s, i + 1, Seq::empty());
        if sres is Some {
            let k = (sres->0).0;
            let p1 = (sres->0).1;
            lemma_skip_ws(s, p1);
            let p2 = skip_ws(s, p1);
            if 0 <= p2 < s.len() && s[p2] == ':' {
                lemma_parse_value_prog(s, p2 + 1, (fuel - 1) as nat);
                let vres = spec_parse_value(s, p2 + 1, (fuel - 1) as nat);
                if vres is Some {
                    let v = (vres->0).0;
                    let p3 = (vres->0).1;
                    lemma_skip_ws(s, p3);
                    let p4 = skip_ws(s, p3);
                    if 0 <= p4 < s.len() && s[p4] == ',' {
                        lemma_skip_ws(s, p4 + 1);
                        lemma_parse_members_prog(
                            s,
                            skip_ws(s, p4 + 1),
                            (fuel - 1) as nat,
                            acc.push((k, v)),
                        );
                    }
                }
            }
        }
    }
}

/// A successful element read moves forward and stays inside the text.
pub proof fn lemma_parse_elems_prog(s: Seq<char>, i: int, fuel: nat, acc: Seq<JsonV>)
    requires
        0 <= i <= s.len(),
    ensures
        spec_parse_elems(s, i, fuel, acc) matches Option::Some((es, p)) ==> i <= p <= s.len(),
    decreases fuel,
{
    if fuel > 0 {
        lemma_parse_value_prog(s, i, (fuel - 1) as nat);
        let vres = spec_parse_value(s, i, (fuel - 1) as nat);
        if vres is Some {
            let v = (vres->0).0;
            let p = (vres->0).1;
            lemma_skip_ws(s, p);
            let p2 = skip_ws(s, p);
            if 0 <= p2 < s.len() && s[p2] == ',' {
                lemma_parse_elems_prog(s, p2 + 1, (fuel - 1) as nat, acc.push(v));
            }
        }
    }
}

/// Reads one value.
fn parse_value_at(s: &Vec<char>, i: usize, Ghost(fuel): Ghost<nat>) -> (r: Result<
    (JsonValue, usize),
    ParseError,
>)
    requires
        i <= s@.len(),
        fuel >= 2 * (s@.len() - i) + 2,
    ensures
        match r {
            Result::Ok((v, p)) => spec_parse_value(s@, i as int, fuel) == Option::Some(
                (jv(v), p as int),
            ) && i < p <= s@.len(),
            Result::Err(e) => spec_parse_value(s@, i as int, fuel) is None && e
                == ParseError::MalformedPayload,
        },
    decreases fuel,
{
    let j: usize = ws_to(s, i);
    if j >= s.len() {
        return Result::Err(ParseError::MalformedPayload);
    }
    let c: char = s[j];
    if c == '{' {
        let k: usize = ws_to(s, j + 1);
        if k < s.len() && s[k] == '}' {
            let m: Vec<(Vec<char>, JsonValue)> = Vec::new();
            proof {
                lemma_entries_v(m@);
                assert(entries_v(m@) =~= Seq::<(Seq<char>, JsonV)>::empty());
            }
            return Result::Ok((JsonValue::Obj(m), k + 1));
        }
        match parse_members_at(s, k, Ghost((fuel - 1) as nat)) {
            Result::Ok((m, p)) => Result::Ok((JsonValue::Obj(m), p)),
            Result::Err(e) => Result::Err(e),
        }
    } else if c == '[' {
        let k: usize = ws_to(s, j + 1);
        if k < s.len() && s[k] == ']' {
            let m: Vec<JsonValue> = Vec::new();
            proof {
                lemma_jv_seq(m@);
                assert(jv_seq(m@) =~= Seq::<JsonV>::empty());
            }
            return Result::Ok((JsonValue::Arr(m), k + 1));
        }
        match parse_elems_at(s, k, Ghost((fuel - 1) as nat)) {
            Result::Ok((m, p)) => Result::Ok((JsonValue::Arr(m), p)),
            Result::Err(e) => Result::Err(e),
        }
    } else if c == '"' {
        match parse_string_at(s, j + 1) {
            Result::Ok((t, p)) => Result::Ok((JsonValue::Text(t), p)),
            Result::Err(e) => Result::Err(e),
        }
    } else if c == 't' {
        if s.len() - j >= 4 && s[j + 1] == 'r' && s[j + 2] == 'u' && s[j + 3] == 'e' {
            Result::Ok((JsonValue::Bool(true), j + 4))
        } else {
            Result::Err(ParseError::MalformedPayload)
        }
    } else if c == 'f' {
        if s.len() - j >= 5 && s[j + 1] == 'a' && s[j + 2] == 'l' && s[j + 3] == 's' && s[j + 4]
            == 'e' {
            Result::Ok((JsonValue::Bool(false), j + 5))
        } else {
            Result::Err(ParseError::MalformedPayload)
        }
    } else if c == 'n' {
        if s.len() - j >= 4 && s[j + 1] == 'u' && s[j + 2] == 'l' && s[j + 3] == 'l' {
            Result::Ok((JsonValue::Null, j + 4))
        } else {
            Result::Err(ParseError::MalformedPayload)
        }
    } else if c == '-' || ('0' <= c && c <= '9') {
        match parse_number_at(s, j) {
            Result::Ok((v, p)) => Result::Ok((JsonValue::Num(v), p)),
            Result::Err(e) => Result::Err(e),
        }
    } else {
        Result::Err(ParseError::MalformedPayload)
    }
}

/// Reads an object's members after its opening brace.
fn parse_members_at(s: &Vec<char>, i: usize, Ghost(fuel): Ghost<nat>) -> (r: Result<
    (Vec<(Vec<char>, JsonValue)>, usize),
    ParseError,
>)
    requires
        i <= s@.len(),
        fuel >= 2 * (s@.len() - i) + 2,
    ensures
        match r {
            Result::Ok((m, p)) => spec_parse_members(s@, i as int, fuel, Seq::empty())
                == Option::Some((entries_v(m@), p as int)) && i < p <= s@.len(),
            Result::Err(e) => spec_parse_members(s@, i as int, fuel, Seq::empty()) is None && e
                == ParseError::MalformedPayload,
        },
    decreases fuel,
{
    let mut m: Vec<(Vec<char>, JsonValue)> = Vec::new();
    let mut cur: usize = i;
    let ghost mut gfuel: nat = fuel;
    proof {
        lemma_entries_v(m@);
        assert(entries_v(m@) =~= Seq::<(Seq<char>, JsonV)>::empty());
    }
    loop
        invariant
            i <= cur <= s@.len(),
            gfuel >= 2 * (s@.len() - cur) + 2,
            gfuel <= fuel,
            spec_parse_members(s@, i as int, fuel, Seq::empty()) == spec_parse_members(
                s@,
                cur as int,
                gfuel,
                entries_v(m@),
            ),
        decreases gfuel,
    {
        if !(cur < s.len() && s[cur] == '"') {
            return Result::Err(ParseError::MalformedPayload);
        }
        let (k, p1): (Vec<char>, usize) = match parse_string_at(s, cur + 1) {
            Result::Ok(t) => t,
            Result::Err(e) => {
                return Result::Err(e);
            },
        };
        let p2: usize = ws_to(s, p1);
        if !(p2 < s.len() && s[p2] == ':') {
            return Result::Err(ParseError::MalformedPayload);
        }
        let (v, p3): (JsonValue, usize) = match parse_value_at(
            s,
            p2 + 1,
            Ghost((gfuel - 1) as nat),
        ) {
            Result::Ok(t) => t,
            Result::Err(e) => {
                return Result::Err(e);
            },
        };
        let p4: usize = ws_to(s, p3);
        let ghost old_m = m@;
        let ghost old_entries = entries_v(m@);
        let ghost kv = (k@, jv(v));
        m.push((k, v));
        proof {
            lemma_entries_v(old_m);
            lemma_entries_v(m@);
            assert(entries_v(m@) =~= old_entries.push(kv));
        }
        if p4 < s.len() && s[p4] == ',' {
            let nxt: usize = ws_to(s, p4 + 1);
            cur = nxt;
            proof {
                gfuel = (gfuel - 1) as nat;
            }
        } else if p4 < s.len() && s[p4] == '}' {
            return Result::Ok((m, p4 + 1));
        } else {
            return Result::Err(ParseError::MalformedPayload);
        }
    }
}

/// Reads an array's elements after its opening bracket.
fn parse_elems_at(s: &Vec<char>, i: usize, Ghost(fuel): Ghost<nat>) -> (r: Result<
    (Vec<JsonValue>, usize),
    ParseError,
>)
    requires
        i <= s@.len(),
        fuel >= 2 * (s@.len() - i) + 3,
    ensures
        match r {
            Result::Ok((m, p)) => spec_parse_elems(s@, i as int, fuel, Seq::empty())
                == Option::Some((jv_seq(m@), p as int)) && i <= p <= s@.len(),
            Result::Err(e) => spec_parse_elems(s@, i as int, fuel, Seq::empty()) is None && e
                == ParseError::MalformedPayload,
        },
    decreases fuel,
{
    let mut m: Vec<JsonValue> = Vec::new();
    let mut cur: usize = i;
    let ghost mut gfuel: nat = fuel;
    proof {
        lemma_jv_seq(m@);
        assert(jv_seq(m@) =~= Seq::<JsonV>::empty());
    }
    loop
        invariant
            i <= cur <= s@.len(),
            gfuel >= 2 * (s@.len() - cur) + 3,
            gfuel <= fuel,
            spec_parse_elems(s@, i as int, fuel, Seq::empty()) == spec_parse_elems(
                s@,
                cur as int,
                gfuel,
                jv_seq(m@),
            ),
        decreases gfuel,
    {
        let (v, p): (JsonValue, usize) = match parse_value_at(
            s,
            cur,
            Ghost((gfuel - 1) as nat),
        ) {
            Result::Ok(t) => t,
            Result::Err(e) => {
                return Result::Err(e);
            },
        };
        let p2: usize = ws_to(s, p);
        let ghost old_m = m@;
        let ghost old_elems = jv_seq(m@);
        let ghost ev = jv(v);
        m.push(v);
        proof {
            lemma_jv_seq(old_m);
            lemma_jv_seq(m@);
            assert(jv_seq(m@) =~= old_elems.push(ev));
        }
        if p2 < s.len() && s[p2] == ',' {
            cur = p2 + 1;
            proof {
                gfuel = (gfuel - 1) as nat;
            }
        } else if p2 < s.len() && s[p2] == ']' {
            return Result::Ok((m, p2 + 1));
        } else {
            return Result::Err(ParseError::MalformedPayload);
        }
    }
}

/// Reads a whole document: one value with nothing but whitespace after
/// it.
pub open spec fn spec_parse_document(s: Seq<char>) -> Option<JsonV> {
    match spec_parse_value(s, 0, (2 * s.len() + 2) as nat) {
        Option::Some((v, p)) => if skip_ws(s, p) == s.len() {
            Option::Some(v)
        } else {
            Option::None
        },
        Option::None => Option::None,
    }
}

/// Reads a whole document from text: exactly what
/// `spec_parse_document` lays down, with `MalformedPayload` for any
/// text outside the grammar.
pub fn parse_document(s: &Vec<char>) -> (r: Result<JsonValue, ParseError>)
    ensures
        match r {
            Result::Ok(j) => spec_parse_document(s@) == Option::Some(jv(j)),
            Result::Err(e) => spec_parse_document(s@) is None && e
                == ParseError::MalformedPayload,
        },
{
    match parse_value_at(s, 0, Ghost((2 * s@.len() + 2) as nat)) {
        Result::Ok((v, p)) => {
            let q: usize = ws_to(s, p);
            if q == s.len() {
                Result::Ok(v)
            } else {
                Result::Err(ParseError::MalformedPayload)
            }
        },
        Result::Err(e) => Result::Err(e),
    }
}

// ---------------------------------------------------------------------
// Writing
// ---------------------------------------------------------------------

/// The written form of one character inside a string literal.
pub open spec fn escape_one(c: char) -> Seq<char> {
    if c == '"' {
        seq!['\\', '"']
    } else if c == '\\' {
        seq!['\\', '\\']
    } else if c == '\n' {
        seq!['\\', 'n']
    } else if c == '\r' {
        seq!['\\', 'r']
    } else if c == '\t' {
        seq!['\\', 't']
    } else {
        seq![c]
    }
}

/// The written inside of a string literal.
pub open spec fn escape_text(t: Seq<char>) -> Seq<char>
    decreases t.len(),
{
    if t.len() == 0 {
        Seq::empty()
    } else {
        escape_one(t[0]) + escape_text(t.subrange(1, t.len() as int))
    }
}

/// Writing one more character appends its written form.
pub proof fn lemma_escape_snoc(t: Seq<char>, c: char)
    ensures
        escape_text(t.push(c)) == escape_text(t) + escape_one(c),
    decreases t.len(),
{
    if t.len() == 0 {
        assert(t.push(c).subrange(1, t.push(c).len() as int) =~= Seq::<char>::empty());
        assert(t.push(c)[0] == c);
        assert(escape_text(Seq::<char>::empty()) =~= Seq::<char>::empty());
        assert(escape_text(t.push(c)) =~= escape_one(c));
        assert(escape_text(t) + escape_one(c) =~= escape_one(c));
    } else {
        lemma_escape_snoc(t.subrange(1, t.len() as int), c);
        assert(t.push(c).subrange(1, t.push(c).len() as int) =~= t.subrange(
            1,
            t.len() as int,
        ).push(c));
        assert(escape_text(t.push(c)) =~= escape_text(t) + escape_one(c));
    }
}

/// The character of one decimal digit.
pub open spec fn digit_char(d: int) -> char {
    if d == 0 {
        '0'
    } else if d == 1 {
        '1'
    } else if d == 2 {
        '2'
    } else if d == 3 {
        '3'
    } else if d == 4 {
        '4'
    } else if d == 5 {
        '5'
    } else if d == 6 {
        '6'
    } else if d == 7 {
        '7'
    } else if d == 8 {
        '8'
    } else {
        '9'
    }
}

/// The decimal digits of a non-negative number.
pub open spec fn dec_digits(n: int) -> Seq<char>
    decreases n,
{
    if n < 10 {
        seq![digit_char(n)]
    } else {
        dec_digits(n / 10) + seq![digit_char(n % 10)]
    }
}

/// The written fraction of a number held in hundredths.
pub open spec fn frac_text(f: int) -> Seq<char> {
    if f == 0 {
        Seq::empty()
    } else if f % 10 == 0 {
        seq!['.', digit_char(f / 10)]
    } else {
        seq!['.', digit_char(f / 10), digit_char(f % 10)]
    }
}

/// The written form of a non-negative number held in hundredths.
pub open spec fn unum_text(a: int) -> Seq<char> {
    dec_digits(a / 100) + frac_text(a % 100)
}

/// The written form of a number held in hundredths.
pub open spec fn num_text(n: int) -> Seq<char> {
    if n < 0 {
        seq!['-'] + unum_text(-n)
    } else {
        unum_text(n)
    }
}

/// The written form of one JSON value.
pub open spec fn json_text_of(d: JsonV) -> Seq<char>
    decreases d,
{
    match d {
        JsonV::Null => "null"@,
        JsonV::Bool(b) => if b {
            "true"@
        } else {
            "false"@
        },
        JsonV::Num(n) => num_text(n),
        JsonV::Text(t) => seq!['"'] + escape_text(t) + seq!['"'],
        JsonV::Arr(es) => seq!['['] + list_text(es) + seq![']'],
        JsonV::Obj(ms) => seq!['{'] + members_text(ms) + seq!['}'],
    }
}

/// The written elements of an array, comma-separated.
pub open spec fn list_text(es: Seq<JsonV>) -> Seq<char>
    decreases es,
{
    if es.len() == 0 {
        Seq::empty()
    } else if es.len() == 1 {
        json_text_of(es[0])
    } else {
        json_text_of(es[0]) + seq![','] + list_text(es.subrange(1, es.len() as int))
    }
}

/// The written form of one object member.
pub open spec fn member_text(m: (Seq<char>, JsonV)) -> Seq<char>
    decreases m,
{
    seq!['"'] + escape_text(m.0) + seq!['"', ':'] + json_text_of(m.1)
}

/// The written members of an object, comma-separated.
pub open spec fn members_text(ms: Seq<(Seq<char>, JsonV)>) -> Seq<char>
    decreases ms,
{
    if ms.len() == 0 {
        Seq::empty()
    } else if ms.len() == 1 {
        member_text(ms[0])
    } else {
        member_text(ms[0]) + seq![','] + members_text(ms.subrange(1, ms.len() as int))
    }
}

/// Writing one more element appends it after a comma.
pub proof fn lemma_list_snoc(es: Seq<JsonV>, e: JsonV)
    ensures
        es.len() == 0 ==> list_text(es.push(e)) == json_text_of(e),
        es.len() > 0 ==> list_text(es.push(e)) == list_text(es) + seq![','] + json_text_of(e),
    decreases es.len(),
{
    if es.len() == 0 {
        assert(list_text(es.push(e)) =~= json_text_of(e));
    } else {
        lemma_list_snoc(es.subrange(1, es.len() as int), e);
        assert(es.push(e).subrange(1, es.push(e).len() as int) =~= es.subrange(
            1,
            es.len() as int,
        ).push(e));
        if es.len() == 1 {
            assert(list_text(es.push(e)) =~= list_text(es) + seq![','] + json_text_of(e));
        } else {
            assert(list_text(es.push(e)) =~= list_text(es) + seq![','] + json_text_of(e));
        }
    }
}

/// Writing one more member appends it after a comma.
pub proof fn lemma_members_snoc(ms: Seq<(Seq<char>, JsonV)>, m: (Seq<char>, JsonV))
    ensures
        ms.len() == 0 ==> members_text(ms.push(m)) == member_text(m),
        ms.len() > 0 ==> members_text(ms.push(m)) == members_text(ms) + seq![',']
            + member_text(m),
    decreases ms.len(),
{
    if ms.len() == 0 {
        assert(members_text(ms.push(m)) =~= member_text(m));
    } else {
        lemma_members_snoc(ms.subrange(1, ms.len() as int), m);
        assert(ms.push(m).subrange(1, ms.push(m).len() as int) =~= ms.subrange(
            1,
            ms.len() as int,
        ).push(m));
        assert(members_text(ms.push(m)) =~= members_text(ms) + seq![','] + member_text(m));
    }
}

/// Appends the text of a string slice.
fn push_lit(out: &mut Vec<char>, s: &str)
    ensures
        final(out)@ == old(out)@ + s@,
{
    let n: usize = s.unicode_len();
    let mut i: usize = 0;
    while i < n
        invariant
            0 <= i <= n,
            n == s@.len(),
            out@ == old(out)@ + s@.subrange(0, i as int),
        decreases n - i,
    {
        out.push(s.get_char(i));
        proof {
            assert(out@ =~= old(out)@ + s@.subrange(0, i + 1));
        }
        i = i + 1;
    }
    proof {
        assert(out@ =~= old(out)@ + s@);
    }
}

/// Appends one decimal digit.
fn push_digit(out: &mut Vec<char>, d: u64)
    requires
        d < 10,
    ensures
        final(out)@ == old(out)@ + seq![digit_char(d as int)],
{
    let c: char = if d == 0 {
        '0'
    } else if d == 1 {
        '1'
    } else if d == 2 {
        '2'
    } else if d == 3 {
        '3'
    } else if d == 4 {
        '4'
    } else if d == 5 {
        '5'
    } else if d == 6 {
        '6'
    } else if d == 7 {
        '7'
    } else if d == 8 {
        '8'
    } else {
        '9'
    };
    out.push(c);
    proof {
        assert(out@ =~= old(out)@ + seq![digit_char(d as int)]);
    }
}

/// Appends the decimal digits of a number.
fn write_udigits(n: u64, out: &mut Vec<char>)
    ensures
        final(out)@ == old(out)@ + dec_digits(n as int),
    decreases n,
{
    if n < 10 {
        push_digit(out, n);
    } else {
        write_udigits(n / 10, out);
        push_digit(out, n % 10);
        proof {
            assert(out@ =~= old(out)@ + dec_digits(n as int));
        }
    }
}

/// Appends the written form of a number held in hundredths.
fn write_num(n: i64, out: &mut Vec<char>)
    ensures
        final(out)@ == old(out)@ + num_text(n as int),
{
    let a: u64 = if n < 0 {
        out.push('-');
        ((-(n + 1)) as u64) + 1
    } else {
        n as u64
    };
    write_udigits(a / 100, out);
    let f: u64 = a % 100;
    if f != 0 {
        out.push('.');
        push_digit(out, f / 10);
        if f % 10 != 0 {
            push_digit(out, f % 10);
        }
    }
    proof {
        assert(out@ =~= old(out)@ + num_text(n as int));
    }
}

/// Appends the written inside of a string literal.
fn write_escaped(out: &mut Vec<char>, t: &Vec<char>)
    ensures
        final(out)@ == old(out)@ + escape_text(t@),
{
    let mut i: usize = 0;
    while i < t.len()
        invariant
            0 <= i <= t@.len(),
            out@ == old(out)@ + escape_text(t@.subrange(0, i as int)),
        decreases t@.len() - i,
    {
        let c: char = t[i];
        if c == '"' {
            out.push('\\');
            out.push('"');
        } else if c == '\\' {
            out.push('\\');
            out.push('\\');
        } else if c == '\n' {
            out.push('\\');
            out.push('n');
        } else if c == '\r' {
            out.push('\\');
            out.push('r');
        } else if c == '\t' {
            out.push('\\');
            out.push('t');
        } else {
            out.push(c);
        }
        proof {
            lemma_escape_snoc(t@.subrange(0, i as int), t@[i as int]);
            assert(t@.subrange(0, i + 1) =~= t@.subrange(0, i as int).push(t@[i as int]));
            assert(out@ =~= old(out)@ + escape_text(t@.subrange(0, i + 1)));
        }
        i = i + 1;
    }
    proof {
        assert(t@.subrange(0, t@.len() as int) =~= t@);
    }
}

/// Appends the written form of one value.
fn write_value(j: &JsonValue, out: &mut Vec<char>)
    ensures
        final(out)@ == old(out)@ + json_text_of(jv(*j)),
    decreases *j,
{
    match j {
        JsonValue::Null => {
            push_lit(out, "null");
        },
        JsonValue::Bool(b) => {
            if *b {
                push_lit(out, "true");
            } else {
                push_lit(out, "false");
            }
        },
        JsonValue::Num(n) => {
            write_num(*n, out);
        },
        JsonValue::Text(t) => {
            out.push('"');
            write_escaped(out, t);
            out.push('"');
            proof {
                assert(out@ =~= old(out)@ + json_text_of(jv(*j)));
            }
        },
        JsonValue::Arr(es) => {
            out.push('[');
            let mut i: usize = 0;
            while i < es.len()
                invariant
                    *j == JsonValue::Arr(*es),
                    0 <= i <= es@.len(),
                    out@ == old(out)@ + seq!['['] + list_text(jv_seq(es@).subrange(
                        0,
                        i as int,
                    )),
                decreases es@.len() - i,
            {
                if i > 0 {
                    out.push(',');
                }
                proof {
                    assert(*j == JsonValue::Arr(*es));
                    assert(decreases_to!(*j => (*j)->Arr_0));
                    assert(decreases_to!((*j)->Arr_0 => (*j)->Arr_0@));
                    assert(decreases_to!((*j)->Arr_0@ => (*j)->Arr_0@[i as int]));
                    assert((*j)->Arr_0@[i as int] == es@[i as int]);
                }
                write_value(&es[i], out);
                proof {
                    lemma_jv_seq(es@);
                    lemma_list_snoc(jv_seq(es@).subrange(0, i as int), jv(es@[i as int]));
                    assert(jv_seq(es@).subrange(0, i + 1) =~= jv_seq(es@).subrange(
                        0,
                        i as int,
                    ).push(jv(es@[i as int])));
                    assert(out@ =~= old(out)@ + seq!['['] + list_text(
                        jv_seq(es@).subrange(0, i + 1),
                    ));
                }
                i = i + 1;
            }
            out.push(']');
            proof {
                lemma_jv_seq(es@);
                assert(jv_seq(es@).subrange(0, es@.len() as int) =~= jv_seq(es@));
                assert(out@ =~= old(out)@ + json_text_of(jv(*j)));
            }
        },
        JsonValue::Obj(ms) => {
            out.push('{');
            let mut i: usize = 0;
            while i < ms.len()
                invariant
                    *j == JsonValue::Obj(*ms),
                    0 <= i <= ms@.len(),
                    out@ == old(out)@ + seq!['{'] + members_text(entries_v(ms@).subrange(
                        0,
                        i as int,
                    )),
                decreases ms@.len() - i,
            {
                if i > 0 {
                    out.push(',');
                }
                out.push('"');
                write_escaped(out, &ms[i].0);
                out.push('"');
                out.push(':');
                proof {
                    assert(*j == JsonValue::Obj(*ms));
                    assert(decreases_to!(*j => (*j)->Obj_0));
                    assert(decreases_to!((*j)->Obj_0 => (*j)->Obj_0@));
                    assert(decreases_to!((*j)->Obj_0@ => (*j)->Obj_0@[i as int]));
                    assert(decreases_to!((*j)->Obj_0@[i as int] => (*j)->Obj_0@[i as int].1));
                    assert((*j)->Obj_0@[i as int].1 == ms@[i as int].1);
                }
                write_value(&ms[i].1, out);
                proof {
                    lemma_entries_v(ms@);
                    lemma_members_snoc(
                        entries_v(ms@).subrange(0, i as int),
                        entries_v(ms@)[i as int],
                    );
                    assert(entries_v(ms@).subrange(0, i + 1) =~= entries_v(ms@).subrange(
                        0,
                        i as int,
                    ).push(entries_v(ms@)[i as int]));
                    assert(out@ =~= old(out)@ + seq!['{'] + members_text(
                        entries_v(ms@).subrange(0, i + 1),
                    ));
                }
                i = i + 1;
            }
            out.push('}');
            proof {
                lemma_entries_v(ms@);
                assert(entries_v(ms@).subrange(0, ms@.len() as int) =~= entries_v(ms@));
                assert(out@ =~= old(out)@ + json_text_of(jv(*j)));
            }
        },
    }
}

/// Writes one value as document text.
pub fn write_document(j: &JsonValue) -> (r: Vec<char>)
    ensures
        r@ == json_text_of(jv(*j)),
{
    let mut out: Vec<char> = Vec::new();
    write_value(j, &mut out);
    out
}

} // verus!
