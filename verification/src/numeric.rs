//! Decimal quantities. The exchange encodes numeric fields as JSON strings,
//! JSON numbers or null; this module holds the text form of such a quantity,
//! validated against the decimal-float grammar that std's float parsing
//! documents:
//!
//! ```text
//! Float  ::= Sign? ( 'inf' | 'infinity' | 'nan' | Number )
//! Number ::= Count '.'? Exp? | Count '.' Count Exp? | '.' Count Exp?
//! Exp    ::= ('e' | 'E') Sign? Count
//! Count  ::= Digit+
//! ```
//!
//! with 'inf', 'infinity' and 'nan' matched case-insensitively. Keeping the
//! validated text instead of a binary float preserves the value exactly; the
//! caller converts at the boundary where a float is wanted.
use crate::DecodeError;
use vstd::prelude::*;

verus! {

pub open spec fn is_digit(c: char) -> bool {
    '0' <= c && c <= '9'
}

pub open spec fn is_exp_mark(c: char) -> bool {
    c == 'e' || c == 'E'
}

pub open spec fn is_sign(c: char) -> bool {
    c == '+' || c == '-'
}

/// Lowercases the letters that appear in 'inf', 'infinity' and 'nan'.
pub open spec fn lower_c(c: char) -> char {
    if c == 'I' {
        'i'
    } else if c == 'N' {
        'n'
    } else if c == 'F' {
        'f'
    } else if c == 'A' {
        'a'
    } else if c == 'T' {
        't'
    } else if c == 'Y' {
        'y'
    } else {
        c
    }
}

pub open spec fn eq_ci(t: Seq<char>, pat: Seq<char>) -> bool {
    t.len() == pat.len() && forall|i: int| 0 <= i < t.len() ==> lower_c(t[i]) == pat[i]
}

/// 'inf', 'infinity' or 'nan', case-insensitively.
pub open spec fn is_special(t: Seq<char>) -> bool {
    ||| eq_ci(t, seq!['i', 'n', 'f'])
    ||| eq_ci(t, seq!['i', 'n', 'f', 'i', 'n', 'i', 't', 'y'])
    ||| eq_ci(t, seq!['n', 'a', 'n'])
}

/// One or more digits.
pub open spec fn is_count(z: Seq<char>) -> bool {
    z.len() > 0 && forall|i: int| 0 <= i < z.len() ==> is_digit(z[i])
}

/// A count with an optional leading sign.
pub open spec fn is_signed_count(y: Seq<char>) -> bool {
    y.len() > 0 && if is_sign(y[0]) {
        is_count(y.skip(1))
    } else {
        is_count(y)
    }
}

/// An exponent part: 'e' or 'E', then a signed count.
pub open spec fn is_exp(x: Seq<char>) -> bool {
    x.len() > 0 && is_exp_mark(x[0]) && is_signed_count(x.skip(1))
}

/// The part before any exponent: digits and at most one '.', with at least
/// one digit somewhere.
pub open spec fn is_mantissa(m: Seq<char>) -> bool {
    &&& m.len() > 0
    &&& forall|i: int| 0 <= i < m.len() ==> is_digit(m[i]) || m[i] == '.'
    &&& forall|i: int, j: int| 0 <= i < j < m.len() ==> !(m[i] == '.' && m[j] == '.')
    &&& exists|i: int| 0 <= i < m.len() && is_digit(m[i])
}

/// The index of the first 'e' or 'E', or the length if there is none.
pub open spec fn e_pos(t: Seq<char>) -> int
    decreases t.len(),
{
    if t.len() == 0 {
        0
    } else if is_exp_mark(t[0]) {
        0
    } else {
        1 + e_pos(t.drop_first())
    }
}

pub proof fn lemma_e_pos_is(t: Seq<char>, k: int)
    requires
        0 <= k <= t.len(),
        forall|j: int| 0 <= j < k ==> !is_exp_mark(t[j]),
        k == t.len() || is_exp_mark(t[k]),
    ensures
        e_pos(t) == k,
    decreases t.len(),
{
    if t.len() == 0 {
    } else if is_exp_mark(t[0]) {
        assert(k == 0);
    } else {
        assert(k > 0);
        assert forall|j: int| 0 <= j < k - 1 implies !is_exp_mark(t.drop_first()[j]) by {
            assert(t.drop_first()[j] == t[j + 1]);
        }
        if k < t.len() {
            assert(t.drop_first()[k - 1] == t[k]);
        }
        lemma_e_pos_is(t.drop_first(), k - 1);
    }
}

/// A number: a mantissa, then optionally an exponent.
pub open spec fn is_number_text(t: Seq<char>) -> bool {
    &&& is_mantissa(t.take(e_pos(t)))
    &&& (e_pos(t) == t.len() || is_exp(t.skip(e_pos(t))))
}

/// The whole grammar: an optional sign, then a special word or a number.
pub open spec fn is_float_text(s: Seq<char>) -> bool {
    s.len() > 0 && {
        let t = if is_sign(s[0]) {
            s.drop_first()
        } else {
            s
        };
        is_special(t) || is_number_text(t)
    }
}

/// The value of one decimal digit character.
pub open spec fn digit_val(c: char) -> nat {
    if c == '1' {
        1
    } else if c == '2' {
        2
    } else if c == '3' {
        3
    } else if c == '4' {
        4
    } else if c == '5' {
        5
    } else if c == '6' {
        6
    } else if c == '7' {
        7
    } else if c == '8' {
        8
    } else if c == '9' {
        9
    } else {
        0
    }
}

/// The value of a digits-only token.
pub open spec fn uint_val(s: Seq<char>) -> nat
    decreases s.len(),
{
    if s.len() == 0 {
        0
    } else {
        uint_val(s.drop_last()) * 10 + digit_val(s.last())
    }
}

/// An integer token: an optional minus sign, then digits.
pub open spec fn is_int_text(s: Seq<char>) -> bool {
    if s.len() > 0 && s[0] == '-' {
        is_count(s.skip(1))
    } else {
        is_count(s)
    }
}

/// The value of an integer token.
pub open spec fn int_val(s: Seq<char>) -> int {
    if s.len() > 0 && s[0] == '-' {
        -(uint_val(s.skip(1)) as int)
    } else {
        uint_val(s) as int
    }
}

/// A token's value only grows as more of its digits are read.
pub proof fn lemma_uint_val_take_le(s: Seq<char>, i: int)
    requires
        0 <= i <= s.len(),
    ensures
        uint_val(s.take(i)) <= uint_val(s),
    decreases s.len() - i,
{
    if i == s.len() {
        assert(s.take(i) =~= s);
    } else {
        assert(s.take(i + 1).drop_last() =~= s.take(i));
        assert(uint_val(s.take(i + 1)) == uint_val(s.take(i)) * 10 + digit_val(s.take(i + 1).last()));
        lemma_uint_val_take_le(s, i + 1);
    }
}

fn char_digit(c: char) -> (d: u8)
    requires
        is_digit(c),
    ensures
        d == digit_val(c),
        d < 10,
{
    if c == '1' {
        1
    } else if c == '2' {
        2
    } else if c == '3' {
        3
    } else if c == '4' {
        4
    } else if c == '5' {
        5
    } else if c == '6' {
        6
    } else if c == '7' {
        7
    } else if c == '8' {
        8
    } else if c == '9' {
        9
    } else {
        0
    }
}

/// One tenth of u128::MAX, rounded down: the last value a running parse
/// may hold before taking one more digit.
const U128_PARSE_LIMIT: u128 = 34028236692093846346337460743176821145;

/// Parses a digits-only token, failing on any other text and on a value
/// beyond u128.
pub fn parse_u128_text(s: &str) -> (r: Option<u128>)
    ensures
        match r {
            Some(v) => is_count(s@) && uint_val(s@) == v,
            None => !is_count(s@) || uint_val(s@) > u128::MAX,
        },
{
    let n = s.unicode_len();
    if n == 0 {
        return None;
    }
    let mut val: u128 = 0;
    let mut i: usize = 0;
    proof {
        assert(s@.take(0) =~= Seq::<char>::empty());
    }
    while i < n
        invariant
            0 <= i <= n,
            n == s@.len(),
            forall|j: int| 0 <= j < i ==> is_digit(s@[j]),
            val == uint_val(s@.take(i as int)),
        decreases n - i,
    {
        let c = s.get_char(i);
        if !('0' <= c && c <= '9') {
            proof {
                assert(!is_digit(s@[i as int]));
            }
            return None;
        }
        let d = char_digit(c);
        proof {
            assert(s@.take(i + 1).drop_last() =~= s@.take(i as int));
            assert(s@.take(i + 1).last() == s@[i as int]);
            assert(uint_val(s@.take(i + 1)) == val * 10 + digit_val(s@[i as int]));
        }
        if val > U128_PARSE_LIMIT || (val == U128_PARSE_LIMIT && d > 5) {
            proof {
                assert(uint_val(s@.take(i + 1)) > u128::MAX);
                lemma_uint_val_take_le(s@, i + 1);
            }
            return None;
        }
        val = val * 10 + (d as u128);
        i += 1;
    }
    proof {
        assert(s@.take(n as int) =~= s@);
    }
    Some(val)
}

/// Parses an integer token with an optional minus sign, failing on any
/// other text and on a value outside i64.
pub fn parse_i64_text(s: &str) -> (r: Option<i64>)
    ensures
        match r {
            Some(v) => is_int_text(s@) && int_val(s@) == v,
            None => !is_int_text(s@) || int_val(s@) > i64::MAX || int_val(s@) < i64::MIN,
        },
{
    let n = s.unicode_len();
    if n > 0 && s.get_char(0) == '-' {
        let tail = s.substring_char(1, n);
        proof {
            assert(tail@ =~= s@.skip(1));
        }
        match parse_u128_text(tail) {
            Some(v) => {
                if v <= 9223372036854775807u128 {
                    Some(-(v as i64))
                } else if v == 9223372036854775808u128 {
                    Some(i64::MIN)
                } else {
                    None
                }
            },
            None => None,
        }
    } else {
        match parse_u128_text(s) {
            Some(v) => {
                if v <= 9223372036854775807u128 {
                    Some(v as i64)
                } else {
                    None
                }
            },
            None => None,
        }
    }
}

/// A decimal quantity, kept as the exact text the exchange sent or the
/// caller supplied. The view is that text.
#[derive(Debug, Clone)]
pub struct Decimal {
    text: String,
}

impl View for Decimal {
    type V = Seq<char>;

    closed spec fn view(&self) -> Seq<char> {
        self.text@
    }
}

impl Decimal {
    /// Every held text is in the float grammar.
    pub open spec fn wf(&self) -> bool {
        is_float_text(self@)
    }

    /// Accepts exactly the texts of the float grammar.
    pub fn new(text: String) -> (r: Result<Decimal, DecodeError>)
        ensures
            match r {
                Ok(d) => d@ == text@ && d.wf(),
                Err(e) => e == DecodeError::InvalidNumber && !is_float_text(text@),
            },
    {
        if check_float_text(text.as_str()) {
            Ok(Decimal { text })
        } else {
            Err(DecodeError::InvalidNumber)
        }
    }

    pub fn from_str(text: &str) -> (r: Result<Decimal, DecodeError>)
        ensures
            match r {
                Ok(d) => d@ == text@ && d.wf(),
                Err(e) => e == DecodeError::InvalidNumber && !is_float_text(text@),
            },
    {
        Decimal::new(text.to_owned())
    }

    /// The quantity zero, as the exchange's null-valued numeric fields
    /// decode to it.
    pub fn zero() -> (r: Decimal)
        ensures
            r@ == seq!['0'],
            r.wf(),
    {
        let text = "0".to_owned();
        proof {
            reveal_strlit("0");
            let s = text@;
            assert(s =~= seq!['0']);
            lemma_e_pos_is(s, 1);
            assert(s.take(1) =~= s);
            assert(is_digit(s[0]));
            assert(is_mantissa(s.take(e_pos(s))));
        }
        Decimal { text }
    }

    pub fn as_str(&self) -> (r: &str)
        ensures
            r@ == self@,
    {
        self.text.as_str()
    }
}

/// Decides membership in the float grammar.
pub fn check_float_text(s: &str) -> (b: bool)
    ensures
        b == is_float_text(s@),
{
    let n = s.unicode_len();
    if n == 0 {
        return false;
    }
    let c0 = s.get_char(0);
    let start: usize = if c0 == '+' || c0 == '-' {
        1
    } else {
        0
    };
    let ghost t = if is_sign(s@[0]) {
        s@.drop_first()
    } else {
        s@
    };
    proof {
        assert(s@.drop_first() =~= s@.skip(1));
        assert(s@.skip(0) =~= s@);
        assert(t == s@.skip(start as int));
        assert(t.len() == n - start);
        assert(forall|j: int| 0 <= j < t.len() ==> t[j] == s@[start + j]);
    }
    if check_special(s, start, n) {
        proof {
            assert(is_special(t));
        }
        return true;
    }
    let b = check_number(s, start, n);
    proof {
        assert(b == is_number_text(t));
    }
    b
}

/// Matches the tail beginning at `start` against 'inf', 'infinity' or
/// 'nan', case-insensitively.
fn check_special(s: &str, start: usize, n: usize) -> (b: bool)
    requires
        start <= n,
        n == s@.len(),
    ensures
        b == is_special(s@.skip(start as int)),
{
    let ghost t = s@.skip(start as int);
    proof {
        assert(t.len() == n - start);
        assert(forall|j: int| 0 <= j < t.len() ==> t[j] == s@[start + j]);
    }
    let len = n - start;
    if len == 3 {
        let a = s.get_char(start);
        let b = s.get_char(start + 1);
        let c = s.get_char(start + 2);
        let inf = (a == 'i' || a == 'I') && (b == 'n' || b == 'N') && (c == 'f' || c == 'F');
        let nan = (a == 'n' || a == 'N') && (b == 'a' || b == 'A') && (c == 'n' || c == 'N');
        proof {
            if inf {
                assert forall|i: int| 0 <= i < 3 implies lower_c(t[i]) == seq!['i', 'n', 'f'][i] by {}
                assert(eq_ci(t, seq!['i', 'n', 'f']));
            } else {
                assert(!eq_ci(t, seq!['i', 'n', 'f']));
            }
            if nan {
                assert forall|i: int| 0 <= i < 3 implies lower_c(t[i]) == seq!['n', 'a', 'n'][i] by {}
                assert(eq_ci(t, seq!['n', 'a', 'n']));
            } else {
                assert(!eq_ci(t, seq!['n', 'a', 'n']));
            }
        }
        inf || nan
    } else if len == 8 {
        let ghost pat = seq!['i', 'n', 'f', 'i', 'n', 'i', 't', 'y'];
        let mut ok = true;
        let mut i: usize = 0;
        while i < 8
            invariant
                0 <= i <= 8,
                start + 8 == n,
                n == s@.len(),
                t == s@.skip(start as int),
                t.len() == 8,
                pat == seq!['i', 'n', 'f', 'i', 'n', 'i', 't', 'y'],
                pat.len() == 8,
                ok,
                forall|j: int| 0 <= j < t.len() ==> t[j] == s@[start + j],
                forall|j: int| 0 <= j < i ==> lower_c(t[j]) == pat[j],
            decreases 8 - i,
        {
            let c = s.get_char(start + i);
            let want: char = if i == 0 || i == 3 || i == 5 {
                'i'
            } else if i == 1 || i == 4 {
                'n'
            } else if i == 2 {
                'f'
            } else if i == 6 {
                't'
            } else {
                'y'
            };
            let lower: char = if c == 'I' {
                'i'
            } else if c == 'N' {
                'n'
            } else if c == 'F' {
                'f'
            } else if c == 'A' {
                'a'
            } else if c == 'T' {
                't'
            } else if c == 'Y' {
                'y'
            } else {
                c
            };
            proof {
                assert(lower == lower_c(t[i as int]));
                assert(want == pat[i as int]);
            }
            if lower != want {
                ok = false;
                proof {
                    assert(lower_c(t[i as int]) != pat[i as int]);
                    assert(!eq_ci(t, pat));
                }
                return false;
            }
            i += 1;
        }
        proof {
            assert(eq_ci(t, pat));
        }
        true
    } else {
        proof {
            assert(!is_special(t));
        }
        false
    }
}

/// Checks the Number production on the tail beginning at `start`.
fn check_number(s: &str, start: usize, n: usize) -> (b: bool)
    requires
        start <= n,
        n == s@.len(),
    ensures
        b == is_number_text(s@.skip(start as int)),
{
    let ghost t = s@.skip(start as int);
    proof {
        assert(t.len() == n - start);
        assert(forall|j: int| 0 <= j < t.len() ==> t[j] == s@[start + j]);
    }
    // find the first exponent mark
    let mut p: usize = start;
    let mut found = false;
    while !found && p < n
        invariant
            start <= p <= n,
            n == s@.len(),
            t == s@.skip(start as int),
            forall|j: int| 0 <= j < t.len() ==> t[j] == s@[start + j],
            forall|j: int| 0 <= j < p - start ==> !is_exp_mark(t[j]),
            found ==> p < n && is_exp_mark(t[p - start]),
        decreases n - p, (if found { 0int } else { 1int }),
    {
        let c = s.get_char(p);
        if c == 'e' || c == 'E' {
            found = true;
        } else {
            p += 1;
        }
    }
    proof {
        lemma_e_pos_is(t, p - start);
    }
    // mantissa: t.take(p - start)
    let ghost m = t.take(p - start);
    proof {
        assert(forall|j: int| 0 <= j < m.len() ==> m[j] == s@[start + j]);
    }
    if p == start {
        proof {
            assert(!is_mantissa(m));
        }
        return false;
    }
    let mut digit_seen = false;
    let mut dot_seen = false;
    let mut i: usize = start;
    while i < p
        invariant
            start <= i <= p <= n,
            n == s@.len(),
            t == s@.skip(start as int),
            e_pos(t) == p - start,
            m == t.take(p - start),
            m.len() == p - start,
            forall|j: int| 0 <= j < m.len() ==> m[j] == s@[start + j],
            forall|j: int| 0 <= j < i - start ==> is_digit(m[j]) || m[j] == '.',
            digit_seen == exists|j: int| 0 <= j < i - start && is_digit(m[j]),
            dot_seen == exists|j: int| 0 <= j < i - start && m[j] == '.',
            forall|j: int, k: int|
                0 <= j < k < i - start ==> !(m[j] == '.' && m[k] == '.'),
        decreases p - i,
    {
        let c = s.get_char(i);
        if c == '.' {
            proof {
                assert(m[i - start] == '.');
                assert(!is_digit(m[i - start]));
            }
            if dot_seen {
                proof {
                    let j = choose|j: int| 0 <= j < i - start && m[j] == '.';
                    assert(m[j] == '.' && m[i - start] == '.' && j < i - start);
                    assert(!is_mantissa(m));
                    assert(t.take(e_pos(t)) == m);
                    assert(!is_number_text(t));
                }
                return false;
            }
            dot_seen = true;
        } else if '0' <= c && c <= '9' {
            digit_seen = true;
            proof {
                assert(is_digit(m[i - start]));
                assert(m[i - start] != '.');
            }
        } else {
            proof {
                assert(!(is_digit(m[i - start]) || m[i - start] == '.'));
                assert(!is_mantissa(m));
                assert(t.take(e_pos(t)) == m);
                assert(!is_number_text(t));
            }
            return false;
        }
        i += 1;
    }
    if !digit_seen {
        proof {
            assert(!is_mantissa(m));
        }
        return false;
    }
    proof {
        assert(is_mantissa(m));
    }
    if p == n {
        return true;
    }
    // exponent: t.skip(p - start); its head is the mark found above
    let ghost x = t.skip(p - start);
    proof {
        assert(forall|j: int| 0 <= j < x.len() ==> x[j] == s@[p + j]);
        assert(is_exp_mark(x[0]));
    }
    let ghost y = x.skip(1);
    proof {
        assert(y.len() == n - p - 1);
        assert(forall|j: int| 0 <= j < y.len() ==> y[j] == s@[p + 1 + j]);
    }
    let mut q = p + 1;
    let mut signed_exp = false;
    if q < n {
        let c = s.get_char(q);
        if c == '+' || c == '-' {
            signed_exp = true;
            q += 1;
            proof {
                assert(is_sign(y[0]));
            }
        } else {
            proof {
                assert(!is_sign(y[0]));
            }
        }
    }
    // digits must run from q to n, and there must be at least one
    if q == n {
        proof {
            if y.len() > 0 {
                assert(n - p - 1 > 0);
                assert(signed_exp);
                assert(is_sign(y[0]));
                assert(y.len() == 1);
                assert(y.skip(1).len() == 0);
                assert(!is_count(y.skip(1)));
            }
            assert(!is_signed_count(y));
            assert(!is_exp(x));
            assert(t.skip(e_pos(t)) == x);
            assert(!is_number_text(t));
        }
        return false;
    }
    let ghost z = if is_sign(y[0]) {
        y.skip(1)
    } else {
        y
    };
    proof {
        if signed_exp {
            assert(z == y.skip(1));
        } else {
            assert(!is_sign(y[0]));
            assert(z == y);
        }
        assert(z.len() == n - q);
        assert(forall|j: int| 0 <= j < z.len() ==> z[j] == s@[q + j]);
    }
    let mut k = q;
    while k < n
        invariant
            q <= k <= n,
            p < n,
            q < n,
            n == s@.len(),
            t == s@.skip(start as int),
            t.len() == n - start,
            e_pos(t) == p - start,
            x == t.skip(p - start),
            y == x.skip(1),
            y.len() == n - p - 1,
            z == (if is_sign(y[0]) {
                y.skip(1)
            } else {
                y
            }),
            z.len() == n - q,
            forall|j: int| 0 <= j < z.len() ==> z[j] == s@[q + j],
            forall|j: int| 0 <= j < k - q ==> is_digit(z[j]),
        decreases n - k,
    {
        let c = s.get_char(k);
        if !('0' <= c && c <= '9') {
            proof {
                assert(!is_digit(z[k - q]));
                assert(!is_count(z));
                assert(!is_signed_count(y));
                assert(!is_exp(x));
                assert(t.skip(e_pos(t)) == x);
                assert(!is_number_text(t));
            }
            return false;
        }
        k += 1;
    }
    proof {
        assert(is_count(z));
        assert(is_signed_count(y));
        assert(is_exp(x));
    }
    true
}

} // verus!
