//! Small text utilities: decimal rendering of integers and the quote
//! trimming applied to a reading before it is read as a number.
use vstd::prelude::*;

verus! {

/// The character of a decimal digit.
pub open spec fn digit_char(d: nat) -> char
    recommends
        d < 10,
{
    if d == 0 {
        '0'
    } else if d == 1 {
        '1'
    } else if d == 2 {
        '2'
    } else if d == 3 {
        '3'
    } else if d == 4 {
        '4'
    } else if d == 5 {
        '5'
    } else if d == 6 {
        '6'
    } else if d == 7 {
        '7'
    } else if d == 8 {
        '8'
    } else {
        '9'
    }
}

/// The decimal notation of `n`: no sign, no leading zero (but "0" for zero).
pub open spec fn decimal(n: nat) -> Seq<char>
    decreases n,
{
    if n < 10 {
        seq![digit_char(n)]
    } else {
        decimal(n / 10).push(digit_char(n % 10))
    }
}

/// The text of one decimal digit.
fn digit_text(d: u64) -> (s: &'static str)
    requires
        d < 10,
    ensures
        s@ == seq![digit_char(d as nat)],
{
    proof {
        reveal_strlit("0");
        reveal_strlit("1");
        reveal_strlit("2");
        reveal_strlit("3");
        reveal_strlit("4");
        reveal_strlit("5");
        reveal_strlit("6");
        reveal_strlit("7");
        reveal_strlit("8");
        reveal_strlit("9");
    }
    if d == 0 {
        "0"
    } else if d == 1 {
        "1"
    } else if d == 2 {
        "2"
    } else if d == 3 {
        "3"
    } else if d == 4 {
        "4"
    } else if d == 5 {
        "5"
    } else if d == 6 {
        "6"
    } else if d == 7 {
        "7"
    } else if d == 8 {
        "8"
    } else {
        "9"
    }
}

/// Renders `n` in decimal, as `to_string` does for an unsigned integer.
pub fn decimal_string(n: u64) -> (s: String)
    ensures
        s@ == decimal(n as nat),
    decreases n,
{
    if n < 10 {
        String::from_str(digit_text(n))
    } else {
        let mut s = decimal_string(n / 10);
        s.append(digit_text(n % 10));
        s
    }
}

/// Every character of a decimal rendering is a digit.
pub proof fn lemma_decimal_digits(n: nat)
    ensures
        decimal(n).len() >= 1,
        forall|i: int| 0 <= i < decimal(n).len() ==> '0' <= #[trigger] decimal(n)[i] <= '9',
    decreases n,
{
    if n >= 10 {
        lemma_decimal_digits(n / 10);
    }
}

/// The value of a decimal digit character.
pub open spec fn digit_value(c: char) -> nat {
    ((c as int) - ('0' as int)) as nat
}

/// The number a text of decimal digits denotes.
pub open spec fn parse_decimal(s: Seq<char>) -> nat
    decreases s.len(),
{
    if s.len() == 0 {
        0
    } else {
        parse_decimal(s.drop_last()) * 10 + digit_value(s.last())
    }
}

proof fn lemma_digit_value(d: nat)
    requires
        d < 10,
    ensures
        digit_value(digit_char(d)) == d,
{
    assert(('0' as int) == 48 && ('1' as int) == 49 && ('2' as int) == 50 && ('3' as int) == 51
        && ('4' as int) == 52 && ('5' as int) == 53 && ('6' as int) == 54 && ('7' as int) == 55
        && ('8' as int) == 56 && ('9' as int) == 57);
}

/// Reading a decimal rendering back gives the number rendered.
pub proof fn lemma_decimal_round_trip(n: nat)
    ensures
        parse_decimal(decimal(n)) == n,
    decreases n,
{
    if n < 10 {
        let d = decimal(n);
        assert(d.drop_last() =~= Seq::<char>::empty());
        lemma_digit_value(n);
        assert(parse_decimal(d) == parse_decimal(d.drop_last()) * 10 + digit_value(d.last()));
        assert(parse_decimal(Seq::<char>::empty()) == 0);
    } else {
        let d = decimal(n);
        lemma_digit_value(n % 10);
        lemma_decimal_round_trip(n / 10);
        assert(d.drop_last() =~= decimal(n / 10));
        assert(d.last() == digit_char(n % 10));
        assert(parse_decimal(d) == parse_decimal(d.drop_last()) * 10 + digit_value(d.last()));
        assert((n / 10) * 10 + n % 10 == n) by (nonlinear_arith);
    }
}

/// `s` without its leading double quotes.
pub open spec fn drop_leading_quotes(s: Seq<char>) -> Seq<char>
    decreases s.len(),
{
    if s.len() > 0 && s[0] == '"' {
        drop_leading_quotes(s.drop_first())
    } else {
        s
    }
}

/// `s` without its trailing double quotes.
pub open spec fn drop_trailing_quotes(s: Seq<char>) -> Seq<char>
    decreases s.len(),
{
    if s.len() > 0 && s.last() == '"' {
        drop_trailing_quotes(s.drop_last())
    } else {
        s
    }
}

/// `s` with every leading and trailing double quote removed
/// (what `trim_matches('"')` gives).
pub open spec fn trim_quotes(s: Seq<char>) -> Seq<char> {
    drop_trailing_quotes(drop_leading_quotes(s))
}

proof fn lemma_drop_leading_step(s: Seq<char>, i: int)
    requires
        0 <= i < s.len(),
        s[i] == '"',
    ensures
        drop_leading_quotes(s.subrange(i, s.len() as int)) == drop_leading_quotes(
            s.subrange(i + 1, s.len() as int),
        ),
{
    assert(s.subrange(i, s.len() as int).drop_first() =~= s.subrange(i + 1, s.len() as int));
}

proof fn lemma_drop_trailing_step(s: Seq<char>, i: int, j: int)
    requires
        0 <= i < j <= s.len(),
        s[j - 1] == '"',
    ensures
        drop_trailing_quotes(s.subrange(i, j)) == drop_trailing_quotes(s.subrange(i, j - 1)),
{
    assert(s.subrange(i, j).drop_last() =~= s.subrange(i, j - 1));
}

/// Removes every leading and trailing double quote of `s`.
pub fn trim_quotes_str(s: &str) -> (r: String)
    ensures
        r@ == trim_quotes(s@),
{
    let n = s.unicode_len();
    let mut i: usize = 0;
    assert(s@.subrange(0, n as int) =~= s@);
    while i < n && s.get_char(i) == '"'
        invariant
            n == s@.len(),
            i <= n,
            drop_leading_quotes(s@) == drop_leading_quotes(s@.subrange(i as int, n as int)),
        decreases n - i,
    {
        proof {
            lemma_drop_leading_step(s@, i as int);
        }
        i = i + 1;
    }
    proof {
        assert(s@.subrange(0, n as int) =~= s@);
        if i < n {
            assert(s@.subrange(i as int, n as int)[0] == s@[i as int]);
        }
    }
    assert(drop_leading_quotes(s@) == s@.subrange(i as int, n as int));
    let mut j: usize = n;
    while j > i && s.get_char(j - 1) == '"'
        invariant
            n == s@.len(),
            i <= j <= n,
            drop_leading_quotes(s@) == s@.subrange(i as int, n as int),
            trim_quotes(s@) == drop_trailing_quotes(s@.subrange(i as int, j as int)),
        decreases j - i,
    {
        proof {
            lemma_drop_trailing_step(s@, i as int, j as int);
        }
        j = j - 1;
    }
    proof {
        if j > i {
            assert(s@.subrange(i as int, j as int).last() == s@[j - 1]);
        }
    }
    s.substring_char(i, j).to_owned()
}

/// Trimming quotes twice gives what trimming once gave.
pub proof fn lemma_trim_quotes_idempotent(s: Seq<char>)
    ensures
        trim_quotes(trim_quotes(s)) == trim_quotes(s),
        trim_quotes(s).len() > 0 ==> trim_quotes(s)[0] != '"' && trim_quotes(s).last() != '"',
{
    lemma_leading_done(s);
    let t = drop_leading_quotes(s);
    lemma_trailing_keeps_head(t);
    lemma_trailing_done(t);
    let r = drop_trailing_quotes(t);
    assert(drop_leading_quotes(r) == r);
    assert(drop_trailing_quotes(r) == r);
}

proof fn lemma_leading_done(s: Seq<char>)
    ensures
        drop_leading_quotes(s).len() > 0 ==> drop_leading_quotes(s)[0] != '"',
    decreases s.len(),
{
    if s.len() > 0 && s[0] == '"' {
        lemma_leading_done(s.drop_first());
    }
}

proof fn lemma_trailing_done(s: Seq<char>)
    ensures
        drop_trailing_quotes(s).len() > 0 ==> drop_trailing_quotes(s).last() != '"',
    decreases s.len(),
{
    if s.len() > 0 && s.last() == '"' {
        lemma_trailing_done(s.drop_last());
    }
}

/// Dropping trailing quotes keeps a prefix of `s`; when `s` starts with
/// something other than a quote, so does the result.
proof fn lemma_trailing_keeps_head(s: Seq<char>)
    ensures
        drop_trailing_quotes(s).len() <= s.len(),
        drop_trailing_quotes(s) =~= s.subrange(0, drop_trailing_quotes(s).len() as int),
        (s.len() > 0 && s[0] != '"') ==> drop_trailing_quotes(s).len() > 0,
    decreases s.len(),
{
    if s.len() > 0 && s.last() == '"' {
        lemma_trailing_keeps_head(s.drop_last());
        let r = drop_trailing_quotes(s.drop_last());
        assert(s.drop_last().subrange(0, r.len() as int) =~= s.subrange(0, r.len() as int));
    }
}

} // verus!

verus! {

/// A decimal digit.
pub open spec fn is_digit(c: char) -> bool {
    '0' <= c && c <= '9'
}

/// A sign character.
pub open spec fn is_sign(c: char) -> bool {
    c == '+' || c == '-'
}

/// The exponent mark of a decimal number.
pub open spec fn is_exp_mark(c: char) -> bool {
    c == 'e' || c == 'E'
}

/// Every character of `s` is a digit.
pub open spec fn all_digits(s: Seq<char>) -> bool {
    forall|i: int| 0 <= i < s.len() ==> is_digit(#[trigger] s[i])
}

/// The digits of a decimal number, with at most one decimal point and at
/// least one digit: `Digit+`, `Digit+ '.' Digit*` or `Digit* '.' Digit+`.
pub open spec fn decimal_mantissa(m: Seq<char>) -> bool {
    &&& forall|i: int| 0 <= i < m.len() ==> is_digit(#[trigger] m[i]) || m[i] == '.'
    &&& forall|i: int, j: int|
        0 <= i < j < m.len() && #[trigger] m[i] == '.' ==> #[trigger] m[j] != '.'
    &&& exists|i: int| 0 <= i < m.len() && is_digit(#[trigger] m[i])
}

/// The exponent of a decimal number after its mark: `Sign? Digit+`.
pub open spec fn decimal_exponent(x: Seq<char>) -> bool {
    let d = if x.len() > 0 && is_sign(x[0]) {
        x.drop_first()
    } else {
        x
    };
    d.len() > 0 && all_digits(d)
}

/// An unsigned decimal number: a mantissa, optionally followed by an
/// exponent mark and an exponent.
pub open spec fn decimal_number(t: Seq<char>) -> bool {
    ||| decimal_mantissa(t)
    ||| exists|k: int|
        0 <= k < t.len() && is_exp_mark(#[trigger] t[k]) && decimal_mantissa(t.subrange(0, k))
            && decimal_exponent(t.subrange(k + 1, t.len() as int))
}

/// `c` is the letter `lower` in either case.
pub open spec fn letter(c: char, lower: char, upper: char) -> bool {
    c == lower || c == upper
}

/// "inf", "infinity" or "nan", in any case.
pub open spec fn special_float(t: Seq<char>) -> bool {
    ||| t.len() == 3 && letter(t[0], 'i', 'I') && letter(t[1], 'n', 'N') && letter(t[2], 'f', 'F')
    ||| t.len() == 8 && letter(t[0], 'i', 'I') && letter(t[1], 'n', 'N') && letter(t[2], 'f', 'F')
        && letter(t[3], 'i', 'I') && letter(t[4], 'n', 'N') && letter(t[5], 'i', 'I') && letter(
        t[6],
        't',
        'T',
    ) && letter(t[7], 'y', 'Y')
    ||| t.len() == 3 && letter(t[0], 'n', 'N') && letter(t[1], 'a', 'A') && letter(t[2], 'n', 'N')
}

/// `s` without its leading sign, if it has one.
pub open spec fn without_sign(s: Seq<char>) -> Seq<char> {
    if s.len() > 0 && is_sign(s[0]) {
        s.drop_first()
    } else {
        s
    }
}

/// A text that reads as an `f64`, by the grammar that `f64`'s `FromStr`
/// documents: `Sign? ( 'inf' | 'infinity' | 'nan' | Number )`, with
/// `Number ::= ( Digit+ | Digit+ '.' Digit* | Digit* '.' Digit+ ) Exp?` and
/// `Exp ::= 'e' Sign? Digit+`, letters in any case, no surrounding space.
pub open spec fn float_text(s: Seq<char>) -> bool {
    special_float(without_sign(s)) || decimal_number(without_sign(s))
}

/// Whether `s@.subrange(lo, hi)` is a decimal mantissa.
fn mantissa_ok(s: &str, lo: usize, hi: usize) -> (r: bool)
    requires
        lo <= hi <= s@.len(),
    ensures
        r == decimal_mantissa(s@.subrange(lo as int, hi as int)),
{
    let ghost m = s@.subrange(lo as int, hi as int);
    let mut seen_dot = false;
    let mut seen_digit = false;
    let mut i = lo;
    while i < hi
        invariant
            lo <= i <= hi <= s@.len(),
            m == s@.subrange(lo as int, hi as int),
            forall|k: int| lo <= k < i ==> is_digit(#[trigger] s@[k]) || s@[k] == '.',
            forall|a: int, b: int|
                lo <= a < b < i && #[trigger] s@[a] == '.' ==> #[trigger] s@[b] != '.',
            seen_dot <==> exists|k: int| lo <= k < i && #[trigger] s@[k] == '.',
            seen_digit <==> exists|k: int| lo <= k < i && is_digit(#[trigger] s@[k]),
        decreases hi - i,
    {
        let c = s.get_char(i);
        if c == '.' {
            if seen_dot {
                proof {
                    let k = choose|k: int| lo <= k < i && #[trigger] s@[k] == '.';
                    assert(m[k - lo] == '.' && m[i - lo] == '.');
                }
                return false;
            }
            seen_dot = true;
        } else if '0' <= c && c <= '9' {
            seen_digit = true;
        } else {
            proof {
                assert(m[i - lo] == c);
            }
            return false;
        }
        i = i + 1;
    }
    proof {
        assert forall|k: int| 0 <= k < m.len() implies is_digit(#[trigger] m[k]) || m[k] == '.' by {
            assert(m[k] == s@[lo + k]);
        }
        assert forall|a: int, b: int| 0 <= a < b < m.len() && #[trigger] m[a] == '.' implies #[trigger] m[b]
            != '.' by {
            assert(m[a] == s@[lo + a] && m[b] == s@[lo + b]);
        }
        if seen_digit {
            let k = choose|k: int| lo <= k < i && is_digit(#[trigger] s@[k]);
            assert(m[k - lo] == s@[k]);
        } else {
            assert forall|k: int| 0 <= k < m.len() implies !is_digit(#[trigger] m[k]) by {
                assert(m[k] == s@[lo + k]);
            }
        }
    }
    seen_digit
}

/// Whether `s@.subrange(lo, hi)` is a decimal exponent.
fn exponent_ok(s: &str, lo: usize, hi: usize) -> (r: bool)
    requires
        lo <= hi <= s@.len(),
    ensures
        r == decimal_exponent(s@.subrange(lo as int, hi as int)),
{
    let ghost x = s@.subrange(lo as int, hi as int);
    let mut start = lo;
    if lo < hi {
        let c = s.get_char(lo);
        if c == '+' || c == '-' {
            start = lo + 1;
        }
    }
    let ghost d = s@.subrange(start as int, hi as int);
    proof {
        if lo < hi {
            assert(x[0] == s@[lo as int]);
        }
        if start == lo + 1 {
            assert(x.drop_first() =~= d);
        } else {
            assert(x =~= d);
        }
    }
    assert(decimal_exponent(x) == (d.len() > 0 && all_digits(d)));
    if start == hi {
        return false;
    }
    let mut i = start;
    while i < hi
        invariant
            start <= i <= hi <= s@.len(),
            d == s@.subrange(start as int, hi as int),
            x == s@.subrange(lo as int, hi as int),
            decimal_exponent(x) == (d.len() > 0 && all_digits(d)),
            forall|k: int| start <= k < i ==> is_digit(#[trigger] s@[k]),
        decreases hi - i,
    {
        let c = s.get_char(i);
        if !('0' <= c && c <= '9') {
            assert(d[i - start] == c);
            return false;
        }
        i = i + 1;
    }
    assert forall|k: int| 0 <= k < d.len() implies is_digit(#[trigger] d[k]) by {
        assert(d[k] == s@[start + k]);
    }
    true
}

/// Whether `s@.subrange(lo, hi)` is an unsigned decimal number.
fn number_ok(s: &str, lo: usize, hi: usize) -> (r: bool)
    requires
        lo <= hi <= s@.len(),
    ensures
        r == decimal_number(s@.subrange(lo as int, hi as int)),
{
    let ghost t = s@.subrange(lo as int, hi as int);
    let mut f = lo;
    while f < hi && !(s.get_char(f) == 'e' || s.get_char(f) == 'E')
        invariant
            lo <= f <= hi <= s@.len(),
            t == s@.subrange(lo as int, hi as int),
            forall|k: int| lo <= k < f ==> !is_exp_mark(#[trigger] s@[k]),
        decreases hi - f,
    {
        f = f + 1;
    }
    if f == hi {
        let r = mantissa_ok(s, lo, hi);
        proof {
            assert forall|k: int| 0 <= k < t.len() implies !is_exp_mark(#[trigger] t[k]) by {
                assert(t[k] == s@[lo + k]);
            }
        }
        r
    } else {
        proof {
            assert(t[f - lo] == s@[f as int]);
            assert(is_exp_mark(t[f - lo]));
            assert(!decimal_mantissa(t));
        }
        let a = mantissa_ok(s, lo, f);
        let b = exponent_ok(s, f + 1, hi);
        proof {
            let fk = f - lo;
            assert(t.subrange(0, fk) =~= s@.subrange(lo as int, f as int));
            assert(t.subrange(fk + 1, t.len() as int) =~= s@.subrange(f + 1, hi as int));
            if !(a && b) {
                assert forall|k: int| 0 <= k < t.len() && is_exp_mark(#[trigger] t[k]) implies !(
                decimal_mantissa(t.subrange(0, k)) && decimal_exponent(
                    t.subrange(k + 1, t.len() as int),
                )) by {
                    if k < fk {
                        assert(t[k] == s@[lo + k]);
                    } else if k > fk {
                        let p = t.subrange(0, k);
                        assert(p[fk] == t[fk]);
                        assert(!(is_digit(p[fk]) || p[fk] == '.'));
                    }
                }
            }
        }
        a && b
    }
}

fn letter_ok(s: &str, i: usize, lower: char, upper: char) -> (r: bool)
    requires
        i < s@.len(),
    ensures
        r == letter(s@[i as int], lower, upper),
{
    let c = s.get_char(i);
    c == lower || c == upper
}

/// Whether `s@.subrange(lo, hi)` is "inf", "infinity" or "nan", in any case.
fn special_ok(s: &str, lo: usize, hi: usize) -> (r: bool)
    requires
        lo <= hi <= s@.len(),
    ensures
        r == special_float(s@.subrange(lo as int, hi as int)),
{
    let ghost t = s@.subrange(lo as int, hi as int);
    let n = hi - lo;
    if n == 3 {
        let inf = letter_ok(s, lo, 'i', 'I') && letter_ok(s, lo + 1, 'n', 'N') && letter_ok(
            s,
            lo + 2,
            'f',
            'F',
        );
        let nan = letter_ok(s, lo, 'n', 'N') && letter_ok(s, lo + 1, 'a', 'A') && letter_ok(
            s,
            lo + 2,
            'n',
            'N',
        );
        assert(t[0] == s@[lo as int] && t[1] == s@[lo + 1] && t[2] == s@[lo + 2]);
        inf || nan
    } else if n == 8 {
        let r = letter_ok(s, lo, 'i', 'I') && letter_ok(s, lo + 1, 'n', 'N') && letter_ok(
            s,
            lo + 2,
            'f',
            'F',
        ) && letter_ok(s, lo + 3, 'i', 'I') && letter_ok(s, lo + 4, 'n', 'N') && letter_ok(
            s,
            lo + 5,
            'i',
            'I',
        ) && letter_ok(s, lo + 6, 't', 'T') && letter_ok(s, lo + 7, 'y', 'Y');
        assert(t[0] == s@[lo as int] && t[1] == s@[lo + 1] && t[2] == s@[lo + 2] && t[3] == s@[lo
            + 3] && t[4] == s@[lo + 4] && t[5] == s@[lo + 5] && t[6] == s@[lo + 6] && t[7]
            == s@[lo + 7]);
        r
    } else {
        false
    }
}

/// Whether `s` reads as an `f64` (see [`float_text`]).
pub fn is_float_text(s: &str) -> (r: bool)
    ensures
        r == float_text(s@),
{
    let n = s.unicode_len();
    let mut lo: usize = 0;
    if n > 0 {
        let c = s.get_char(0);
        if c == '+' || c == '-' {
            lo = 1;
        }
    }
    proof {
        if lo == 1 {
            assert(s@.drop_first() =~= s@.subrange(1, n as int));
        } else {
            assert(s@ =~= s@.subrange(0, n as int));
        }
    }
    special_ok(s, lo, n) || number_ok(s, lo, n)
}

} // verus!
