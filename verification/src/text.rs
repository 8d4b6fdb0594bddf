//! Text handling shared by the whole library: string equality, blank
//! detection (as `str::trim().is_empty()` sees it), the `LIKE` search
//! pattern, and decimal reading and writing of integers.
use vstd::prelude::*;
use vstd::string::*;

verus! {

// ---------------------------------------------------------------------------
// Equality and blanks
// ---------------------------------------------------------------------------

/// Compares two strings character by character.
pub fn str_equal(a: &str, b: &str) -> (r: bool)
    ensures
        r == (a@ == b@),
{
    let x = a.to_owned();
    let y = b.to_owned();
    x == y
}

/// The Unicode `White_Space` property, which is what `char::is_whitespace`
/// (and therefore `str::trim`) tests.
pub open spec fn is_white_space(c: char) -> bool {
    let v = c as u32;
    ||| 0x09 <= v <= 0x0d
    ||| v == 0x20
    ||| v == 0x85
    ||| v == 0xa0
    ||| v == 0x1680
    ||| 0x2000 <= v <= 0x200a
    ||| v == 0x2028
    ||| v == 0x2029
    ||| v == 0x202f
    ||| v == 0x205f
    ||| v == 0x3000
}

/// A string is blank when trimming it leaves nothing, i.e. when every
/// character is white space.
pub open spec fn is_blank(s: Seq<char>) -> bool {
    forall|i: int| 0 <= i < s.len() ==> #[trigger] is_white_space(s[i])
}

/// Whether `c` is white space in the sense of `char::is_whitespace`.
pub fn white_space_char(c: char) -> (r: bool)
    ensures
        r == is_white_space(c),
{
    let v = c as u32;
    (0x09 <= v && v <= 0x0d) || v == 0x20 || v == 0x85 || v == 0xa0 || v == 0x1680 || (0x2000
        <= v && v <= 0x200a) || v == 0x2028 || v == 0x2029 || v == 0x202f || v == 0x205f || v
        == 0x3000
}

/// Whether `s.trim().is_empty()` holds.
pub fn is_blank_str(s: &str) -> (r: bool)
    ensures
        r == is_blank(s@),
{
    for c in it: s.chars()
        invariant
            it.seq() == s@,
            forall|j: int| 0 <= j < it.index() ==> #[trigger] is_white_space(s@[j]),
    {
        if !white_space_char(c) {
            return false;
        }
    }
    true
}

/// The `LIKE` pattern that matches every text containing `s`.
pub open spec fn like_pattern(s: Seq<char>) -> Seq<char> {
    seq!['%'] + s + seq!['%']
}

/// Builds the `LIKE` pattern `%s%`.
pub fn contains_pattern(s: &str) -> (r: String)
    ensures
        r@ == like_pattern(s@),
{
    let mut p = "%".to_owned();
    p.append(s);
    p.append("%");
    proof {
        reveal_strlit("%");
    }
    p
}

/// The first character of a string, if any.
pub fn first_char(s: &str) -> (r: Option<char>)
    ensures
        r == (if s@.len() > 0 {
            Some(s@[0])
        } else {
            None::<char>
        }),
{
    for c in it: s.chars()
        invariant
            it.seq() == s@,
            it.index() == 0,
    {
        return Some(c);
    }
    None
}

// ---------------------------------------------------------------------------
// Decimal digits
// ---------------------------------------------------------------------------

pub open spec fn is_digit(c: char) -> bool {
    48 <= (c as u32) <= 57
}

pub open spec fn digit_value(c: char) -> nat {
    ((c as u32) - 48) as nat
}

pub open spec fn all_digits(d: Seq<char>) -> bool {
    forall|i: int| 0 <= i < d.len() ==> #[trigger] is_digit(d[i])
}

/// The number that a sequence of decimal digits denotes (leading zeros allowed).
pub open spec fn digits_value(d: Seq<char>) -> nat
    decreases d.len(),
{
    if d.len() == 0 {
        0
    } else {
        digits_value(d.drop_last()) * 10 + digit_value(d.last())
    }
}

/// The character of a decimal digit.
pub open spec fn digit_char(d: nat) -> char {
    if d == 0 {
        '0'
    } else if d == 1 {
        '1'
    } else if d == 2 {
        '2'
    } else if d == 3 {
        '3'
    } else if d == 4 {
        '4'
    } else if d == 5 {
        '5'
    } else if d == 6 {
        '6'
    } else if d == 7 {
        '7'
    } else if d == 8 {
        '8'
    } else {
        '9'
    }
}

/// The shortest decimal representation of a natural number.
pub open spec fn nat_digits(n: nat) -> Seq<char>
    decreases n,
{
    if n < 10 {
        seq![digit_char(n)]
    } else {
        nat_digits(n / 10).push(digit_char(n % 10))
    }
}

/// How `Display` writes an integer: a minus sign for negative numbers,
/// then the digits of the magnitude.
pub open spec fn decimal(n: int) -> Seq<char> {
    if n < 0 {
        seq!['-'] + nat_digits((-n) as nat)
    } else {
        nat_digits(n as nat)
    }
}

/// The digits that remain after an optional leading `+`.
pub open spec fn unsigned_body(s: Seq<char>) -> Seq<char> {
    if s.len() > 0 && s[0] == '+' {
        s.drop_first()
    } else {
        s
    }
}

/// A non-empty run of decimal digits whose value is at most `limit`.
pub open spec fn digits_within(d: Seq<char>, limit: nat) -> bool {
    d.len() > 0 && all_digits(d) && digits_value(d) <= limit
}

/// What `str::parse::<u32>` accepts: an optional `+`, then one or more
/// ASCII digits whose value fits in a `u32`.
pub open spec fn parse_u32_spec(s: Seq<char>) -> Option<u32> {
    let d = unsigned_body(s);
    if digits_within(d, u32::MAX as nat) {
        Some(digits_value(d) as u32)
    } else {
        None
    }
}

/// What `str::parse::<i64>` accepts: an optional `+` or `-`, then one or
/// more ASCII digits whose signed value fits in an `i64`.
pub open spec fn parse_i64_spec(s: Seq<char>) -> Option<i64> {
    if s.len() > 0 && s[0] == '-' {
        let d = s.drop_first();
        if digits_within(d, 9223372036854775808nat) {
            Some((-(digits_value(d) as int)) as i64)
        } else {
            None
        }
    } else {
        let d = unsigned_body(s);
        if digits_within(d, i64::MAX as nat) {
            Some(digits_value(d) as i64)
        } else {
            None
        }
    }
}

proof fn lemma_digits_value_push(d: Seq<char>, c: char)
    ensures
        digits_value(d.push(c)) == digits_value(d) * 10 + digit_value(c),
{
    assert(d.push(c).drop_last() =~= d);
}

/// A prefix of a digit run never denotes more than the whole run.
proof fn lemma_digits_value_prefix(d: Seq<char>, k: int)
    requires
        0 <= k <= d.len(),
    ensures
        digits_value(d.take(k)) <= digits_value(d),
    decreases d.len(),
{
    if k < d.len() {
        lemma_digits_value_prefix(d.drop_last(), k);
        assert(d.drop_last().take(k) =~= d.take(k));
    } else {
        assert(d.take(k) =~= d);
    }
}

/// Reads the digits of `s` after skipping `skip` leading characters
/// (`skip` is 0 or 1), accepting them only if there is at least one, all
/// are ASCII digits, and their value is at most `limit`.
fn parse_digits(s: &str, skip: bool, limit: u64) -> (r: Option<u64>)
    requires
        skip ==> s@.len() > 0,
        10 <= limit <= 9223372036854775808u64,
    ensures
        ({
            let d = if skip {
                s@.drop_first()
            } else {
                s@
            };
            r == (if digits_within(d, limit as nat) {
                Some(digits_value(d) as u64)
            } else {
                None::<u64>
            })
        }),
{
    let ghost start: int = if skip {
        1
    } else {
        0
    };
    let ghost d = s@.subrange(start, s@.len() as int);
    assert(d =~= (if skip {
        s@.drop_first()
    } else {
        s@
    }));
    let mut acc: u64 = 0;
    let mut at_start = true;
    let mut any = false;
    for c in it: s.chars()
        invariant
            it.seq() == s@,
            start == (if skip {
                1int
            } else {
                0int
            }),
            skip ==> s@.len() > 0,
            d == s@.subrange(start, s@.len() as int),
            d == (if skip {
                s@.drop_first()
            } else {
                s@
            }),
            10 <= limit <= 9223372036854775808u64,
            at_start == (it.index() == 0),
            it.index() <= s@.len(),
            it.index() >= start ==> ({
                let p = s@.subrange(start, it.index() as int);
                &&& all_digits(p)
                &&& acc == digits_value(p)
                &&& acc <= limit
                &&& any == (p.len() > 0)
            }),
            it.index() < start ==> !any && acc == 0,
    {
        let ghost i = it.index() as int;
        assert(c == s@[i]);
        if at_start && skip {
            assert(s@.subrange(start, start) =~= Seq::<char>::empty());
        } else {
            let v = c as u32;
            if v < 48 || v > 57 {
                proof {
                    assert(!is_digit(c));
                    assert(d[i - start] == c);
                    assert(!all_digits(d));
                }
                return None;
            }
            let dv = (v - 48) as u64;
            let ghost p = s@.subrange(start, i);
            proof {
                lemma_digits_value_push(p, c);
                assert(s@.subrange(start, i + 1) =~= p.push(c));
            }
            if acc > limit / 10 || acc * 10 > limit - dv {
                proof {
                    assert(acc * 10 + dv > limit) by (nonlinear_arith)
                        requires
                            acc > limit / 10 || acc * 10 > limit - dv,
                            dv <= 9,
                            limit >= 10,
                    ;
                    assert(d.take(i + 1 - start) =~= s@.subrange(start, i + 1));
                    lemma_digits_value_prefix(d, i + 1 - start);
                }
                return None;
            }
            acc = acc * 10 + dv;
            any = true;
        }
        at_start = false;
    }
    assert(s@.subrange(start, s@.len() as int) =~= d);
    if any {
        Some(acc)
    } else {
        None
    }
}

/// Reads a `u32` the way `str::parse::<u32>` does.
pub fn parse_u32(s: &str) -> (r: Option<u32>)
    ensures
        r == parse_u32_spec(s@),
{
    let plus = match first_char(s) {
        Some(c) => c == '+',
        None => false,
    };
    match parse_digits(s, plus, 0xffff_ffffu64) {
        Some(v) => Some(v as u32),
        None => None,
    }
}

/// Reads an `i64` the way `str::parse::<i64>` does.
pub fn parse_i64(s: &str) -> (r: Option<i64>)
    ensures
        r == parse_i64_spec(s@),
{
    match first_char(s) {
        Some(c) => {
            if c == '-' {
                match parse_digits(s, true, 9223372036854775808u64) {
                    Some(v) => {
                        if v == 9223372036854775808u64 {
                            Some(i64::MIN)
                        } else {
                            let m = v as i64;
                            Some(-m)
                        }
                    },
                    None => None,
                }
            } else {
                match parse_digits(s, c == '+', 9223372036854775807u64) {
                    Some(v) => Some(v as i64),
                    None => None,
                }
            }
        },
        None => None,
    }
}

/// The one-character string of a decimal digit.
fn digit_str(d: u64) -> (r: &'static str)
    requires
        d < 10,
    ensures
        r@ == seq![digit_char(d as nat)],
{
    proof {
        reveal_strlit("0");
        reveal_strlit("1");
        reveal_strlit("2");
        reveal_strlit("3");
        reveal_strlit("4");
        reveal_strlit("5");
        reveal_strlit("6");
        reveal_strlit("7");
        reveal_strlit("8");
        reveal_strlit("9");
    }
    if d == 0 {
        "0"
    } else if d == 1 {
        "1"
    } else if d == 2 {
        "2"
    } else if d == 3 {
        "3"
    } else if d == 4 {
        "4"
    } else if d == 5 {
        "5"
    } else if d == 6 {
        "6"
    } else if d == 7 {
        "7"
    } else if d == 8 {
        "8"
    } else {
        "9"
    }
}

/// Writes a natural number in decimal, without leading zeros.
pub fn u64_to_decimal(n: u64) -> (r: String)
    ensures
        r@ == nat_digits(n as nat),
    decreases n,
{
    if n < 10 {
        digit_str(n).to_owned()
    } else {
        let mut s = u64_to_decimal(n / 10);
        s.append(digit_str(n % 10));
        s
    }
}

/// Writes an integer the way `format!("{}", n)` does.
pub fn i64_to_decimal(n: i64) -> (r: String)
    ensures
        r@ == decimal(n as int),
{
    if n < 0 {
        let m: u64 = ((-(n + 1)) as u64) + 1;
        let mut s = "-".to_owned();
        let digits = u64_to_decimal(m);
        s.append(digits.as_str());
        proof {
            reveal_strlit("-");
        }
        s
    } else {
        u64_to_decimal(n as u64)
    }
}

// ---------------------------------------------------------------------------
// Laws
// ---------------------------------------------------------------------------

proof fn lemma_nat_digits(n: nat)
    ensures
        nat_digits(n).len() > 0,
        all_digits(nat_digits(n)),
        digits_value(nat_digits(n)) == n,
        nat_digits(n)[0] != '+',
        nat_digits(n)[0] != '-',
    decreases n,
{
    if n >= 10 {
        let p = nat_digits(n / 10);
        let c = digit_char(n % 10);
        lemma_nat_digits(n / 10);
        lemma_digits_value_push(p, c);
        assert(digit_value(c) == n % 10);
        assert((n / 10) * 10 + n % 10 == n);
        assert(nat_digits(n) == p.push(c));
        assert(digits_value(nat_digits(n)) == n);
        assert(all_digits(nat_digits(n))) by {
            assert forall|i: int| 0 <= i < nat_digits(n).len() implies #[trigger] is_digit(
                nat_digits(n)[i],
            ) by {
                if i < p.len() {
                    assert(nat_digits(n)[i] == p[i]);
                }
            }
        }
    } else {
        let d = nat_digits(n);
        assert(d == seq![digit_char(n)]);
        assert(d.drop_last() =~= Seq::<char>::empty());
        assert(digits_value(d.drop_last()) == 0);
        assert(d.last() == digit_char(n));
        assert(digit_value(digit_char(n)) == n);
        assert(digits_value(d) == n);
    }
}

/// Reading back what `u64_to_decimal` wrote gives the same number, for
/// every value that fits in a `u32`.
pub proof fn law_u32_decimal_round_trip(n: u32)
    ensures
        parse_u32_spec(nat_digits(n as nat)) == Some(n),
{
    lemma_nat_digits(n as nat);
    assert(unsigned_body(nat_digits(n as nat)) == nat_digits(n as nat));
}

/// Reading back what `i64_to_decimal` wrote gives the same number.
pub proof fn law_i64_decimal_round_trip(n: i64)
    ensures
        parse_i64_spec(decimal(n as int)) == Some(n),
{
    if n < 0 {
        let m = (-(n as int)) as nat;
        lemma_nat_digits(m);
        let s = decimal(n as int);
        assert(s[0] == '-');
        assert(s.drop_first() =~= nat_digits(m));
    } else {
        lemma_nat_digits(n as nat);
        assert(unsigned_body(nat_digits(n as nat)) == nat_digits(n as nat));
    }
}

} // verus!
