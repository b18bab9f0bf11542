//! Decimal digit strings: what an unsigned integer looks like as text, and
//! what `str::parse::<u64>` makes of a cookie's text.

use vstd::prelude::*;
use vstd::string::StrSliceExecFns;

verus! {

/// `c` is one of the ten ASCII decimal digits.
pub open spec fn is_digit_char(c: char) -> bool {
    '0' as int <= c as int <= '9' as int
}

/// The value of one digit character.
pub open spec fn digit_value(c: char) -> int {
    c as int - '0' as int
}

/// Every character of `s` is a decimal digit.
pub open spec fn all_digit_chars(s: Seq<char>) -> bool {
    forall|i: int| 0 <= i < s.len() ==> is_digit_char(#[trigger] s[i])
}

/// The integer a digit string denotes, most significant digit first.
pub open spec fn decimal_value(s: Seq<char>) -> int
    decreases s.len(),
{
    if s.len() == 0 {
        0
    } else {
        decimal_value(s.drop_last()) * 10 + digit_value(s.last())
    }
}

/// The digits of `s` once an optional leading plus sign is stripped, as
/// `u64::from_str` reads them.
pub open spec fn unsigned_part(s: Seq<char>) -> Seq<char> {
    if s.len() > 0 && s[0] == '+' {
        s.subrange(1, s.len() as int)
    } else {
        s
    }
}

/// What `str::parse::<u64>` returns on `s`: the denoted value when `s` is an
/// optional plus sign followed by one or more decimal digits whose value fits
/// in a `u64`, and nothing otherwise.
pub open spec fn parsed_u64(s: Seq<char>) -> Option<u64> {
    let d = unsigned_part(s);
    if d.len() > 0 && all_digit_chars(d) && decimal_value(d) <= u64::MAX as int {
        Some(decimal_value(d) as u64)
    } else {
        None
    }
}

/// A digit string never denotes a negative integer.
pub proof fn lemma_decimal_value_nonneg(s: Seq<char>)
    requires
        all_digit_chars(s),
    ensures
        decimal_value(s) >= 0,
    decreases s.len(),
{
    if s.len() > 0 {
        assert(all_digit_chars(s.drop_last())) by {
            assert(forall|i: int|
                0 <= i < s.drop_last().len() ==> s.drop_last()[i] == #[trigger] s[i]);
        }
        lemma_decimal_value_nonneg(s.drop_last());
    }
}

/// A prefix of a digit string denotes no more than the whole string.
pub proof fn lemma_decimal_value_prefix(s: Seq<char>, k: int)
    requires
        all_digit_chars(s),
        0 <= k <= s.len(),
    ensures
        decimal_value(s.subrange(0, k)) <= decimal_value(s),
    decreases s.len() - k,
{
    if k < s.len() {
        let p = s.subrange(0, k);
        let q = s.subrange(0, k + 1);
        assert(all_digit_chars(q)) by {
            assert(forall|i: int| 0 <= i < q.len() ==> q[i] == #[trigger] s[i]);
        }
        assert(q.drop_last() =~= p);
        assert(all_digit_chars(p)) by {
            assert(forall|i: int| 0 <= i < p.len() ==> p[i] == #[trigger] s[i]);
        }
        lemma_decimal_value_nonneg(p);
        assert(decimal_value(q) == decimal_value(p) * 10 + digit_value(q.last()));
        assert(decimal_value(p) <= decimal_value(p) * 10) by (nonlinear_arith)
            requires
                decimal_value(p) >= 0,
        ;
        lemma_decimal_value_prefix(s, k + 1);
    } else {
        assert(s.subrange(0, k) =~= s);
    }
}

/// Parse a string as `str::parse::<u64>` does: an optional leading plus sign,
/// then one or more decimal digits, rejected when the value overflows a `u64`.
pub fn parse_u64(s: &str) -> (r: Option<u64>)
    ensures
        r == parsed_u64(s@),
{
    let len = s.unicode_len();
    let start: usize = if len > 0 && s.get_char(0) == '+' {
        1
    } else {
        0
    };
    let ghost d = unsigned_part(s@);
    proof {
        assert(d =~= s@.subrange(start as int, len as int));
    }
    if start == len {
        return None;
    }
    let mut acc: u64 = 0;
    let mut i: usize = start;
    while i < len
        invariant
            start <= i <= len,
            len == s@.len(),
            d == unsigned_part(s@),
            d == s@.subrange(start as int, len as int),
            d.len() == len - start,
            all_digit_chars(d.subrange(0, i - start)),
            acc == decimal_value(d.subrange(0, i - start)),
        decreases len - i,
    {
        let c = s.get_char(i);
        let cv = c as u32;
        let ghost j = i - start;
        assert(d[j] == c);
        if cv < 48 || cv > 57 {
            proof {
                assert(!is_digit_char(d[j]));
            }
            return None;
        }
        let dv = (cv - 48) as u64;
        let ghost dnext = d.subrange(0, j + 1);
        proof {
            assert(dnext.drop_last() =~= d.subrange(0, j));
            assert(all_digit_chars(dnext)) by {
                assert(forall|x: int| 0 <= x < dnext.len() ==> dnext[x] == #[trigger] d[x]);
            }
            assert(decimal_value(dnext) == acc * 10 + dv);
        }
        if acc > (u64::MAX - dv) / 10 {
            proof {
                assert(acc * 10 + dv > u64::MAX) by (nonlinear_arith)
                    requires
                        acc > (u64::MAX - dv) / 10,
                        dv <= 9,
                ;
                if all_digit_chars(d) {
                    lemma_decimal_value_prefix(d, j + 1);
                }
            }
            return None;
        }
        assert(acc * 10 + dv <= u64::MAX) by (nonlinear_arith)
            requires
                acc <= (u64::MAX - dv) / 10,
                dv <= 9,
        ;
        acc = acc * 10 + dv;
        i = i + 1;
    }
    proof {
        assert(d.subrange(0, (i - start) as int) =~= d);
    }
    Some(acc)
}

/// The character standing for one digit value.
pub open spec fn digit_char(d: nat) -> char {
    if d == 0 {
        '0'
    } else if d == 1 {
        '1'
    } else if d == 2 {
        '2'
    } else if d == 3 {
        '3'
    } else if d == 4 {
        '4'
    } else if d == 5 {
        '5'
    } else if d == 6 {
        '6'
    } else if d == 7 {
        '7'
    } else if d == 8 {
        '8'
    } else {
        '9'
    }
}

/// The decimal rendering of `n`: no sign, no leading zero except for `n == 0`
/// itself, exactly as `u64::to_string` writes it.
pub open spec fn decimal_digits_of(n: nat) -> Seq<char>
    decreases n,
{
    if n < 10 {
        seq![digit_char(n)]
    } else {
        decimal_digits_of(n / 10).push(digit_char(n % 10))
    }
}

/// A rendering is all digits and denotes the integer it was made from.
pub proof fn lemma_decimal_digits_of(n: nat)
    ensures
        decimal_digits_of(n).len() > 0,
        all_digit_chars(decimal_digits_of(n)),
        decimal_value(decimal_digits_of(n)) == n,
    decreases n,
{
    let s = decimal_digits_of(n);
    if n < 10 {
        assert(s.drop_last() =~= Seq::<char>::empty());
        assert(digit_value(digit_char(n)) == n);
        assert(decimal_value(s) == decimal_value(s.drop_last()) * 10 + digit_value(s.last()));
    } else {
        lemma_decimal_digits_of(n / 10);
        let p = decimal_digits_of(n / 10);
        assert(s.drop_last() =~= p);
        assert(all_digit_chars(s)) by {
            assert(forall|i: int|
                0 <= i < p.len() ==> #[trigger] s[i] == p[i]);
        }
        assert(decimal_value(s) == (n / 10) * 10 + (n % 10));
        assert((n / 10) * 10 + (n % 10) == n) by (nonlinear_arith);
    }
}

/// Parsing the rendering of a value gives the value back.
pub proof fn lemma_parse_round_trip(v: u64)
    ensures
        parsed_u64(decimal_digits_of(v as nat)) == Some(v),
{
    let s = decimal_digits_of(v as nat);
    lemma_decimal_digits_of(v as nat);
    assert(is_digit_char(s[0]));
    assert(s[0] != '+');
    assert(unsigned_part(s) == s);
}

/// One digit as a string slice.
fn digit_str(d: u64) -> (s: &'static str)
    requires
        d < 10,
    ensures
        s@ =~= seq![digit_char(d as nat)],
{
    if d == 0 {
        proof {
            reveal_strlit("0");
        }
        "0"
    } else if d == 1 {
        proof {
            reveal_strlit("1");
        }
        "1"
    } else if d == 2 {
        proof {
            reveal_strlit("2");
        }
        "2"
    } else if d == 3 {
        proof {
            reveal_strlit("3");
        }
        "3"
    } else if d == 4 {
        proof {
            reveal_strlit("4");
        }
        "4"
    } else if d == 5 {
        proof {
            reveal_strlit("5");
        }
        "5"
    } else if d == 6 {
        proof {
            reveal_strlit("6");
        }
        "6"
    } else if d == 7 {
        proof {
            reveal_strlit("7");
        }
        "7"
    } else if d == 8 {
        proof {
            reveal_strlit("8");
        }
        "8"
    } else {
        proof {
            reveal_strlit("9");
        }
        "9"
    }
}

/// Render `n` in decimal, as `u64::to_string` does.
pub fn u64_to_decimal(n: u64) -> (s: String)
    ensures
        s@ == decimal_digits_of(n as nat),
    decreases n,
{
    if n < 10 {
        String::from_str(digit_str(n))
    } else {
        let mut s = u64_to_decimal(n / 10);
        s.append(digit_str(n % 10));
        proof {
            assert(s@ =~= decimal_digits_of((n / 10) as nat).push(digit_char((n % 10) as nat)));
        }
        s
    }
}

} // verus!


