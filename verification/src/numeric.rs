//! Decimal reading and writing of 32-bit integers, specified over the
//! character sequences involved.

use vstd::arithmetic::div_mod::lemma_fundamental_div_mod;
use vstd::prelude::*;

verus! {

/// Whether `c` is a decimal digit.
pub open spec fn dec_digit(c: char) -> bool {
    '0' <= c && c <= '9'
}

/// The numeric value of a digit character.
pub open spec fn digit_val(c: char) -> int {
    c as int - '0' as int
}

/// The digit character of a value below ten.
pub open spec fn digit_char(d: int) -> char {
    if d == 0 {
        '0'
    } else if d == 1 {
        '1'
    } else if d == 2 {
        '2'
    } else if d == 3 {
        '3'
    } else if d == 4 {
        '4'
    } else if d == 5 {
        '5'
    } else if d == 6 {
        '6'
    } else if d == 7 {
        '7'
    } else if d == 8 {
        '8'
    } else {
        '9'
    }
}

/// Whether every character of `s` is a decimal digit.
pub open spec fn all_digits(s: Seq<char>) -> bool {
    forall|i: int| 0 <= i < s.len() ==> dec_digit(#[trigger] s[i])
}

/// The value of a digit string, most significant digit first.
pub open spec fn digits_value(s: Seq<char>) -> int
    decreases s.len(),
{
    if s.len() == 0 {
        0
    } else {
        digits_value(s.drop_last()) * 10 + digit_val(s.last())
    }
}

/// The canonical digit string of a nonnegative value: no leading zeros,
/// except that zero itself is the single digit `0`.
pub open spec fn digits_of(n: int) -> Seq<char>
    recommends
        n >= 0,
    decreases n,
{
    if n < 10 {
        seq![digit_char(n)]
    } else {
        digits_of(n / 10).push(digit_char(n % 10))
    }
}

/// The canonical decimal form of an integer: a `-` before the digits of
/// its magnitude when negative.
pub open spec fn int_chars(n: int) -> Seq<char> {
    if n < 0 {
        seq!['-'] + digits_of(-n)
    } else {
        digits_of(n)
    }
}

/// What parsing a decimal string as an `i32` yields: an optional sign,
/// then at least one digit, and a value within the type's range.
pub open spec fn parse_i32_spec(s: Seq<char>) -> Option<int> {
    let sign: int = if s.len() > 0 && s[0] == '-' {
        -1
    } else {
        1
    };
    let digits = if s.len() > 0 && (s[0] == '-' || s[0] == '+') {
        s.skip(1)
    } else {
        s
    };
    if digits.len() == 0 || !all_digits(digits) {
        None
    } else {
        let v = sign * digits_value(digits);
        if i32::MIN <= v <= i32::MAX {
            Some(v)
        } else {
            None
        }
    }
}

/// A digit string's value is never negative.
pub proof fn lemma_digits_value_nonneg(s: Seq<char>)
    requires
        all_digits(s),
    ensures
        digits_value(s) >= 0,
    decreases s.len(),
{
    if s.len() > 0 {
        assert(all_digits(s.drop_last()));
        lemma_digits_value_nonneg(s.drop_last());
        assert(digit_val(s.last()) >= 0);
    }
}

/// The canonical digit string of a nonnegative value is made of digits
/// and reads back to the value itself.
pub proof fn lemma_digits_of_value(n: int)
    requires
        n >= 0,
    ensures
        all_digits(digits_of(n)),
        digits_value(digits_of(n)) == n,
        digits_of(n).len() >= 1,
    decreases n,
{
    if n < 10 {
        assert(digits_of(n) == seq![digit_char(n)]);
        assert(dec_digit(digit_char(n)));
        let single = seq![digit_char(n)];
        assert(single.drop_last() =~= Seq::<char>::empty());
        assert(single.last() == digit_char(n));
        assert(digits_value(Seq::<char>::empty()) == 0);
        assert(digits_value(single) == digit_val(digit_char(n)));
        assert(digit_val(digit_char(n)) == n);
    } else {
        lemma_fundamental_div_mod(n, 10);
        lemma_digits_of_value(n / 10);
        let prefix = digits_of(n / 10);
        let whole = prefix.push(digit_char(n % 10));
        assert(whole.drop_last() =~= prefix);
        assert(whole.last() == digit_char(n % 10));
        assert(digit_val(digit_char(n % 10)) == n % 10);
        assert(digits_value(whole) == digits_value(prefix) * 10 + n % 10);
        assert(dec_digit(digit_char(n % 10)));
        assert forall|i: int| 0 <= i < whole.len() implies dec_digit(#[trigger] whole[i]) by {
            if i < prefix.len() {
                assert(whole[i] == prefix[i]);
            }
        }
    }
}

/// The decimal form of an integer holds nothing but digits and a possible
/// leading minus.
pub proof fn lemma_int_chars_shape(n: int)
    ensures
        int_chars(n).len() >= 1,
        forall|k: int|
            0 <= k < int_chars(n).len() ==> #[trigger] int_chars(n)[k] == '-' || dec_digit(
                int_chars(n)[k],
            ),
{
    if n < 0 {
        lemma_digits_of_value(-n);
        let s = int_chars(n);
        assert forall|k: int| 0 <= k < s.len() implies #[trigger] s[k] == '-' || dec_digit(
            s[k],
        ) by {
            if k > 0 {
                assert(s[k] == digits_of(-n)[k - 1]);
            }
        }
    } else {
        lemma_digits_of_value(n);
    }
}

/// Writing an integer and reading it back yields the integer: the decimal
/// form of every `i32` parses to exactly that value.
pub proof fn lemma_int_chars_round_trip(n: int)
    requires
        i32::MIN <= n <= i32::MAX,
    ensures
        parse_i32_spec(int_chars(n)) == Some(n),
{
    if n < 0 {
        lemma_digits_of_value(-n);
        let s = seq!['-'] + digits_of(-n);
        assert(s[0] == '-');
        assert(s.len() > 0);
        assert(s.skip(1) =~= digits_of(-n));
        assert(parse_i32_spec(s) == Some(-digits_value(digits_of(-n))));
    } else {
        lemma_digits_of_value(n);
        let s = digits_of(n);
        assert(dec_digit(s[0]));
        assert(s[0] != '-' && s[0] != '+');
        assert(parse_i32_spec(s) == Some(digits_value(s)));
    }
}

fn digit_str(d: u32) -> (r: &'static str)
    requires
        d < 10,
    ensures
        r@ == seq![digit_char(d as int)],
{
    proof {
        reveal_strlit("0");
        reveal_strlit("1");
        reveal_strlit("2");
        reveal_strlit("3");
        reveal_strlit("4");
        reveal_strlit("5");
        reveal_strlit("6");
        reveal_strlit("7");
        reveal_strlit("8");
        reveal_strlit("9");
    }
    match d {
        0 => "0",
        1 => "1",
        2 => "2",
        3 => "3",
        4 => "4",
        5 => "5",
        6 => "6",
        7 => "7",
        8 => "8",
        _ => "9",
    }
}

/// Writes an integer in its canonical decimal form.
pub fn i32_to_string(n: i32) -> (r: String)
    ensures
        r@ == int_chars(n as int),
{
    let negative = n < 0;
    let mut magnitude: u32 = if n >= 0 {
        n as u32
    } else {
        (-(n as i64)) as u32
    };
    let ghost m0 = magnitude as int;

    let mut rev: Vec<u32> = Vec::new();
    let ghost mut suffix = Seq::<char>::empty();
    while magnitude >= 10
        invariant
            0 <= magnitude,
            digits_of(m0) =~= digits_of(magnitude as int) + suffix,
            suffix.len() == rev@.len(),
            forall|k: int|
                0 <= k < rev@.len() ==> rev@[k] < 10 && suffix[suffix.len() - 1 - k] == digit_char(
                    #[trigger] rev@[k] as int,
                ),
        decreases magnitude,
    {
        let d = magnitude % 10;
        proof {
            lemma_fundamental_div_mod(magnitude as int, 10);
            assert(digits_of(magnitude as int) == digits_of(magnitude as int / 10).push(
                digit_char(magnitude as int % 10),
            ));
            assert(digits_of(magnitude as int / 10).push(digit_char(d as int)) + suffix
                =~= digits_of(magnitude as int / 10) + (seq![digit_char(d as int)] + suffix));
        }
        rev.push(d);
        proof {
            suffix = seq![digit_char(d as int)] + suffix;
        }
        magnitude = magnitude / 10;
    }

    let mut out = String::new();
    if negative {
        out.append("-");
        proof {
            reveal_strlit("-");
        }
    }
    out.append(digit_str(magnitude));
    let ghost written = seq![digit_char(magnitude as int)];
    proof {
        assert(digits_of(magnitude as int) == seq![digit_char(magnitude as int)]);
        assert(out@ =~= (if negative {
            seq!['-']
        } else {
            Seq::<char>::empty()
        }) + written);
    }
    let total = rev.len();
    let mut j: usize = 0;
    while j < total
        invariant
            total == rev@.len(),
            j <= total,
            suffix.len() == total,
            forall|k: int|
                0 <= k < rev@.len() ==> rev@[k] < 10 && suffix[suffix.len() - 1 - k] == digit_char(
                    #[trigger] rev@[k] as int,
                ),
            out@ =~= (if negative {
                seq!['-']
            } else {
                Seq::<char>::empty()
            }) + written + suffix.take(j as int),
        decreases total - j,
    {
        let d = rev[total - 1 - j];
        out.append(digit_str(d));
        proof {
            assert(suffix[j as int] == digit_char(rev@[total - 1 - j] as int));
            assert(suffix.take(j + 1) =~= suffix.take(j as int).push(suffix[j as int]));
        }
        j = j + 1;
    }
    proof {
        assert(suffix.take(total as int) =~= suffix);
        assert(digits_of(m0) =~= written + suffix);
        if negative {
            assert(int_chars(n as int) == seq!['-'] + digits_of(-(n as int)));
            assert(m0 == -(n as int));
            assert(out@ =~= int_chars(n as int));
        } else {
            assert(m0 == n as int);
            assert(out@ =~= int_chars(n as int));
        }
    }
    out
}

/// Reads a decimal string as an `i32`, per [`parse_i32_spec`].
#[verifier::loop_isolation(false)]
pub fn parse_i32(s: &str) -> (r: Option<i32>)
    ensures
        match r {
            Some(v) => parse_i32_spec(s@) == Some(v as int),
            None => parse_i32_spec(s@) is None,
        },
{
    let n = s.unicode_len();
    let mut start: usize = 0;
    let mut negative = false;
    if n > 0 {
        let c0 = s.get_char(0);
        if c0 == '-' {
            negative = true;
            start = 1;
        } else if c0 == '+' {
            start = 1;
        }
    }
    let ghost digits = if start == 1 {
        s@.skip(1)
    } else {
        s@
    };
    proof {
        if start == 0 {
            assert(s@.skip(0) =~= s@);
        }
    }
    if start >= n {
        return None;
    }
    let mut acc: i64 = 0;
    let mut too_big = false;
    let mut j: usize = start;
    while j < n
        invariant
            start <= j <= n,
            all_digits(digits.take(j - start)),
            !too_big ==> 0 <= acc <= 2147483648i64 && acc as int == digits_value(
                digits.take(j - start),
            ),
            too_big ==> digits_value(digits.take(j - start)) > 2147483648,
        decreases n - j,
    {
        let c = s.get_char(j);
        let code = c as u32;
        if code < 48 || code > 57 {
            proof {
                let spec_digits = if s@.len() > 0 && (s@[0] == '-' || s@[0] == '+') {
                    s@.skip(1)
                } else {
                    s@
                };
                assert(spec_digits =~= digits);
                assert(digits[j - start] == c);
                assert(!dec_digit(c));
                assert(!all_digits(digits));
            }
            return None;
        }
        let d = code - 48;
        let ghost prev = digits.take(j - start);
        proof {
            assert(digits[j - start] == c);
            assert(dec_digit(c));
            assert(digits.take(j + 1 - start).drop_last() =~= prev);
            assert(digits.take(j + 1 - start).last() == c);
            assert(digits_value(digits.take(j + 1 - start)) == digits_value(prev) * 10 + digit_val(
                c,
            ));
            assert(digit_val(c) == d as int);
        }
        if too_big {
            proof {
                lemma_digits_value_nonneg(prev);
            }
        } else {
            acc = acc * 10 + d as i64;
            if acc > 2147483648i64 {
                too_big = true;
            }
        }
        j = j + 1;
    }
    proof {
        assert(digits.take(n - start) =~= digits);
        let spec_digits = if s@.len() > 0 && (s@[0] == '-' || s@[0] == '+') {
            s@.skip(1)
        } else {
            s@
        };
        assert(spec_digits =~= digits);
        if negative {
            assert(s@[0] == '-');
        } else if s@.len() > 0 {
            assert(s@[0] != '-');
        }
        assert(digits.len() > 0);
    }
    if too_big {
        proof {
            assert(all_digits(digits));
            let value = digits_value(digits);
            assert(value > 2147483648);
            let spec_sign: int = if s@.len() > 0 && s@[0] == '-' {
                -1
            } else {
                1
            };
            if s@.len() > 0 && s@[0] == '-' {
                assert(spec_sign * value == -value) by (nonlinear_arith)
                    requires
                        spec_sign == -1,
                ;
            } else {
                assert(spec_sign * value == value) by (nonlinear_arith)
                    requires
                        spec_sign == 1,
                ;
            }
            assert(!(i32::MIN <= spec_sign * value <= i32::MAX));
            assert(parse_i32_spec(s@) is None);
        }
        return None;
    }
    if negative {
        proof {
            assert(all_digits(digits));
            assert(digits_value(digits) == acc as int);
            assert(s@.len() > 0 && s@[0] == '-');
            let spec_sign: int = if s@.len() > 0 && s@[0] == '-' {
                -1
            } else {
                1
            };
            assert(spec_sign == -1);
            let sd = if s@.len() > 0 && (s@[0] == '-' || s@[0] == '+') {
                s@.skip(1)
            } else {
                s@
            };
            assert(sd == digits);
            assert(sd.len() != 0 && all_digits(sd));
            assert(spec_sign * digits_value(sd) == -(acc as int)) by (nonlinear_arith)
                requires
                    spec_sign == -1,
                    digits_value(sd) == acc as int,
            ;
            assert(i32::MIN <= -(acc as int) <= i32::MAX);
            assert(parse_i32_spec(s@) == Some(-(acc as int)));
        }
        Some((-acc) as i32)
    } else {
        if acc > 2147483647i64 {
            proof {
                assert(digits_value(digits) == acc as int);
                assert(all_digits(digits));
                assert(parse_i32_spec(s@) is None);
            }
            return None;
        }
        proof {
            assert(all_digits(digits));
            assert(digits_value(digits) == acc as int);
            assert(parse_i32_spec(s@) == Some(acc as int));
        }
        Some(acc as i32)
    }
}

} // verus!
