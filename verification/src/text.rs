//! Decimal formatting and parsing of the small textual fragments the
//! pipeline exchanges with the external tool: identifiers in storage keys,
//! progress percentages, durations in seconds, and record sizes.

use vstd::prelude::*;

verus! {

/// The character for one decimal digit.
pub open spec fn digit_char(d: nat) -> char {
    if d == 0 {
        '0'
    } else if d == 1 {
        '1'
    } else if d == 2 {
        '2'
    } else if d == 3 {
        '3'
    } else if d == 4 {
        '4'
    } else if d == 5 {
        '5'
    } else if d == 6 {
        '6'
    } else if d == 7 {
        '7'
    } else if d == 8 {
        '8'
    } else {
        '9'
    }
}

/// The decimal notation of a natural number, without leading zeroes
/// (a single `'0'` for zero).
pub open spec fn dec_digits(n: nat) -> Seq<char>
    decreases n,
{
    if n < 10 {
        seq![digit_char(n)]
    } else {
        dec_digits(n / 10) + seq![digit_char(n % 10)]
    }
}

/// The decimal notation of an integer: a `'-'` sign for negative numbers,
/// then the digits.
pub open spec fn int_digits(i: int) -> Seq<char> {
    if i < 0 {
        seq!['-'] + dec_digits((-i) as nat)
    } else {
        dec_digits(i as nat)
    }
}

/// A one-character string for a decimal digit.
pub fn digit_char_str(d: u8) -> (r: &'static str)
    requires
        d < 10,
    ensures
        r@ == seq![digit_char(d as nat)],
{
    proof {
        reveal_strlit("0");
        reveal_strlit("1");
        reveal_strlit("2");
        reveal_strlit("3");
        reveal_strlit("4");
        reveal_strlit("5");
        reveal_strlit("6");
        reveal_strlit("7");
        reveal_strlit("8");
        reveal_strlit("9");
    }
    match d {
        0 => "0",
        1 => "1",
        2 => "2",
        3 => "3",
        4 => "4",
        5 => "5",
        6 => "6",
        7 => "7",
        8 => "8",
        _ => "9",
    }
}

/// Formats a natural number in decimal.
pub fn fmt_u64(n: u64) -> (s: String)
    ensures
        s@ == dec_digits(n as nat),
    decreases n,
{
    if n < 10 {
        digit_char_str(n as u8).to_owned()
    } else {
        let mut s = fmt_u64(n / 10);
        s.append(digit_char_str((n % 10) as u8));
        s
    }
}

/// Formats a signed number in decimal, with a `-` sign when negative.
pub fn fmt_i64(n: i64) -> (s: String)
    ensures
        s@ == int_digits(n as int),
{
    if n < 0 {
        proof {
            reveal_strlit("-");
        }
        let mut s = "-".to_owned();
        let abs: u64 = if n == i64::MIN {
            9223372036854775808u64
        } else {
            (-n) as u64
        };
        s.append(fmt_u64(abs).as_str());
        s
    } else {
        fmt_u64(n as u64)
    }
}

/// Formats a signed 32-bit number in decimal.
pub fn fmt_i32(n: i32) -> (s: String)
    ensures
        s@ == int_digits(n as int),
{
    fmt_i64(n as i64)
}

/// Three decimal digits, zero-padded.
pub open spec fn pad3_digits(n: nat) -> Seq<char> {
    seq![digit_char(n / 100 % 10), digit_char(n / 10 % 10), digit_char(n % 10)]
}

/// Formats a number below one thousand on exactly three digits.
pub fn fmt_pad3(n: u16) -> (s: String)
    requires
        n < 1000,
    ensures
        s@ == pad3_digits(n as nat),
{
    let mut s = digit_char_str((n / 100 % 10) as u8).to_owned();
    s.append(digit_char_str((n / 10 % 10) as u8));
    s.append(digit_char_str((n % 10) as u8));
    s
}

/// The decimal notation of a quantity of thousandths: the integer part,
/// a dot, and exactly three fractional digits.
pub open spec fn milli_digits(m: nat) -> Seq<char> {
    dec_digits(m / 1000) + seq!['.'] + pad3_digits(m % 1000)
}

/// Formats a quantity of thousandths as a decimal number with three
/// fractional digits.
pub fn fmt_milli(m: u64) -> (s: String)
    ensures
        s@ == milli_digits(m as nat),
{
    proof {
        reveal_strlit(".");
    }
    let mut s = fmt_u64(m / 1000);
    s.append(".");
    s.append(fmt_pad3((m % 1000) as u16).as_str());
    s
}

/// True when the character is a decimal digit.
pub open spec fn is_digit(c: char) -> bool {
    '0' <= c <= '9'
}

/// The value of one digit character.
pub open spec fn digit_val(c: char) -> nat {
    (c as nat - '0' as nat) as nat
}

/// True when every character of the sequence is a decimal digit.
pub open spec fn is_digits(s: Seq<char>) -> bool {
    forall|i: int| 0 <= i < s.len() ==> is_digit(#[trigger] s[i])
}

/// The numeric value of a sequence of decimal digits.
pub open spec fn digits_val(s: Seq<char>) -> nat
    decreases s.len(),
{
    if s.len() == 0 {
        0
    } else {
        digits_val(s.drop_last()) * 10 + digit_val(s.last())
    }
}

/// A digit appended to a digit string multiplies its value by ten.
proof fn lemma_digits_val_push(s: Seq<char>, c: char)
    ensures
        digits_val(s.push(c)) == digits_val(s) * 10 + digit_val(c),
{
    assert(s.push(c).drop_last() =~= s);
    assert(s.push(c).last() == c);
}

/// A prefix of a digit string is worth no more than the whole string.
proof fn lemma_digits_val_prefix_le(s: Seq<char>, i: int)
    requires
        0 <= i <= s.len(),
    ensures
        digits_val(s.subrange(0, i)) <= digits_val(s),
    decreases s.len() - i,
{
    if i == s.len() {
        assert(s.subrange(0, i) =~= s);
    } else {
        lemma_digits_val_prefix_le(s.subrange(0, s.len() - 1), i);
        assert(s.subrange(0, s.len() - 1).subrange(0, i) =~= s.subrange(0, i));
        assert(s.drop_last() =~= s.subrange(0, s.len() - 1));
        assert(digits_val(s) == digits_val(s.drop_last()) * 10 + digit_val(s.last()));
    }
}

/// Parses an unsigned decimal number.  Returns the value exactly when the
/// input is one or more digits and the value fits in a `u64`.
pub fn parse_u64(s: &str) -> (r: Option<u64>)
    ensures
        match r {
            Some(v) => s@.len() > 0 && is_digits(s@) && v as nat == digits_val(s@),
            None => s@.len() == 0 || !is_digits(s@) || digits_val(s@) > u64::MAX,
        },
{
    let len = s.unicode_len();
    if len == 0 {
        return None;
    }
    let mut acc: u64 = 0;
    let mut i: usize = 0;
    while i < len
        invariant
            0 <= i <= len,
            len == s@.len(),
            is_digits(s@.subrange(0, i as int)),
            acc as nat == digits_val(s@.subrange(0, i as int)),
        decreases len - i,
    {
        let c = s.get_char(i);
        if !('0' <= c && c <= '9') {
            assert(!is_digit(s@[i as int]));
            return None;
        }
        let d: u32 = c as u32 - '0' as u32;
        let next = match acc.checked_mul(10) {
            Some(x) => x.checked_add(d as u64),
            None => None,
        };
        proof {
            lemma_digits_val_push(s@.subrange(0, i as int), s@[i as int]);
            assert(s@.subrange(0, i as int).push(s@[i as int]) =~= s@.subrange(0, i + 1));
        }
        match next {
            Some(x) => {
                acc = x;
            },
            None => {
                proof {
                    lemma_digits_val_prefix_le(s@, i + 1);
                }
                return None;
            },
        }
        i += 1;
    }
    proof {
        assert(s@.subrange(0, len as int) =~= s@);
    }
    Some(acc)
}

/// The decimal notation of a number consists of digits and denotes the
/// number.
pub proof fn lemma_dec_digits_value(n: nat)
    ensures
        dec_digits(n).len() >= 1,
        is_digits(dec_digits(n)),
        digits_val(dec_digits(n)) == n,
    decreases n,
{
    if n < 10 {
        assert(dec_digits(n) =~= seq![digit_char(n)]);
        assert(is_digit(digit_char(n)));
        assert(dec_digits(n).drop_last() =~= Seq::<char>::empty());
        assert(digit_val(digit_char(n)) == n);
        assert(digits_val(Seq::<char>::empty()) == 0);
        assert(dec_digits(n).last() == digit_char(n));
        assert(digits_val(dec_digits(n)) == digits_val(dec_digits(n).drop_last()) * 10 + digit_val(
            dec_digits(n).last(),
        ));
        assert(digits_val(dec_digits(n)) == n);
    } else {
        lemma_dec_digits_value(n / 10);
        lemma_digits_val_push(dec_digits(n / 10), digit_char(n % 10));
        assert(dec_digits(n) =~= dec_digits(n / 10).push(digit_char(n % 10)));
        assert(digit_val(digit_char(n % 10)) == n % 10);
        assert(digits_val(dec_digits(n)) == digits_val(dec_digits(n / 10)) * 10 + digit_val(
            digit_char(n % 10),
        ));
        assert(digits_val(dec_digits(n)) == (n / 10) * 10 + n % 10);
        assert((n / 10) * 10 + n % 10 == n) by (nonlinear_arith);
        assert(forall|i: int|
            0 <= i < dec_digits(n).len() ==> is_digit(#[trigger] dec_digits(n)[i])) by {
            assert(forall|i: int|
                0 <= i < dec_digits(n / 10).len() ==> is_digit(
                    #[trigger] dec_digits(n / 10)[i],
                ));
            assert(dec_digits(n).len() == dec_digits(n / 10).len() + 1);
            assert(forall|i: int|
                0 <= i < dec_digits(n / 10).len() ==> dec_digits(n)[i] == dec_digits(n / 10)[i]);
            assert(dec_digits(n)[dec_digits(n).len() - 1] == digit_char(n % 10));
            assert(is_digit(digit_char(n % 10)));
        }
    }
}

/// Every character of the notation of an integer is a digit or the sign.
pub proof fn lemma_int_digits_chars(v: int)
    ensures
        int_digits(v).len() >= 1,
        forall|i: int|
            0 <= i < int_digits(v).len() ==> (is_digit(#[trigger] int_digits(v)[i])
                || int_digits(v)[i] == '-'),
{
    if v < 0 {
        lemma_dec_digits_value((-v) as nat);
        assert(int_digits(v) =~= seq!['-'] + dec_digits((-v) as nat));
        assert(forall|i: int|
            0 <= i < dec_digits((-v) as nat).len() ==> is_digit(
                #[trigger] dec_digits((-v) as nat)[i],
            ));
        assert(forall|i: int|
            1 <= i < int_digits(v).len() ==> int_digits(v)[i] == dec_digits((-v) as nat)[i - 1]);
        assert(int_digits(v)[0] == '-');
    } else {
        lemma_dec_digits_value(v as nat);
    }
}

/// Parses a signed decimal number.  On the exact decimal notation of a
/// 32-bit number, returns that number.
pub fn parse_i32(s: &str) -> (r: Option<i32>)
    ensures
        forall|n: i32| s@ == int_digits(n as int) ==> r == Some(n),
{
    let len = s.unicode_len();
    if len == 0 {
        proof {
            assert forall|n: i32| s@ == int_digits(n as int) implies false by {
                lemma_int_digits_chars(n as int);
            }
        }
        return None;
    }
    let first = s.get_char(0);
    if first == '-' {
        let rest = s.substring_char(1, len);
        let v = parse_u64(rest);
        proof {
            assert(rest@ =~= s@.subrange(1, len as int));
        }
        match v {
            Some(v) => {
                if v >= 1 && v <= 2147483648 {
                    let out: i32 = if v == 2147483648 {
                        -2147483648
                    } else {
                        -(v as i32)
                    };
                    proof {
                        assert forall|n: i32| s@ == int_digits(n as int) implies Some(out) == Some(
                            n,
                        ) by {
                            lemma_dec_digits_value(n as nat);
                            if n >= 0 {
                                assert(s@[0] == dec_digits(n as nat)[0]);
                                assert(is_digit(s@[0]));
                                assert(false);
                            } else {
                                lemma_dec_digits_value((-n) as nat);
                                assert(s@ =~= seq!['-'] + dec_digits((-n) as nat));
                                assert(rest@ =~= dec_digits((-n) as nat));
                                assert(v == (-n) as nat);
                            }
                        }
                    }
                    Some(out)
                } else {
                    proof {
                        assert forall|n: i32| s@ != int_digits(n as int) by {
                            if s@ == int_digits(n as int) {
                                lemma_dec_digits_value(n as nat);
                                if n >= 0 {
                                    assert(is_digit(s@[0]));
                                } else {
                                    lemma_dec_digits_value((-n) as nat);
                                    assert(s@ =~= seq!['-'] + dec_digits((-n) as nat));
                                    assert(rest@ =~= dec_digits((-n) as nat));
                                    assert(v == (-n) as nat);
                                }
                            }
                        }
                    }
                    None
                }
            },
            None => {
                proof {
                    assert forall|n: i32| s@ != int_digits(n as int) by {
                        if s@ == int_digits(n as int) {
                            lemma_dec_digits_value(n as nat);
                            if n >= 0 {
                                assert(is_digit(s@[0]));
                            } else {
                                lemma_dec_digits_value((-n) as nat);
                                assert(s@ =~= seq!['-'] + dec_digits((-n) as nat));
                                assert(rest@ =~= dec_digits((-n) as nat));
                            }
                        }
                    }
                }
                None
            },
        }
    } else {
        let v = parse_u64(s);
        match v {
            Some(v) => {
                if v <= 2147483647 {
                    proof {
                        assert forall|n: i32| s@ == int_digits(n as int) implies Some(
                            v as i32,
                        ) == Some(n) by {
                            if n >= 0 {
                                lemma_dec_digits_value(n as nat);
                                assert(v == n as nat);
                            } else {
                                lemma_int_digits_chars(n as int);
                                assert(s@[0] == '-');
                                assert(false);
                            }
                        }
                    }
                    Some(v as i32)
                } else {
                    proof {
                        assert forall|n: i32| s@ != int_digits(n as int) by {
                            if s@ == int_digits(n as int) {
                                if n >= 0 {
                                    lemma_dec_digits_value(n as nat);
                                } else {
                                    lemma_int_digits_chars(n as int);
                                    assert(s@[0] == '-');
                                }
                            }
                        }
                    }
                    None
                }
            },
            None => {
                proof {
                    assert forall|n: i32| s@ != int_digits(n as int) by {
                        if s@ == int_digits(n as int) {
                            if n >= 0 {
                                lemma_dec_digits_value(n as nat);
                            } else {
                                lemma_int_digits_chars(n as int);
                                assert(s@[0] == '-');
                            }
                        }
                    }
                }
                None
            },
        }
    }
}

/// The index of the first occurrence of the character, or the length of
/// the sequence if it does not occur.
pub open spec fn first_pos(s: Seq<char>, c: char) -> int
    decreases s.len(),
{
    if s.len() == 0 {
        0
    } else if s.first() == c {
        0
    } else {
        1 + first_pos(s.drop_first(), c)
    }
}

/// The first occurrence is an occurrence, and nothing before it is one.
pub proof fn lemma_first_pos(s: Seq<char>, c: char)
    ensures
        0 <= first_pos(s, c) <= s.len(),
        first_pos(s, c) < s.len() ==> s[first_pos(s, c)] == c,
        forall|k: int| 0 <= k < first_pos(s, c) ==> s[k] != c,
    decreases s.len(),
{
    if s.len() > 0 && s.first() != c {
        lemma_first_pos(s.drop_first(), c);
        let fp = first_pos(s, c);
        assert(fp == 1 + first_pos(s.drop_first(), c));
        assert forall|k: int| 0 <= k < fp implies s[k] != c by {
            if k == 0 {
                assert(s[0] == s.first());
            } else {
                assert(s.drop_first()[k - 1] == s[k]);
            }
        }
        if fp < s.len() {
            assert(s.drop_first()[first_pos(s.drop_first(), c)] == s[fp]);
        }
    }
}

/// Finds the first occurrence of the character.
pub fn find_first(s: &str, c: char) -> (r: usize)
    ensures
        r as int == first_pos(s@, c),
{
    let len = s.unicode_len();
    let mut i: usize = 0;
    while i < len
        invariant
            0 <= i <= len,
            len == s@.len(),
            forall|k: int| 0 <= k < i ==> s@[k] != c,
        decreases len - i,
    {
        if s.get_char(i) == c {
            proof {
                lemma_first_pos(s@, c);
                let fp = first_pos(s@, c);
                if fp < i {
                    assert(s@[fp] != c);
                    assert(s@[fp] == c);
                }
                if fp > i {
                    assert(s@[i as int] != c);
                }
            }
            return i;
        }
        i += 1;
    }
    proof {
        lemma_first_pos(s@, c);
        let fp = first_pos(s@, c);
        if fp < len {
            assert(s@[fp] != c);
            assert(s@[fp] == c);
        }
    }
    len
}

/// The integer part of a decimal notation: the digits before the first
/// dot.
pub open spec fn decimal_int_part(s: Seq<char>) -> Seq<char> {
    s.subrange(0, first_pos(s, '.'))
}

/// The fractional part of a decimal notation: the digits after the first
/// dot, empty when there is no dot.
pub open spec fn decimal_frac_part(s: Seq<char>) -> Seq<char> {
    if first_pos(s, '.') < s.len() {
        s.subrange(first_pos(s, '.') + 1, s.len() as int)
    } else {
        Seq::empty()
    }
}

/// A decimal notation: a nonempty integer part, optionally followed by a
/// dot and fractional digits.
pub open spec fn is_decimal(s: Seq<char>) -> bool {
    &&& first_pos(s, '.') >= 1
    &&& is_digits(decimal_int_part(s))
    &&& is_digits(decimal_frac_part(s))
}

/// The digit of the fractional part at the position, zero when absent.
pub open spec fn frac_digit(f: Seq<char>, i: int) -> nat {
    if i < f.len() {
        digit_val(f[i])
    } else {
        0
    }
}

/// The fractional part in thousandths: the first three fractional digits,
/// rounded up when the fourth is five or more.
pub open spec fn frac_milli(f: Seq<char>) -> nat {
    frac_digit(f, 0) * 100 + frac_digit(f, 1) * 10 + frac_digit(f, 2) + if f.len() > 3
        && digit_val(f[3]) >= 5 {
        1nat
    } else {
        0nat
    }
}

/// The value of a decimal notation in thousandths, rounded at the third
/// fractional digit.
pub open spec fn decimal_milli(s: Seq<char>) -> nat {
    digits_val(decimal_int_part(s)) * 1000 + frac_milli(decimal_frac_part(s))
}

/// Parses a decimal notation into thousandths, rounding at the third
/// fractional digit.  Returns the value exactly when the input is a
/// decimal notation whose value fits.
pub fn parse_decimal_milli(s: &str) -> (r: Option<u64>)
    ensures
        match r {
            Some(v) => is_decimal(s@) && v as nat == decimal_milli(s@),
            None => !is_decimal(s@) || decimal_milli(s@) > u64::MAX,
        },
{
    proof {
        lemma_first_pos(s@, '.');
    }
    let len = s.unicode_len();
    let dot = find_first(s, '.');
    if dot == 0 {
        return None;
    }
    let int_str = s.substring_char(0, dot);
    proof {
        assert(int_str@ =~= decimal_int_part(s@));
    }
    let int_val = match parse_u64(int_str) {
        Some(v) => v,
        None => {
            proof {
                if is_decimal(s@) {
                    assert(digits_val(decimal_int_part(s@)) > u64::MAX);
                    assert(decimal_milli(s@) >= digits_val(decimal_int_part(s@)) * 1000) by (
                    nonlinear_arith);
                    assert(digits_val(decimal_int_part(s@)) * 1000 > u64::MAX) by (nonlinear_arith)
                        requires
                            digits_val(decimal_int_part(s@)) > u64::MAX,
                    ;
                }
            }
            return None;
        },
    };
    let frac_val: u64 = if dot < len {
        let f = s.substring_char(dot + 1, len);
        proof {
            assert(f@ =~= decimal_frac_part(s@));
        }
        let flen = f.unicode_len();
        let mut ok = true;
        let mut i: usize = 0;
        while i < flen
            invariant
                0 <= i <= flen,
                flen == f@.len(),
                ok == is_digits(f@.subrange(0, i as int)),
            decreases flen - i,
        {
            let c = f.get_char(i);
            proof {
                assert(f@.subrange(0, i + 1).drop_last() =~= f@.subrange(0, i as int));
                assert(f@.subrange(0, i + 1).last() == f@[i as int]);
                assert(forall|k: int|
                    0 <= k < i + 1 ==> f@.subrange(0, i + 1)[k] == f@[k]);
            }
            if !('0' <= c && c <= '9') {
                ok = false;
            }
            i += 1;
        }
        proof {
            assert(f@.subrange(0, flen as int) =~= f@);
        }
        if !ok {
            return None;
        }
        let d0: u64 = if flen > 0 {
            (f.get_char(0) as u32 - '0' as u32) as u64
        } else {
            0
        };
        let d1: u64 = if flen > 1 {
            (f.get_char(1) as u32 - '0' as u32) as u64
        } else {
            0
        };
        let d2: u64 = if flen > 2 {
            (f.get_char(2) as u32 - '0' as u32) as u64
        } else {
            0
        };
        let up: u64 = if flen > 3 && f.get_char(3) >= '5' {
            1
        } else {
            0
        };
        d0 * 100 + d1 * 10 + d2 + up
    } else {
        proof {
            assert(decimal_frac_part(s@) =~= Seq::<char>::empty());
        }
        0
    };
    proof {
        assert(int_val as nat == digits_val(decimal_int_part(s@)));
        assert(frac_val as nat == frac_milli(decimal_frac_part(s@)));
        assert(decimal_milli(s@) == int_val as nat * 1000 + frac_val as nat);
    }
    let scaled = match int_val.checked_mul(1000) {
        Some(x) => x.checked_add(frac_val),
        None => None,
    };
    match scaled {
        Some(v) => Some(v),
        None => {
            proof {
                assert(decimal_milli(s@) > u64::MAX);
            }
            None
        },
    }
}

/// A record size `WxH`: width and height in decimal, separated by an `x`.
pub open spec fn is_record_size(s: Seq<char>) -> bool {
    &&& 1 <= first_pos(s, 'x') < s.len()
    &&& is_digits(s.subrange(0, first_pos(s, 'x')))
    &&& is_digits(s.subrange(first_pos(s, 'x') + 1, s.len() as int))
    &&& s.len() - first_pos(s, 'x') >= 2
    &&& digits_val(s.subrange(0, first_pos(s, 'x'))) <= u32::MAX
    &&& digits_val(s.subrange(first_pos(s, 'x') + 1, s.len() as int)) <= u32::MAX
}

/// The width of a record size notation.
pub open spec fn record_size_w(s: Seq<char>) -> nat {
    digits_val(s.subrange(0, first_pos(s, 'x')))
}

/// The height of a record size notation.
pub open spec fn record_size_h(s: Seq<char>) -> nat {
    digits_val(s.subrange(first_pos(s, 'x') + 1, s.len() as int))
}

/// Parses the `WxH` size the record normalizer prints.  Returns the pair
/// exactly when the input has that shape.
pub fn parse_record_size(s: &str) -> (r: Option<(u32, u32)>)
    ensures
        match r {
            Some(wh) => is_record_size(s@) && wh.0 as nat == record_size_w(s@) && wh.1 as nat
                == record_size_h(s@),
            None => !is_record_size(s@),
        },
{
    let len = s.unicode_len();
    let x = find_first(s, 'x');
    if x == 0 || x >= len {
        return None;
    }
    let w_str = s.substring_char(0, x);
    let h_str = s.substring_char(x + 1, len);
    proof {
        assert(w_str@ =~= s@.subrange(0, first_pos(s@, 'x')));
        assert(h_str@ =~= s@.subrange(first_pos(s@, 'x') + 1, s@.len() as int));
    }
    let w = match parse_u64(w_str) {
        Some(v) => v,
        None => {
            return None;
        },
    };
    let h = match parse_u64(h_str) {
        Some(v) => v,
        None => {
            return None;
        },
    };
    if w > 0xffffffff || h > 0xffffffff {
        return None;
    }
    if h_str.unicode_len() == 0 {
        return None;
    }
    Some((w as u32, h as u32))
}

/// The position of the first comma of the string, if any.
pub fn find_comma(s: &str) -> (r: Option<usize>)
    ensures
        match r {
            Some(p) => p < s@.len() && s@[p as int] == ',' && forall|k: int|
                0 <= k < p ==> s@[k] != ',',
            None => forall|k: int| 0 <= k < s@.len() ==> s@[k] != ',',
        },
{
    let len = s.unicode_len();
    let mut i: usize = 0;
    while i < len
        invariant
            0 <= i <= len,
            len == s@.len(),
            forall|k: int| 0 <= k < i ==> s@[k] != ',',
        decreases len - i,
    {
        if s.get_char(i) == ',' {
            return Some(i);
        }
        i += 1;
    }
    None
}

/// No character of an integer's notation is a comma.
pub proof fn lemma_int_digits_no_comma(v: int)
    ensures
        forall|i: int| 0 <= i < int_digits(v).len() ==> int_digits(v)[i] != ',',
{
    lemma_int_digits_chars(v);
    assert forall|i: int| 0 <= i < int_digits(v).len() implies int_digits(v)[i] != ',' by {
        assert(is_digit(int_digits(v)[i]) || int_digits(v)[i] == '-');
        assert(!is_digit(','));
    }
}

/// The decimal notation is injective.
pub proof fn lemma_int_digits_injective(a: int, b: int)
    requires
        int_digits(a) == int_digits(b),
    ensures
        a == b,
{
    lemma_dec_digits_value(if a < 0 {
        (-a) as nat
    } else {
        a as nat
    });
    lemma_dec_digits_value(if b < 0 {
        (-b) as nat
    } else {
        b as nat
    });
    if a < 0 && b >= 0 {
        assert(int_digits(a)[0] == '-');
        assert(is_digit(int_digits(b)[0]));
    } else if a >= 0 && b < 0 {
        assert(is_digit(int_digits(a)[0]));
        assert(int_digits(b)[0] == '-');
    } else if a < 0 && b < 0 {
        assert(int_digits(a).len() == 1 + dec_digits_of(a).len());
        assert(int_digits(b).len() == 1 + dec_digits_of(b).len());
        assert(dec_digits_of(a) =~= dec_digits_of(b)) by {
            assert forall|k: int| 0 <= k < dec_digits_of(a).len() implies dec_digits_of(a)[k]
                == dec_digits_of(b)[k] by {
                assert(int_digits(a)[k + 1] == dec_digits_of(a)[k]);
                assert(int_digits(b)[k + 1] == dec_digits_of(b)[k]);
            }
        }
        assert(digits_val(dec_digits_of(a)) == digits_val(
            dec_digits_of(b),
        ));
    } else {
        assert(digits_val(int_digits(a)) == digits_val(int_digits(b)));
    }
}

/// The digits of the absolute value of a negative number's notation.
spec fn dec_digits_of(v: int) -> Seq<char> {
    dec_digits(if v < 0 {
        (-v) as nat
    } else {
        v as nat
    })
}

} // verus!
