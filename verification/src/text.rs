//! Character-level helpers: string equality, decimal digit runs, and the
//! integer grammars used by attribute values.
use vstd::prelude::*;

use vstd::arithmetic::div_mod::lemma_fundamental_div_mod;
use vstd::arithmetic::div_mod::lemma_mod_pos_bound;
use vstd::string::StrSliceExecFns;

verus! {

/// True when `c` is a decimal digit.
pub open spec fn is_digit(c: char) -> bool {
    48 <= c as u32 <= 57
}

/// The numeric value of a decimal digit.
pub open spec fn digit_val(c: char) -> int {
    c as u32 - 48
}

/// The value of a non-empty run of decimal digits, read left to right;
/// `None` when the sequence is empty or holds a non-digit.
pub open spec fn digits_val(s: Seq<char>) -> Option<int>
    decreases s.len(),
{
    if s.len() == 0 {
        None
    } else if s.len() == 1 {
        if is_digit(s[0]) {
            Some(digit_val(s[0]))
        } else {
            None
        }
    } else if is_digit(s.last()) {
        match digits_val(s.drop_last()) {
            Some(v) => Some(v * 10 + digit_val(s.last())),
            None => None,
        }
    } else {
        None
    }
}

/// A digit run never encodes a negative value.
pub proof fn lemma_digits_val_nonneg(s: Seq<char>)
    ensures
        digits_val(s) matches Some(v) ==> v >= 0,
    decreases s.len(),
{
    if s.len() > 1 {
        lemma_digits_val_nonneg(s.drop_last());
    }
}

/// A sequence whose digit value exists is made of digits only.
pub proof fn lemma_digits_val_all_digits(s: Seq<char>)
    ensures
        digits_val(s) is Some ==> forall|k: int| 0 <= k < s.len() ==> is_digit(s[k]),
    decreases s.len(),
{
    if s.len() > 1 {
        lemma_digits_val_all_digits(s.drop_last());
        if digits_val(s) is Some {
            assert forall|k: int| 0 <= k < s.len() implies is_digit(s[k]) by {
                if k < s.len() - 1 {
                    assert(s.drop_last()[k] == s[k]);
                }
            }
        }
    }
}

/// A non-empty sequence of digits has a digit value.
pub proof fn lemma_digit_run_has_val(s: Seq<char>)
    requires
        s.len() >= 1,
        forall|k: int| 0 <= k < s.len() ==> is_digit(s[k]),
    ensures
        digits_val(s) is Some,
    decreases s.len(),
{
    if s.len() > 1 {
        assert forall|k: int| 0 <= k < s.drop_last().len() implies is_digit(s.drop_last()[k]) by {
            assert(s.drop_last()[k] == s[k]);
        }
        lemma_digit_run_has_val(s.drop_last());
    }
}

/// Extending a digit run to the right never shrinks its value.
pub proof fn lemma_digits_val_prefix_le(s: Seq<char>, m: int)
    requires
        1 <= m <= s.len(),
        digits_val(s) is Some,
    ensures
        digits_val(s.take(m)) is Some,
        digits_val(s.take(m)) matches Some(p) ==> digits_val(s) matches Some(v) && p <= v,
    decreases s.len() - m,
{
    lemma_digits_val_all_digits(s);
    lemma_digits_val_nonneg(s.take(m));
    if m == s.len() {
        assert(s.take(m) =~= s);
    } else {
        lemma_digits_val_prefix_le(s, m + 1);
        assert(s.take(m + 1).drop_last() =~= s.take(m));
        assert(s.take(m + 1).last() == s[m]);
        lemma_digit_run_has_val(s.take(m));
    }
}

/// `digits_val` filtered through an upper bound: the value only when it is
/// at most `bound`.
pub open spec fn bounded_digits_val(s: Seq<char>, bound: int) -> Option<int> {
    match digits_val(s) {
        Some(v) => if v <= bound {
            Some(v)
        } else {
            None
        },
        None => None,
    }
}

/// String equality over the character views.
pub fn str_eq(a: &str, b: &str) -> (r: bool)
    ensures
        r <==> a@ == b@,
{
    let alen = a.unicode_len();
    let blen = b.unicode_len();
    if alen != blen {
        return false;
    }
    let mut i: usize = 0;
    while i < alen
        invariant
            alen == a@.len(),
            alen == b@.len(),
            i <= alen,
            forall|k: int| 0 <= k < i ==> a@[k] == b@[k],
        decreases alen - i,
    {
        if a.get_char(i) != b.get_char(i) {
            return false;
        }
        i += 1;
    }
    proof {
        assert(a@ =~= b@);
    }
    true
}

/// Decimal-digit test on an executable character.
pub fn is_digit_char(c: char) -> (r: bool)
    ensures
        r == is_digit(c),
{
    let u = c as u32;
    48 <= u && u <= 57
}

/// Reads the digit run `s[from..to]` as an integer, refusing values above
/// `u32::MAX`; relates exactly to `bounded_digits_val`.
pub fn digits_value_range(s: &str, from: usize, to: usize) -> (r: Option<u64>)
    requires
        from <= to <= s@.len(),
    ensures
        r matches Some(v) ==> bounded_digits_val(s@.subrange(from as int, to as int), u32::MAX as int)
            == Some(v as int),
        r is None ==> bounded_digits_val(s@.subrange(from as int, to as int), u32::MAX as int)
            is None,
{
    let ghost whole = s@.subrange(from as int, to as int);
    if from == to {
        return None;
    }
    let mut acc: u64 = 0;
    let mut k: usize = from;
    while k < to
        invariant
            from <= k <= to <= s@.len(),
            whole == s@.subrange(from as int, to as int),
            acc <= u32::MAX,
            k > from ==> digits_val(s@.subrange(from as int, k as int)) == Some(acc as int),
            k == from ==> acc == 0,
        decreases to - k,
    {
        let c = s.get_char(k);
        if !is_digit_char(c) {
            proof {
                lemma_digits_val_all_digits(whole);
                assert(whole[k - from] == s@[k as int]);
            }
            return None;
        }
        let d = (c as u32 - 48) as u64;
        let next: u64 = acc * 10 + d;
        proof {
            let prefix = s@.subrange(from as int, k as int);
            let prefix1 = s@.subrange(from as int, k + 1 as int);
            assert(prefix1.drop_last() =~= prefix);
            assert(prefix1.last() == s@[k as int]);
            if k == from {
                assert(digits_val(prefix1) == Some(d as int));
            } else {
                assert(digits_val(prefix1) == Some(acc as int * 10 + d));
            }
        }
        if next > 0xffff_ffffu64 {
            proof {
                if digits_val(whole) is Some {
                    lemma_digits_val_prefix_le(whole, k + 1 - from);
                    assert(whole.take(k + 1 - from) =~= s@.subrange(from as int, k + 1 as int));
                }
            }
            return None;
        }
        acc = next;
        k += 1;
    }
    proof {
        assert(s@.subrange(from as int, to as int) == whole);
    }
    Some(acc)
}

/// The integer grammar with an optional leading sign: `['+' | '-'] digits`.
pub open spec fn signed_str_val(s: Seq<char>) -> Option<int> {
    if s.len() >= 1 && (s[0] == '-' || s[0] == '+') {
        match digits_val(s.drop_first()) {
            Some(v) => Some(
                if s[0] == '-' {
                    -v
                } else {
                    v
                },
            ),
            None => None,
        }
    } else {
        digits_val(s)
    }
}

/// The unsigned integer grammar: `['+'] digits`.
pub open spec fn unsigned_str_val(s: Seq<char>) -> Option<int> {
    if s.len() >= 1 && s[0] == '+' {
        digits_val(s.drop_first())
    } else {
        digits_val(s)
    }
}

/// `signed_str_val` restricted to the values an `i32` can hold.
pub open spec fn i32_str_val(s: Seq<char>) -> Option<int> {
    match signed_str_val(s) {
        Some(v) => if i32::MIN <= v <= i32::MAX {
            Some(v)
        } else {
            None
        },
        None => None,
    }
}

/// `unsigned_str_val` restricted to the values a `u32` can hold.
pub open spec fn u32_str_val(s: Seq<char>) -> Option<int> {
    match unsigned_str_val(s) {
        Some(v) => if v <= u32::MAX {
            Some(v)
        } else {
            None
        },
        None => None,
    }
}

/// `unsigned_str_val` restricted to the values a `u8` can hold.
pub open spec fn u8_str_val(s: Seq<char>) -> Option<int> {
    match unsigned_str_val(s) {
        Some(v) => if v <= u8::MAX {
            Some(v)
        } else {
            None
        },
        None => None,
    }
}

/// Reads a whole string as an `i32`, exactly the values of `i32_str_val`.
pub fn parse_i32_str(s: &str) -> (r: Option<i32>)
    ensures
        r matches Some(v) ==> i32_str_val(s@) == Some(v as int),
        r is None ==> i32_str_val(s@) is None,
{
    let n = s.unicode_len();
    if n == 0 {
        return None;
    }
    let c0 = s.get_char(0);
    if c0 == '-' || c0 == '+' {
        proof {
            assert(s@.drop_first() =~= s@.subrange(1, n as int));
        }
        match digits_value_range(s, 1, n) {
            Some(mag) => {
                proof {
                    lemma_digits_val_nonneg(s@.drop_first());
                }
                if c0 == '-' {
                    if mag > 0x8000_0000u64 {
                        return None;
                    }
                    Some((-(mag as i64)) as i32)
                } else {
                    if mag > 0x7fff_ffffu64 {
                        return None;
                    }
                    Some(mag as i32)
                }
            },
            None => {
                proof {
                    lemma_digits_val_nonneg(s@.drop_first());
                }
                None
            },
        }
    } else {
        proof {
            assert(s@.subrange(0, n as int) =~= s@);
        }
        match digits_value_range(s, 0, n) {
            Some(v) => {
                proof {
                    lemma_digits_val_nonneg(s@);
                }
                if v > 0x7fff_ffffu64 {
                    return None;
                }
                Some(v as i32)
            },
            None => {
                proof {
                    lemma_digits_val_nonneg(s@);
                }
                None
            },
        }
    }
}

/// Reads a whole string as a `u32`, exactly the values of `u32_str_val`.
pub fn parse_u32_str(s: &str) -> (r: Option<u32>)
    ensures
        r matches Some(v) ==> u32_str_val(s@) == Some(v as int),
        r is None ==> u32_str_val(s@) is None,
{
    let n = s.unicode_len();
    if n == 0 {
        return None;
    }
    let c0 = s.get_char(0);
    if c0 == '+' {
        proof {
            assert(s@.drop_first() =~= s@.subrange(1, n as int));
        }
        match digits_value_range(s, 1, n) {
            Some(v) => Some(v as u32),
            None => None,
        }
    } else {
        proof {
            assert(s@.subrange(0, n as int) =~= s@);
        }
        match digits_value_range(s, 0, n) {
            Some(v) => Some(v as u32),
            None => None,
        }
    }
}

/// Reads a whole string as a `u8`, exactly the values of `u8_str_val`.
pub fn parse_u8_str(s: &str) -> (r: Option<u8>)
    ensures
        r matches Some(v) ==> u8_str_val(s@) == Some(v as int),
        r is None ==> u8_str_val(s@) is None,
{
    match parse_u32_str(s) {
        Some(v) => if v <= 255 {
            Some(v as u8)
        } else {
            None
        },
        None => None,
    }
}


/// The character of one decimal digit.
pub open spec fn digit_char(d: int) -> char {
    if d == 0 {
        '0'
    } else if d == 1 {
        '1'
    } else if d == 2 {
        '2'
    } else if d == 3 {
        '3'
    } else if d == 4 {
        '4'
    } else if d == 5 {
        '5'
    } else if d == 6 {
        '6'
    } else if d == 7 {
        '7'
    } else if d == 8 {
        '8'
    } else {
        '9'
    }
}

/// The canonical decimal digits of a non-negative integer, most significant
/// first.
pub open spec fn dec_digits(n: int) -> Seq<char>
    decreases n,
{
    if n < 10 {
        seq![digit_char(if n < 0 { 0 } else { n })]
    } else {
        dec_digits(n / 10).push(digit_char(n % 10))
    }
}

/// The canonical digits of `n` are a non-empty digit run whose value reads
/// back as `n`.
pub proof fn lemma_dec_digits_props(n: int)
    requires
        n >= 0,
    ensures
        dec_digits(n).len() >= 1,
        forall|i: int| 0 <= i < dec_digits(n).len() ==> is_digit(#[trigger] dec_digits(n)[i]),
        digits_val(dec_digits(n)) == Some(n),
    decreases n,
{
    lemma_mod_pos_bound(n, 10);
    if n < 10 {
        assert(is_digit(digit_char(n)));
        assert(digit_val(digit_char(n)) == n);
    } else {
        lemma_fundamental_div_mod(n, 10);
        lemma_dec_digits_props(n / 10);
        let tail = dec_digits(n / 10);
        let whole = dec_digits(n);
        assert(whole == tail.push(digit_char(n % 10)));
        assert(whole.drop_last() =~= tail);
        assert(whole.last() == digit_char(n % 10));
        assert(is_digit(whole.last()));
        assert(digit_val(whole.last()) == n % 10);
        assert(digits_val(whole) == Some((n / 10) * 10 + n % 10));
        assert((n / 10) * 10 == 10 * (n / 10));
        assert forall|i: int| 0 <= i < whole.len() implies is_digit(#[trigger] whole[i]) by {
            if i < whole.len() - 1 {
                assert(whole[i] == tail[i]);
            }
        }
    }
}
} // verus!
