//! Readers for a game's zlib-compressed XML data files: level geometry,
//! minimap layout and texture-atlas metadata, plus the frame-expansion
//! algorithm that turns compact atlas run descriptors into per-sprite
//! rectangles.
use vstd::prelude::*;

pub mod error;
pub mod level;
pub mod level_specification;
pub mod minimap;
pub mod text;
pub mod texture_atlas;
pub mod xml;

pub use crate::level_specification::load_map_from_bytes;

use vstd::string::StrSliceExecFns;

use crate::error::LoadError;
use crate::text::dec_digits;
use crate::text::digits_val;
use crate::text::digits_value_range;
use crate::text::is_digit;
use crate::text::is_digit_char;
use crate::text::lemma_dec_digits_props;
use crate::text::lemma_digit_run_has_val;
use crate::text::str_eq;

verus! {

broadcast use vstd::string::group_string_axioms;

/// A 2D integer point, the decoded form of positional tokens `{X:<n> Y:<n>}`.
#[derive(Clone, Copy, Debug, PartialEq, Eq, Structural)]
pub struct Position {
    pub x: i32,
    pub y: i32,
}

/// Boolean codec over attribute values: exactly the literal `"True"` or
/// `"False"` decodes; anything else is a schema error.
pub fn parse_bool(s: &str) -> (r: Result<bool, LoadError>)
    ensures
        r == Ok::<bool, LoadError>(true) <==> s@ == "True"@,
        r == Ok::<bool, LoadError>(false) <==> s@ == "False"@,
        r is Err <==> s@ != "True"@ && s@ != "False"@,
        r is Err ==> r == Err::<bool, LoadError>(LoadError::Schema),
{
    proof {
        reveal_strlit("True");
        reveal_strlit("False");
        assert("True"@.len() == 4);
        assert("False"@.len() == 5);
    }
    if str_eq(s, "True") {
        Ok(true)
    } else if str_eq(s, "False") {
        Ok(false)
    } else {
        Err(LoadError::Schema)
    }
}

/// The first index at or after `i` that does not hold a decimal digit
/// (or the length of `s` when digits run to the end).
pub open spec fn scan_digits(s: Seq<char>, i: int) -> int
    decreases s.len() - i,
{
    if i < 0 || i >= s.len() {
        s.len() as int
    } else if is_digit(s[i]) {
        scan_digits(s, i + 1)
    } else {
        i
    }
}

/// The position-token grammar `{X:<digits> Y:<digits>}` evaluated over a
/// character sequence: the two encoded values, or `None` when the token is
/// malformed.
pub open spec fn position_str_val(s: Seq<char>) -> Option<(int, int)> {
    if s.len() >= 3 && s[0] == '{' && s[1] == 'X' && s[2] == ':' {
        let j = scan_digits(s, 3);
        if j > 3 && j + 2 < s.len() && s[j] == ' ' && s[j + 1] == 'Y' && s[j + 2] == ':' {
            let k = scan_digits(s, j + 3);
            if k > j + 3 && k == s.len() - 1 && s[k] == '}' {
                match (digits_val(s.subrange(3, j)), digits_val(s.subrange(j + 3, k))) {
                    (Some(x), Some(y)) => Some((x, y)),
                    _ => None,
                }
            } else {
                None
            }
        } else {
            None
        }
    } else {
        None
    }
}

/// `position_str_val` restricted to components an `i32` can hold.
pub open spec fn position_val_i32(s: Seq<char>) -> Option<(int, int)> {
    match position_str_val(s) {
        Some(p) => if p.0 <= i32::MAX && p.1 <= i32::MAX {
            Some(p)
        } else {
            None
        },
        None => None,
    }
}

/// Position codec over attribute values: decodes `{X:<digits> Y:<digits>}`
/// with both components non-negative integers that fit an `i32`; any other
/// input is a schema error.
pub fn parse_position(s: &str) -> (r: Result<Position, LoadError>)
    ensures
        r matches Ok(p) ==> position_val_i32(s@) == Some((p.x as int, p.y as int)) && p.x >= 0
            && p.y >= 0,
        r matches Err(e) ==> e == LoadError::Schema && position_val_i32(s@) is None,
{
    let n = s.unicode_len();
    if n < 3 {
        return Err(LoadError::Schema);
    }
    if !(s.get_char(0) == '{' && s.get_char(1) == 'X' && s.get_char(2) == ':') {
        return Err(LoadError::Schema);
    }
    let mut j: usize = 3;
    while j < n && is_digit_char(s.get_char(j))
        invariant
            n == s@.len(),
            3 <= j <= n,
            scan_digits(s@, 3) == scan_digits(s@, j as int),
            forall|m: int| 3 <= m < j ==> is_digit(s@[m]),
        decreases n - j,
    {
        j += 1;
    }
    proof {
        assert(scan_digits(s@, 3) == j);
    }
    if j == 3 {
        return Err(LoadError::Schema);
    }
    if n - j < 3 {
        return Err(LoadError::Schema);
    }
    if !(s.get_char(j) == ' ' && s.get_char(j + 1) == 'Y' && s.get_char(j + 2) == ':') {
        return Err(LoadError::Schema);
    }
    let mut k: usize = j + 3;
    while k < n && is_digit_char(s.get_char(k))
        invariant
            n == s@.len(),
            j + 3 <= k <= n,
            scan_digits(s@, j + 3) == scan_digits(s@, k as int),
            forall|m: int| j + 3 <= m < k ==> is_digit(s@[m]),
        decreases n - k,
    {
        k += 1;
    }
    proof {
        assert(scan_digits(s@, j + 3) == k);
    }
    if k == j + 3 {
        return Err(LoadError::Schema);
    }
    if k != n - 1 {
        return Err(LoadError::Schema);
    }
    if s.get_char(k) != '}' {
        return Err(LoadError::Schema);
    }
    proof {
        lemma_digit_run_has_val(s@.subrange(3, j as int));
        lemma_digit_run_has_val(s@.subrange(j + 3, k as int));
    }
    let x64 = match digits_value_range(s, 3, j) {
        Some(v) => v,
        None => {
            return Err(LoadError::Schema);
        },
    };
    let y64 = match digits_value_range(s, j + 3, k) {
        Some(v) => v,
        None => {
            return Err(LoadError::Schema);
        },
    };
    if x64 > 0x7fff_ffffu64 || y64 > 0x7fff_ffffu64 {
        return Err(LoadError::Schema);
    }
    Ok(Position { x: x64 as i32, y: y64 as i32 })
}

/// Scanning stops exactly at the end of a digit run.
pub proof fn lemma_scan_digits_run(s: Seq<char>, i: int, m: int)
    requires
        0 <= i <= m <= s.len(),
        forall|t: int| i <= t < m ==> is_digit(s[t]),
        m == s.len() || !is_digit(s[m]),
    ensures
        scan_digits(s, i) == m,
    decreases m - i,
{
    if i < m {
        lemma_scan_digits_run(s, i + 1, m);
    }
}

/// The canonical text of a position token for a coordinate pair.
pub open spec fn position_token(x: int, y: int) -> Seq<char> {
    "{X:"@ + dec_digits(x) + " Y:"@ + dec_digits(y) + "}"@
}

/// The position codec round-trips: the token written for any representable
/// coordinate pair decodes back to exactly that pair.
pub proof fn lemma_position_round_trip(x: int, y: int)
    requires
        0 <= x <= i32::MAX,
        0 <= y <= i32::MAX,
    ensures
        position_val_i32(position_token(x, y)) == Some((x, y)),
{
    reveal_strlit("{X:");
    reveal_strlit(" Y:");
    reveal_strlit("}");
    lemma_dec_digits_props(x);
    lemma_dec_digits_props(y);
    let s = position_token(x, y);
    let dx = dec_digits(x);
    let dy = dec_digits(y);
    let j = 3 + dx.len() as int;
    let k = j + 3 + dy.len() as int;
    assert(s.len() == k + 1);
    assert forall|t: int| 0 <= t < s.len() implies s[t] == (if t < 3 {
        "{X:"@[t]
    } else if t < j {
        dx[t - 3]
    } else if t < j + 3 {
        " Y:"@[t - j]
    } else if t < k {
        dy[t - j - 3]
    } else {
        '}'
    }) by {
        assert(s == ("{X:"@ + dx + " Y:"@ + dy) + "}"@);
    }
    assert(s[0] == '{' && s[1] == 'X' && s[2] == ':');
    assert(s[j] == ' ' && s[j + 1] == 'Y' && s[j + 2] == ':');
    assert(s[k] == '}');
    assert(!is_digit(' ') && !is_digit('}'));
    lemma_scan_digits_run(s, 3, j);
    lemma_scan_digits_run(s, j + 3, k);
    assert(s.subrange(3, j) =~= dx);
    assert(s.subrange(j + 3, k) =~= dy);
    assert(position_str_val(s) == Some((x, y)));
}
} // verus!
