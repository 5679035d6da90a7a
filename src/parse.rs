use vstd::prelude::*;

verus! {

/// The render mode a mode word names: `Multi` the banded parallel renderer,
/// `Single` the sequential one.
pub open spec fn mode_of(s: Seq<char>) -> Option<bool> {
    if s == "Multi"@ {
        Some(true)
    } else if s == "Single"@ {
        Some(false)
    } else {
        None
    }
}

/// `i` is the position of the first `sep` in `s`.
pub open spec fn is_first_index(s: Seq<char>, sep: char, i: int) -> bool {
    0 <= i < s.len() && s[i] == sep && forall|j: int| 0 <= j < i ==> s[j] != sep
}

/// The text on either side of the first `sep` in `s`, if there is one.
pub open spec fn split_of(s: Seq<char>, sep: char) -> Option<(Seq<char>, Seq<char>)> {
    if exists|i: int| is_first_index(s, sep, i) {
        let i = choose|i: int| is_first_index(s, sep, i);
        Some((s.subrange(0, i), s.subrange(i + 1, s.len() as int)))
    } else {
        None
    }
}

/// The views of a pair of string slices, if there is a pair.
pub open spec fn pair_view(p: Option<(&str, &str)>) -> Option<(Seq<char>, Seq<char>)> {
    match p {
        Some((l, r)) => Some((l@, r@)),
        None => None,
    }
}

/// `s` is one or more ASCII decimal digits.
pub open spec fn is_digits(s: Seq<char>) -> bool {
    s.len() > 0 && forall|i: int| 0 <= i < s.len() ==> '0' <= #[trigger] s[i] <= '9'
}

/// The number that the decimal digits `s` write.
pub open spec fn digits_value(s: Seq<char>) -> int
    decreases s.len(),
{
    if s.len() == 0 {
        0
    } else {
        10 * digits_value(s.drop_last()) + (s.last() as int - '0' as int)
    }
}

/// The number that `s` writes as decimal digits after an optional `+`.
pub open spec fn unsigned_value(s: Seq<char>) -> Option<int> {
    if is_digits(s) {
        Some(digits_value(s))
    } else if s.len() > 0 && s[0] == '+' && is_digits(s.drop_first()) {
        Some(digits_value(s.drop_first()))
    } else {
        None
    }
}

/// The number that `s` writes as decimal digits after an optional `+` or `-`.
pub open spec fn signed_value(s: Seq<char>) -> Option<int> {
    if s.len() > 0 && s[0] == '-' && is_digits(s.drop_first()) {
        Some(-digits_value(s.drop_first()))
    } else {
        unsigned_value(s)
    }
}

/// The `u32` that `s` writes, if it writes one.
pub open spec fn u32_of(s: Seq<char>) -> Option<u32> {
    match unsigned_value(s) {
        Some(v) => if v <= u32::MAX {
            Some(v as u32)
        } else {
            None
        },
        None => None,
    }
}

/// The `i32` that `s` writes, if it writes one.
pub open spec fn i32_of(s: Seq<char>) -> Option<i32> {
    match signed_value(s) {
        Some(v) => if i32::MIN <= v <= i32::MAX {
            Some(v as i32)
        } else {
            None
        },
        None => None,
    }
}

/// The pair of `u32` that `s` writes as `<left><sep><right>`, if it does.
pub open spec fn pair_u32_of(s: Seq<char>, sep: char) -> Option<(u32, u32)> {
    match split_of(s, sep) {
        Some((l, r)) => match (u32_of(l), u32_of(r)) {
            (Some(a), Some(b)) => Some((a, b)),
            _ => None,
        },
        None => None,
    }
}

/// The pair of `i32` that `s` writes as `<left><sep><right>`, if it does.
pub open spec fn pair_i32_of(s: Seq<char>, sep: char) -> Option<(i32, i32)> {
    match split_of(s, sep) {
        Some((l, r)) => match (i32_of(l), i32_of(r)) {
            (Some(a), Some(b)) => Some((a, b)),
            _ => None,
        },
        None => None,
    }
}

/// Relies on `<u32 as FromStr>::from_str`: it accepts exactly an optional
/// `+` followed by one or more ASCII digits whose value fits a `u32`.
#[verifier::external_body]
fn parse_u32(s: &str) -> (r: Option<u32>)
    ensures
        r == u32_of(s@),
{
    s.parse::<u32>().ok()
}

/// Relies on `<i32 as FromStr>::from_str`: it accepts exactly an optional
/// `+` or `-` followed by one or more ASCII digits whose value fits an `i32`.
#[verifier::external_body]
fn parse_i32(s: &str) -> (r: Option<i32>)
    ensures
        r == i32_of(s@),
{
    s.parse::<i32>().ok()
}

/// Whether two strings hold the same characters.
fn same_text(a: &str, b: &str) -> (r: bool)
    ensures
        r == (a@ == b@),
{
    let n = a.unicode_len();
    if n != b.unicode_len() {
        return false;
    }
    let mut i: usize = 0;
    while i < n
        invariant
            n == a@.len(),
            n == b@.len(),
            i <= n,
            forall|j: int| 0 <= j < i ==> a@[j] == b@[j],
        decreases n - i,
    {
        if a.get_char(i) != b.get_char(i) {
            return false;
        }
        i += 1;
    }
    assert(a@ =~= b@);
    true
}

/// Reads the render mode word: `Multi` or `Single`; anything else is no
/// mode.
pub fn parse_multi(arg: &str) -> (r: Option<bool>)
    ensures
        r == mode_of(arg@),
{
    if same_text(arg, "Multi") {
        Some(true)
    } else if same_text(arg, "Single") {
        Some(false)
    } else {
        None
    }
}

/// Cuts `s` at the first `separator` into the text before it and the text
/// after it; `None` when `s` holds no `separator`.
pub fn split_pair<'a>(s: &'a str, separator: char) -> (r: Option<(&'a str, &'a str)>)
    ensures
        pair_view(r) == split_of(s@, separator),
{
    let n = s.unicode_len();
    let mut i: usize = 0;
    while i < n
        invariant
            n == s@.len(),
            i <= n,
            forall|j: int| 0 <= j < i ==> s@[j] != separator,
        decreases n - i,
    {
        if s.get_char(i) == separator {
            proof {
                assert(is_first_index(s@, separator, i as int));
                let k = choose|k: int| is_first_index(s@, separator, k);
                assert(k == i) by {
                    if k < i {
                        assert(s@[k] != separator);
                    } else if k > i {
                        assert(s@[i as int] != separator);
                    }
                }
            }
            return Some((s.substring_char(0, i), s.substring_char(i + 1, n)));
        }
        i += 1;
    }
    proof {
        assert forall|k: int| !is_first_index(s@, separator, k) by {
            if is_first_index(s@, separator, k) {
                assert(s@[k] != separator);
            }
        }
    }
    None
}

/// Reads `<left><separator><right>` with both sides a `u32`.
pub fn parse_pair_u32(s: &str, separator: char) -> (r: Option<(u32, u32)>)
    ensures
        r == pair_u32_of(s@, separator),
{
    match split_pair(s, separator) {
        None => None,
        Some((left, right)) => match (parse_u32(left), parse_u32(right)) {
            (Some(l), Some(r)) => Some((l, r)),
            _ => None,
        },
    }
}

/// Reads `<left><separator><right>` with both sides an `i32`.
pub fn parse_pair_i32(s: &str, separator: char) -> (r: Option<(i32, i32)>)
    ensures
        r == pair_i32_of(s@, separator),
{
    match split_pair(s, separator) {
        None => None,
        Some((left, right)) => match (parse_i32(left), parse_i32(right)) {
            (Some(l), Some(r)) => Some((l, r)),
            _ => None,
        },
    }
}

} // verus!
