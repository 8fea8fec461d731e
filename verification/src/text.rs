//! Character-level helpers on strings: ASCII case folding, substring search,
//! decimal rendering and line joining, each with its specification.
use vstd::prelude::*;

verus! {

/// The code of a character after ASCII lowercasing: `A`..=`Z` become
/// `a`..=`z`, every other character is kept.
pub open spec fn lower_code(c: char) -> u32 {
    let u = c as u32;
    if 65 <= u && u <= 90 {
        (u + 32) as u32
    } else {
        u
    }
}

/// The codes of a string after ASCII lowercasing.
pub open spec fn lowered_codes(s: Seq<char>) -> Seq<u32> {
    s.map_values(|c: char| lower_code(c))
}

/// The codes of a string, unchanged.
pub open spec fn char_codes(s: Seq<char>) -> Seq<u32> {
    s.map_values(|c: char| c as u32)
}

/// `needle` occurs in `hay` starting at position `i`.
pub open spec fn occurs_at<A>(hay: Seq<A>, needle: Seq<A>, i: int) -> bool {
    &&& 0 <= i
    &&& i + needle.len() <= hay.len()
    &&& hay.subrange(i, i + needle.len()) == needle
}

/// `needle` occurs somewhere in `hay`.
pub open spec fn contains_seq<A>(hay: Seq<A>, needle: Seq<A>) -> bool {
    exists|i: int| occurs_at(hay, needle, i)
}

/// `needle` occurs in `hay` once `hay` is ASCII-lowercased.
pub open spec fn contains_ignoring_ascii_case(hay: Seq<char>, needle: Seq<char>) -> bool {
    contains_seq(lowered_codes(hay), char_codes(needle))
}

/// The character sequence of a string slice, collected into a vector.
pub fn chars_of(s: &str) -> (v: Vec<char>)
    ensures
        v@ == s@,
{
    let mut v: Vec<char> = Vec::new();
    for c in it: s.chars()
        invariant
            it.seq() == s@,
            v@ == it.seq().take(it.index() as int),
    {
        v.push(c);
    }
    v
}

fn lower_code_of(c: char) -> (r: u32)
    ensures
        r == lower_code(c),
{
    let u = c as u32;
    if 65 <= u && u <= 90 {
        u + 32
    } else {
        u
    }
}

/// Whether `needle` occurs at position `i` of the lowercased `hay`.
fn matches_at(hay: &Vec<char>, needle: &Vec<char>, i: usize) -> (r: bool)
    requires
        i + needle.len() <= hay.len(),
    ensures
        r == occurs_at(lowered_codes(hay@), char_codes(needle@), i as int),
{
    let ghost lh = lowered_codes(hay@);
    let ghost cn = char_codes(needle@);
    let mut j: usize = 0;
    while j < needle.len()
        invariant
            i + needle.len() <= hay.len(),
            j <= needle.len(),
            lh == lowered_codes(hay@),
            cn == char_codes(needle@),
            forall|k: int| 0 <= k < j ==> lh[i + k] == cn[k],
        decreases needle.len() - j,
    {
        if lower_code_of(hay[i + j]) != needle[j] as u32 {
            assert(lh.subrange(i as int, i + needle.len())[j as int] != cn[j as int]);
            return false;
        }
        j = j + 1;
    }
    assert(lh.subrange(i as int, i + needle.len()) =~= cn);
    true
}

/// Whether `needle` occurs in `hay` once `hay` is ASCII-lowercased.
pub fn contains_ignoring_case(hay: &Vec<char>, needle: &Vec<char>) -> (r: bool)
    ensures
        r == contains_ignoring_ascii_case(hay@, needle@),
{
    let ghost lh = lowered_codes(hay@);
    let ghost cn = char_codes(needle@);
    if needle.len() > hay.len() {
        assert forall|i: int| !occurs_at(lh, cn, i) by {}
        return false;
    }
    let last = hay.len() - needle.len();
    let mut i: usize = 0;
    while i < last
        invariant
            last == hay.len() - needle.len(),
            needle.len() <= hay.len(),
            i <= last,
            lh == lowered_codes(hay@),
            cn == char_codes(needle@),
            forall|k: int| 0 <= k < i ==> !occurs_at(lh, cn, k),
        decreases last - i,
    {
        if matches_at(hay, needle, i) {
            return true;
        }
        i = i + 1;
    }
    if matches_at(hay, needle, last) {
        return true;
    }
    assert forall|k: int| !occurs_at(lh, cn, k) by {}
    false
}


/// The decimal digit character for `d < 10`.
pub open spec fn digit_char(d: nat) -> char {
    if d == 0 {
        '0'
    } else if d == 1 {
        '1'
    } else if d == 2 {
        '2'
    } else if d == 3 {
        '3'
    } else if d == 4 {
        '4'
    } else if d == 5 {
        '5'
    } else if d == 6 {
        '6'
    } else if d == 7 {
        '7'
    } else if d == 8 {
        '8'
    } else {
        '9'
    }
}

/// The decimal rendering of a natural number, without sign or leading zeros.
pub open spec fn decimal(n: nat) -> Seq<char>
    decreases n,
{
    if n < 10 {
        seq![digit_char(n)]
    } else {
        decimal(n / 10).push(digit_char(n % 10))
    }
}

/// Rust's `Debug` rendering of a string: quoted, with escapes.
pub uninterp spec fn str_debug(s: Seq<char>) -> Seq<char>;

/// Renders `s` the way `{:?}` does; calls `format!` with the `Debug` impl of
/// `str`. The escaping rules are not restated here: the result is named
/// `str_debug` of the input.
#[verifier::external_body]
pub(crate) fn debug_quoted(s: &str) -> (r: String)
    ensures
        r@ == str_debug(s@),
{
    format!("{:?}", s)
}

/// Rust's `Debug` rendering of the path spelled by `s`: quoted, with escapes.
pub uninterp spec fn path_debug(s: Seq<char>) -> Seq<char>;

/// Renders the path `std::path::Path::new(s)` the way `{:?}` does; calls
/// `format!` with the `Debug` impl of `Path`. The escaping rules are not
/// restated here: the result is named `path_debug` of the input.
#[verifier::external_body]
pub(crate) fn debug_path(s: &str) -> (r: String)
    ensures
        r@ == path_debug(s@),
{
    format!("{:?}", std::path::Path::new(s))
}

fn digit_str(d: u64) -> (c: &'static str)
    requires
        d < 10,
    ensures
        c@ == seq![digit_char(d as nat)],
{
    if d == 0 {
        proof {
            reveal_strlit("0");
        }
        "0"
    } else if d == 1 {
        proof {
            reveal_strlit("1");
        }
        "1"
    } else if d == 2 {
        proof {
            reveal_strlit("2");
        }
        "2"
    } else if d == 3 {
        proof {
            reveal_strlit("3");
        }
        "3"
    } else if d == 4 {
        proof {
            reveal_strlit("4");
        }
        "4"
    } else if d == 5 {
        proof {
            reveal_strlit("5");
        }
        "5"
    } else if d == 6 {
        proof {
            reveal_strlit("6");
        }
        "6"
    } else if d == 7 {
        proof {
            reveal_strlit("7");
        }
        "7"
    } else if d == 8 {
        proof {
            reveal_strlit("8");
        }
        "8"
    } else {
        proof {
            reveal_strlit("9");
        }
        "9"
    }
}

/// Appends the decimal rendering of `n`.
pub fn push_decimal(s: &mut String, n: u64)
    ensures
        final(s)@ == old(s)@ + decimal(n as nat),
    decreases n,
{
    if n >= 10 {
        push_decimal(s, n / 10);
    }
    s.append(digit_str(n % 10));
}

/// The decimal rendering of `n`.
pub fn decimal_string(n: u64) -> (r: String)
    ensures
        r@ == decimal(n as nat),
{
    let mut s = String::new();
    push_decimal(&mut s, n);
    s
}

/// `a` followed by `b`.
pub fn concat(a: &str, b: &str) -> (r: String)
    ensures
        r@ == a@ + b@,
{
    let mut s = a.to_owned();
    s.append(b);
    s
}

/// Ten to the power `k`.
pub open spec fn pow10(k: nat) -> nat
    decreases k,
{
    if k == 0 {
        1
    } else {
        10 * pow10((k - 1) as nat)
    }
}

/// The digits of a fraction `f / (10 * 10^k)`, most significant first,
/// stopping as soon as the remaining fraction is zero (so without trailing
/// zeros).
pub open spec fn frac_digits(f: nat, k: nat) -> Seq<char>
    decreases k,
{
    if f == 0 {
        Seq::empty()
    } else if k == 0 {
        seq![digit_char(f)]
    } else {
        seq![digit_char(f / pow10(k))] + frac_digits(f % pow10(k), (k - 1) as nat)
    }
}

fn pow10_exec(k: u32) -> (p: u32)
    requires
        k <= 8,
    ensures
        p == pow10(k as nat),
{
    proof {
        reveal_with_fuel(pow10, 9);
    }
    if k == 0 {
        1
    } else if k == 1 {
        10
    } else if k == 2 {
        100
    } else if k == 3 {
        1_000
    } else if k == 4 {
        10_000
    } else if k == 5 {
        100_000
    } else if k == 6 {
        1_000_000
    } else if k == 7 {
        10_000_000
    } else {
        100_000_000
    }
}

/// Appends the fraction digits of `f / (10 * 10^k)`.
pub fn push_frac_digits(s: &mut String, f: u32, k: u32)
    requires
        k <= 8,
        f < 10 * pow10(k as nat),
    ensures
        final(s)@ == old(s)@ + frac_digits(f as nat, k as nat),
    decreases k,
{
    if f == 0 {
        return;
    }
    if k == 0 {
        s.append(digit_str(f as u64));
        return;
    }
    let d = pow10_exec(k);
    assert(d > 0) by {
        reveal_with_fuel(pow10, 9);
    }
    assert(f / d < 10) by (nonlinear_arith)
        requires
            f < 10 * d,
            d > 0,
    ;
    s.append(digit_str((f / d) as u64));
    assert(pow10(k as nat) == 10 * pow10((k - 1) as nat));
    push_frac_digits(s, f % d, k - 1);
}

} // verus!
