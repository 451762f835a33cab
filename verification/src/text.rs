//! Verified text helpers: ASCII digit parsing and rendering, whitespace
//! trimming, and string equality, used by id resolution, rate-limit
//! handling and URL building.

use vstd::prelude::*;

verus! {

/// True for the ASCII decimal digits `'0'` through `'9'`.
pub open spec fn is_ascii_digit(c: char) -> bool {
    48 <= c as u32 <= 57
}

/// Numeric value of an ASCII digit.
pub open spec fn digit_value(c: char) -> int {
    c as u32 - 48
}

/// True when every character of `s` is an ASCII decimal digit.
pub open spec fn is_digit_seq(s: Seq<char>) -> bool {
    forall|i: int| 0 <= i < s.len() ==> is_ascii_digit(#[trigger] s[i])
}

/// Value of a sequence of ASCII digits read as a base-10 number.
pub open spec fn digits_value(s: Seq<char>) -> int
    decreases s.len(),
{
    if s.len() == 0 {
        0
    } else {
        digits_value(s.drop_last()) * 10 + digit_value(s.last())
    }
}

/// A digit sequence never denotes a negative number.
pub proof fn lemma_digits_value_nonneg(s: Seq<char>)
    requires
        is_digit_seq(s),
    ensures
        digits_value(s) >= 0,
    decreases s.len(),
{
    if s.len() > 0 {
        assert(is_digit_seq(s.drop_last()));
        lemma_digits_value_nonneg(s.drop_last());
    }
}

/// Extending a digit sequence on the right never decreases its value.
pub proof fn lemma_digits_value_prefix_le(s: Seq<char>, i: int)
    requires
        is_digit_seq(s),
        0 <= i <= s.len(),
    ensures
        digits_value(s.take(i)) <= digits_value(s),
    decreases s.len() - i,
{
    if i < s.len() {
        lemma_digits_value_prefix_le(s, i + 1);
        assert(s.take(i + 1).drop_last() =~= s.take(i));
        assert(is_digit_seq(s.take(i + 1)));
        lemma_digits_value_nonneg(s.take(i));
        assert(digits_value(s.take(i + 1)) == digits_value(s.take(i)) * 10 + digit_value(
            s.take(i + 1).last(),
        ));
    } else {
        assert(s.take(i) =~= s);
    }
}

/// The ASCII digit character for a value below ten.
pub open spec fn digit_char(d: int) -> char {
    if d == 0 {
        '0'
    } else if d == 1 {
        '1'
    } else if d == 2 {
        '2'
    } else if d == 3 {
        '3'
    } else if d == 4 {
        '4'
    } else if d == 5 {
        '5'
    } else if d == 6 {
        '6'
    } else if d == 7 {
        '7'
    } else if d == 8 {
        '8'
    } else {
        '9'
    }
}

/// The decimal digits of a non-negative number, most significant first.
pub open spec fn dec_str(n: int) -> Seq<char>
    decreases n,
{
    if n < 10 {
        seq![digit_char(n)]
    } else {
        dec_str(n / 10) + seq![digit_char(n % 10)]
    }
}

/// The decimal rendering of an integer: the digits, with a leading minus
/// sign when the number is negative.
pub open spec fn int_str(n: int) -> Seq<char> {
    if n < 0 {
        seq!['-'] + dec_str(-n)
    } else {
        dec_str(n)
    }
}

fn digit_str(d: u32) -> (r: &'static str)
    requires
        d < 10,
    ensures
        r@ =~= seq![digit_char(d as int)],
{
    proof {
        reveal_strlit("0");
        reveal_strlit("1");
        reveal_strlit("2");
        reveal_strlit("3");
        reveal_strlit("4");
        reveal_strlit("5");
        reveal_strlit("6");
        reveal_strlit("7");
        reveal_strlit("8");
        reveal_strlit("9");
    }
    match d {
        0 => "0",
        1 => "1",
        2 => "2",
        3 => "3",
        4 => "4",
        5 => "5",
        6 => "6",
        7 => "7",
        8 => "8",
        _ => "9",
    }
}

fn push_decimal(n: u32, out: &mut String)
    ensures
        final(out)@ == old(out)@ + dec_str(n as int),
    decreases n,
{
    if n >= 10 {
        push_decimal(n / 10, out);
    }
    out.append(digit_str(n % 10));
    proof {
        if n < 10 {
            assert(old(out)@ + seq![digit_char(n as int)] =~= out@);
        } else {
            assert(old(out)@ + dec_str(n as int) =~= out@);
        }
    }
}

/// Renders an integer in decimal.
pub fn decimal_string(n: i32) -> (r: String)
    ensures
        r@ == int_str(n as int),
{
    let mut out = String::new();
    if n < 0 {
        proof {
            reveal_strlit("-");
        }
        out.append("-");
        let magnitude: u32 = if n == i32::MIN {
            2147483648u32
        } else {
            (-n) as u32
        };
        push_decimal(magnitude, &mut out);
        proof {
            assert(out@ =~= seq!['-'] + dec_str(-(n as int)));
        }
    } else {
        push_decimal(n as u32, &mut out);
        proof {
            assert(out@ =~= dec_str(n as int));
        }
    }
    out
}

/// Clones an optional string.
pub fn clone_opt_string(a: &Option<String>) -> (r: Option<String>)
    ensures
        r == *a,
{
    match a {
        Some(s) => Some(s.clone()),
        None => None,
    }
}

/// True for the ASCII whitespace characters: space, tab, line feed and
/// carriage return. Console input only ever carries these.
pub open spec fn is_ascii_whitespace(c: char) -> bool {
    c == ' ' || c == '\t' || c == '\n' || c == '\r'
}

/// `s` with leading whitespace removed.
pub open spec fn trim_front(s: Seq<char>) -> Seq<char>
    decreases s.len(),
{
    if s.len() > 0 && is_ascii_whitespace(s[0]) {
        trim_front(s.drop_first())
    } else {
        s
    }
}

/// `s` with trailing whitespace removed.
pub open spec fn trim_back(s: Seq<char>) -> Seq<char>
    decreases s.len(),
{
    if s.len() > 0 && is_ascii_whitespace(s.last()) {
        trim_back(s.drop_last())
    } else {
        s
    }
}

/// `s` with leading and trailing whitespace removed.
pub open spec fn trim_spec(s: Seq<char>) -> Seq<char> {
    trim_back(trim_front(s))
}

proof fn lemma_trim_front_range(s: Seq<char>, i: int)
    requires
        0 <= i <= s.len(),
        forall|j: int| 0 <= j < i ==> is_ascii_whitespace(#[trigger] s[j]),
        i < s.len() ==> !is_ascii_whitespace(s[i]),
    ensures
        trim_front(s) =~= s.subrange(i, s.len() as int),
    decreases s.len(),
{
    if s.len() > 0 && is_ascii_whitespace(s[0]) {
        lemma_trim_front_range(s.drop_first(), i - 1);
        assert(s.drop_first().subrange(i - 1, s.drop_first().len() as int) =~= s.subrange(
            i,
            s.len() as int,
        ));
    } else {
        assert(i == 0);
        assert(s.subrange(0, s.len() as int) =~= s);
    }
}

proof fn lemma_trim_back_range(s: Seq<char>, k: int)
    requires
        0 <= k <= s.len(),
        forall|j: int| k <= j < s.len() ==> is_ascii_whitespace(#[trigger] s[j]),
        k > 0 ==> !is_ascii_whitespace(s[k - 1]),
    ensures
        trim_back(s) =~= s.subrange(0, k),
    decreases s.len(),
{
    if s.len() > 0 && is_ascii_whitespace(s.last()) {
        assert(k < s.len());
        lemma_trim_back_range(s.drop_last(), k);
        assert(s.drop_last().subrange(0, k) =~= s.subrange(0, k));
    } else {
        assert(k == s.len());
        assert(s.subrange(0, s.len() as int) =~= s);
    }
}

/// Removes leading and trailing ASCII whitespace from `s`.
pub fn trim_ascii(s: &str) -> (r: String)
    ensures
        r@ == trim_spec(s@),
{
    let n = s.unicode_len();
    let mut start: usize = 0;
    while start < n && check_ascii_whitespace(s.get_char(start))
        invariant
            n == s@.len(),
            0 <= start <= n,
            forall|j: int| 0 <= j < start ==> is_ascii_whitespace(#[trigger] s@[j]),
        decreases n - start,
    {
        start = start + 1;
    }
    let mut end: usize = n;
    while end > start && check_ascii_whitespace(s.get_char(end - 1))
        invariant
            n == s@.len(),
            start <= end <= n,
            forall|j: int| 0 <= j < start ==> is_ascii_whitespace(#[trigger] s@[j]),
            start < n ==> !is_ascii_whitespace(s@[start as int]),
            forall|j: int| end <= j < n ==> is_ascii_whitespace(#[trigger] s@[j]),
        decreases end,
    {
        end = end - 1;
    }
    let piece = s.substring_char(start, end);
    proof {
        lemma_trim_front_range(s@, start as int);
        if start == end {
            assert(trim_back(s@.subrange(start as int, n as int)) =~= s@.subrange(
                start as int,
                end as int,
            ));
        } else {
            lemma_trim_back_range(
                s@.subrange(start as int, n as int),
                end - start,
            );
            assert(s@.subrange(start as int, n as int).subrange(0, end - start) =~= s@.subrange(
                start as int,
                end as int,
            ));
        }
    }
    String::from_str(piece)
}

/// Checks whether `c` is ASCII whitespace.
pub fn check_ascii_whitespace(c: char) -> (r: bool)
    ensures
        r == is_ascii_whitespace(c),
{
    c == ' ' || c == '\t' || c == '\n' || c == '\r'
}

/// Compares two string slices character by character.
pub fn str_eq(a: &str, b: &str) -> (r: bool)
    ensures
        r == (a@ == b@),
{
    let na = a.unicode_len();
    let nb = b.unicode_len();
    if na != nb {
        return false;
    }
    let mut i: usize = 0;
    while i < na
        invariant
            na == a@.len(),
            nb == b@.len(),
            na == nb,
            0 <= i <= na,
            forall|j: int| 0 <= j < i ==> a@[j] == b@[j],
        decreases na - i,
    {
        if a.get_char(i) != b.get_char(i) {
            return false;
        }
        i = i + 1;
    }
    proof {
        assert(a@ =~= b@);
    }
    true
}

/// Checks whether `c` is an ASCII decimal digit.
pub fn check_ascii_digit(c: char) -> (r: bool)
    ensures
        r == is_ascii_digit(c),
{
    let u = c as u32;
    48 <= u && u <= 57
}

/// Parses a non-empty, all-digit string as a non-negative `i32`.
///
/// Returns `None` when `s` is empty, holds any non-digit character, or
/// denotes a value above `i32::MAX`.
pub fn parse_nonneg_i32(s: &str) -> (r: Option<i32>)
    ensures
        r == (if is_digit_seq(s@) && s@.len() > 0 && digits_value(s@) <= i32::MAX {
            Some(digits_value(s@) as i32)
        } else {
            None::<i32>
        }),
{
    let n = s.unicode_len();
    if n == 0 {
        return None;
    }
    let mut acc: i64 = 0;
    let mut i: usize = 0;
    while i < n
        invariant
            n == s@.len(),
            0 <= i <= n,
            is_digit_seq(s@.take(i as int)),
            acc == digits_value(s@.take(i as int)),
            0 <= acc <= i32::MAX,
        decreases n - i,
    {
        let c = s.get_char(i);
        if !check_ascii_digit(c) {
            return None;
        }
        let d = (c as u32 - 48) as i64;
        acc = acc * 10 + d;
        proof {
            assert(s@.take(i + 1).drop_last() =~= s@.take(i as int));
            assert(acc == digits_value(s@.take(i + 1)));
        }
        i = i + 1;
        if acc > i32::MAX as i64 {
            proof {
                if is_digit_seq(s@) {
                    lemma_digits_value_prefix_le(s@, i as int);
                }
            }
            return None;
        }
    }
    proof {
        assert(s@.take(n as int) =~= s@);
    }
    Some(acc as i32)
}

} // verus!
