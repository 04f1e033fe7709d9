//! Plain-text building blocks: numbers, ordinals, month names and small
//! string tests.
use vstd::prelude::*;

verus! {

/// The text of one decimal digit.
pub open spec fn digit_text(d: nat) -> Seq<char> {
    if d == 0 {
        "0"@
    } else if d == 1 {
        "1"@
    } else if d == 2 {
        "2"@
    } else if d == 3 {
        "3"@
    } else if d == 4 {
        "4"@
    } else if d == 5 {
        "5"@
    } else if d == 6 {
        "6"@
    } else if d == 7 {
        "7"@
    } else if d == 8 {
        "8"@
    } else {
        "9"@
    }
}

/// The decimal digits of `n`, most significant first, without leading zeros.
pub open spec fn nat_text(n: nat) -> Seq<char>
    decreases n,
{
    if n < 10 {
        digit_text(n)
    } else {
        nat_text(n / 10) + digit_text(n % 10)
    }
}

/// The decimal text of an integer, with a leading `-` when it is negative.
pub open spec fn int_text(n: int) -> Seq<char> {
    if n < 0 {
        "-"@ + nat_text((-n) as nat)
    } else {
        nat_text(n as nat)
    }
}

fn digit_str(d: u64) -> (r: &'static str)
    requires
        d < 10,
    ensures
        r@ == digit_text(d as nat),
{
    if d == 0 {
        "0"
    } else if d == 1 {
        "1"
    } else if d == 2 {
        "2"
    } else if d == 3 {
        "3"
    } else if d == 4 {
        "4"
    } else if d == 5 {
        "5"
    } else if d == 6 {
        "6"
    } else if d == 7 {
        "7"
    } else if d == 8 {
        "8"
    } else {
        "9"
    }
}

/// Renders an unsigned number in decimal.
pub fn nat_to_text(n: u64) -> (r: String)
    ensures
        r@ == nat_text(n as nat),
    decreases n,
{
    if n < 10 {
        String::from_str(digit_str(n))
    } else {
        let mut s = nat_to_text(n / 10);
        s.append(digit_str(n % 10));
        s
    }
}

/// Renders a signed number in decimal.
pub fn int_to_text(n: i64) -> (r: String)
    ensures
        r@ == int_text(n as int),
{
    if n < 0 {
        let m: u64 = ((-(n + 1)) as u64) + 1;
        let mut s = String::from_str("-");
        let t = nat_to_text(m);
        s.append(t.as_str());
        s
    } else {
        nat_to_text(n as u64)
    }
}

/// The English ordinal suffix of `n`: "th" for 11 to 13 (mod 100), else by the
/// last digit.
pub open spec fn ordinal_suffix(n: nat) -> Seq<char> {
    if 11 <= n % 100 && n % 100 <= 13 {
        "th"@
    } else if n % 10 == 1 {
        "st"@
    } else if n % 10 == 2 {
        "nd"@
    } else if n % 10 == 3 {
        "rd"@
    } else {
        "th"@
    }
}

/// The English ordinal of `n`, such as "2nd" or "13th".
pub open spec fn ordinal_text(n: nat) -> Seq<char> {
    nat_text(n) + ordinal_suffix(n)
}

/// Renders `n` as an English ordinal.
pub fn ordinal(n: u64) -> (r: String)
    ensures
        r@ == ordinal_text(n as nat),
{
    let mut s = nat_to_text(n);
    let h = n % 100;
    let suffix = if 11 <= h && h <= 13 {
        "th"
    } else if n % 10 == 1 {
        "st"
    } else if n % 10 == 2 {
        "nd"
    } else if n % 10 == 3 {
        "rd"
    } else {
        "th"
    };
    s.append(suffix);
    s
}

/// The abbreviated English name of a zero-based month, with a period after
/// every name but "May"; none past December.
pub open spec fn month_abbr_text(m: nat) -> Option<Seq<char>> {
    if m == 0 {
        Some("Jan."@)
    } else if m == 1 {
        Some("Feb."@)
    } else if m == 2 {
        Some("Mar."@)
    } else if m == 3 {
        Some("Apr."@)
    } else if m == 4 {
        Some("May"@)
    } else if m == 5 {
        Some("Jun."@)
    } else if m == 6 {
        Some("Jul."@)
    } else if m == 7 {
        Some("Aug."@)
    } else if m == 8 {
        Some("Sep."@)
    } else if m == 9 {
        Some("Oct."@)
    } else if m == 10 {
        Some("Nov."@)
    } else if m == 11 {
        Some("Dec."@)
    } else {
        None
    }
}

/// Looks up the abbreviated name of a zero-based month.
pub fn month_abbr(m: u8) -> (r: Option<&'static str>)
    ensures
        match r {
            Some(s) => month_abbr_text(m as nat) == Some(s@),
            None => month_abbr_text(m as nat) is None,
        },
{
    if m == 0 {
        Some("Jan.")
    } else if m == 1 {
        Some("Feb.")
    } else if m == 2 {
        Some("Mar.")
    } else if m == 3 {
        Some("Apr.")
    } else if m == 4 {
        Some("May")
    } else if m == 5 {
        Some("Jun.")
    } else if m == 6 {
        Some("Jul.")
    } else if m == 7 {
        Some("Aug.")
    } else if m == 8 {
        Some("Sep.")
    } else if m == 9 {
        Some("Oct.")
    } else if m == 10 {
        Some("Nov.")
    } else if m == 11 {
        Some("Dec.")
    } else {
        None
    }
}

/// Whether `s` ends with `suffix`.
pub open spec fn ends_with(s: Seq<char>, suffix: Seq<char>) -> bool {
    suffix.len() <= s.len() && s.subrange(s.len() - suffix.len(), s.len() as int) == suffix
}

/// Whether `needle` occurs somewhere in `hay`.
pub open spec fn contains(hay: Seq<char>, needle: Seq<char>) -> bool {
    exists|i: int|
        0 <= i && i + needle.len() <= hay.len() && #[trigger] hay.subrange(i, i + needle.len())
            == needle
}

/// Tests whether `s` ends with `suffix`.
pub fn str_ends_with(s: &str, suffix: &str) -> (r: bool)
    ensures
        r == ends_with(s@, suffix@),
{
    let n = s.unicode_len();
    let k = suffix.unicode_len();
    if k > n {
        false
    } else {
        let tail = String::from_str(s.substring_char(n - k, n));
        let want = String::from_str(suffix);
        tail == want
    }
}

/// Tests whether `needle` occurs in `hay`.
pub fn str_contains(hay: &str, needle: &str) -> (r: bool)
    ensures
        r == contains(hay@, needle@),
{
    let n = hay.unicode_len();
    let k = needle.unicode_len();
    if k > n {
        return false;
    }
    if k == 0 {
        assert(hay@.subrange(0int, 0int + needle@.len()) =~= needle@);
        return true;
    }
    let want = String::from_str(needle);
    let mut i: usize = 0;
    while i <= n - k
        invariant
            n == hay@.len(),
            k == needle@.len(),
            0 < k <= n,
            want@ == needle@,
            forall|j: int| 0 <= j < i ==> #[trigger] hay@.subrange(j, j + k) != needle@,
        decreases n - k + 1 - i,
    {
        let part = String::from_str(hay.substring_char(i, i + k));
        if part == want {
            return true;
        }
        i = i + 1;
    }
    false
}

/// Joins two strings.
pub fn cat(a: &str, b: &str) -> (r: String)
    ensures
        r@ == a@ + b@,
{
    let mut s = String::from_str(a);
    s.append(b);
    s
}

/// Joins three strings.
pub fn cat3(a: &str, b: &str, c: &str) -> (r: String)
    ensures
        r@ == a@ + b@ + c@,
{
    let mut s = String::from_str(a);
    s.append(b);
    s.append(c);
    s
}

/// Whether every character is an ASCII digit.
pub open spec fn all_digits(s: Seq<char>) -> bool {
    forall|i: int| 0 <= i < s.len() ==> '0' <= #[trigger] s[i] <= '9'
}

/// The value of a string of decimal digits.
pub open spec fn digits_value(s: Seq<char>) -> nat
    decreases s.len(),
{
    if s.len() == 0 {
        0
    } else {
        digits_value(s.drop_last()) * 10 + ((s.last() as u32 - '0' as u32) as nat)
    }
}

/// `s` without a leading `+`.
pub open spec fn unsigned_part(s: Seq<char>) -> Seq<char> {
    if s.len() > 0 && s[0] == '+' {
        s.drop_first()
    } else {
        s
    }
}

/// The unsigned 32-bit number that `s` spells: an optional `+`, then one or
/// more decimal digits whose value fits.
pub open spec fn parsed_u32(s: Seq<char>) -> Option<u32> {
    let d = unsigned_part(s);
    if d.len() > 0 && all_digits(d) && digits_value(d) <= u32::MAX {
        Some(digits_value(d) as u32)
    } else {
        None
    }
}

proof fn lemma_digits_value_grows(s: Seq<char>, k: int)
    requires
        0 <= k <= s.len(),
    ensures
        digits_value(s.subrange(0, k)) <= digits_value(s),
    decreases s.len() - k,
{
    if k < s.len() {
        lemma_digits_value_grows(s, k + 1);
        assert(s.subrange(0, k + 1).drop_last() =~= s.subrange(0, k));
    } else {
        assert(s.subrange(0, k) =~= s);
    }
}

/// Parses an unsigned 32-bit decimal number.
pub fn parse_u32(s: &str) -> (r: Option<u32>)
    ensures
        r == parsed_u32(s@),
{
    let n = s.unicode_len();
    let mut i: usize = 0;
    if n > 0 && s.get_char(0) == '+' {
        i = 1;
    }
    let ghost d = unsigned_part(s@);
    let start = i;
    assert(d =~= s@.subrange(start as int, n as int));
    if start == n {
        return None;
    }
    let mut value: u64 = 0;
    while i < n
        invariant
            n == s@.len(),
            start <= i <= n,
            d == s@.subrange(start as int, n as int),
            d == unsigned_part(s@),
            all_digits(s@.subrange(start as int, i as int)),
            value == digits_value(s@.subrange(start as int, i as int)),
            value <= u32::MAX,
        decreases n - i,
    {
        let c = s.get_char(i);
        let ghost pre = s@.subrange(start as int, i as int);
        let ghost next = s@.subrange(start as int, i + 1);
        assert(next.drop_last() =~= pre);
        if c < '0' || c > '9' {
            assert(d[i - start] == c);
            assert(!all_digits(d));
            return None;
        }
        assert(next.last() == c);
        value = value * 10 + (c as u32 - '0' as u32) as u64;
        assert(value == digits_value(next));
        i = i + 1;
        assert(all_digits(next)) by {
            assert forall|j: int| 0 <= j < next.len() implies '0' <= #[trigger] next[j] <= '9' by {
                if j < pre.len() {
                    assert(next[j] == pre[j]);
                }
            }
        }
        if value > 4294967295 {
            proof {
                lemma_digits_value_grows(d, i - start);
                assert(d.subrange(0, i - start) =~= next);
                assert(digits_value(d) > u32::MAX);
            }
            return None;
        }
    }
    assert(s@.subrange(start as int, n as int) =~= d);
    Some(value as u32)
}

} // verus!
