//! Text building blocks shared by the commands: decimal numerals, the last
//! segment of a `/`-separated name, and suffix handling.

use vstd::prelude::*;
use vstd::string::*;

verus! {

/// The character that writes the digit `d`.
pub open spec fn digit_char(d: nat) -> char
    recommends
        d < 10,
{
    if d == 0 {
        '0'
    } else if d == 1 {
        '1'
    } else if d == 2 {
        '2'
    } else if d == 3 {
        '3'
    } else if d == 4 {
        '4'
    } else if d == 5 {
        '5'
    } else if d == 6 {
        '6'
    } else if d == 7 {
        '7'
    } else if d == 8 {
        '8'
    } else {
        '9'
    }
}

/// The decimal numeral of `n`, without sign or leading zeros.
pub open spec fn decimal(n: nat) -> Seq<char>
    decreases n,
{
    if n < 10 {
        seq![digit_char(n)]
    } else {
        decimal(n / 10).push(digit_char(n % 10))
    }
}

/// The one-character text of a digit.
fn digit_text(d: u8) -> (s: &'static str)
    requires
        d < 10,
    ensures
        s@ == seq![digit_char(d as nat)],
{
    proof {
        reveal_strlit("0");
        reveal_strlit("1");
        reveal_strlit("2");
        reveal_strlit("3");
        reveal_strlit("4");
        reveal_strlit("5");
        reveal_strlit("6");
        reveal_strlit("7");
        reveal_strlit("8");
        reveal_strlit("9");
    }
    let s = if d == 0 {
        "0"
    } else if d == 1 {
        "1"
    } else if d == 2 {
        "2"
    } else if d == 3 {
        "3"
    } else if d == 4 {
        "4"
    } else if d == 5 {
        "5"
    } else if d == 6 {
        "6"
    } else if d == 7 {
        "7"
    } else if d == 8 {
        "8"
    } else {
        "9"
    };
    assert(s@ =~= seq![digit_char(d as nat)]);
    s
}

/// Appends the decimal numeral of `n` to `out`.
pub fn append_decimal(out: &mut String, n: u128)
    ensures
        final(out)@ == old(out)@ + decimal(n as nat),
    decreases n,
{
    if n >= 10 {
        append_decimal(out, n / 10);
    }
    let d: u8 = (n % 10) as u8;
    out.append(digit_text(d));
    assert(out@ =~= old(out)@ + decimal(n as nat));
}

/// The decimal numeral of `n` as a new string.
pub fn decimal_string(n: u128) -> (s: String)
    ensures
        s@ == decimal(n as nat),
{
    let mut s = String::new();
    append_decimal(&mut s, n);
    assert(s@ =~= decimal(n as nat));
    s
}

/// Where the last segment of `s` begins: just behind the last `sep`, or at 0
/// where `s` holds no `sep`.
pub open spec fn last_segment_start(s: Seq<char>, sep: char) -> int
    decreases s.len(),
{
    if s.len() == 0 {
        0
    } else if s.last() == sep {
        s.len() as int
    } else {
        last_segment_start(s.drop_last(), sep)
    }
}

/// What follows the last `sep` in `s`; all of `s` where it holds none.
pub open spec fn last_segment(s: Seq<char>, sep: char) -> Seq<char> {
    s.skip(last_segment_start(s, sep))
}

/// `last_segment_start` is the one position that has no `sep` behind it and
/// either is 0 or stands right behind a `sep`.
pub proof fn lemma_last_segment_start(s: Seq<char>, sep: char, k: int)
    requires
        0 <= k <= s.len(),
        forall|j: int| k <= j < s.len() ==> s[j] != sep,
        k == 0 || s[k - 1] == sep,
    ensures
        last_segment_start(s, sep) == k,
    decreases s.len(),
{
    if s.len() == 0 {
    } else if s.last() == sep {
        assert(s[s.len() - 1] == sep);
    } else {
        if k == s.len() {
            assert(s[k - 1] == sep);
        }
        lemma_last_segment_start(s.drop_last(), sep, k);
    }
}

/// The last segment holds no separator, and the text before it is empty or
/// ends in one.
pub proof fn lemma_last_segment_bounds(s: Seq<char>, sep: char)
    ensures
        0 <= last_segment_start(s, sep) <= s.len(),
        forall|j: int| last_segment_start(s, sep) <= j < s.len() ==> s[j] != sep,
        last_segment_start(s, sep) == 0 || s[last_segment_start(s, sep) - 1] == sep,
        !last_segment(s, sep).contains(sep),
    decreases s.len(),
{
    let k = last_segment_start(s, sep);
    if s.len() == 0 {
    } else if s.last() == sep {
    } else {
        let t = s.drop_last();
        lemma_last_segment_bounds(t, sep);
        assert forall|j: int| k <= j < s.len() implies s[j] != sep by {
            if j < t.len() {
                assert(t[j] == s[j]);
            }
        }
        if k > 0 {
            assert(t[k - 1] == s[k - 1]);
        }
    }
    assert forall|j: int| 0 <= j < last_segment(s, sep).len() implies last_segment(s, sep)[j]
        != sep by {
        assert(last_segment(s, sep)[j] == s[k + j]);
    }
}

/// Whether `s` ends with `suffix`.
pub open spec fn ends_with<T>(s: Seq<T>, suffix: Seq<T>) -> bool {
    suffix.len() <= s.len() && s.skip(s.len() - suffix.len()) == suffix
}

/// `s` without `suffix` where it ends with it, else `s` itself.
pub open spec fn without_suffix(s: Seq<char>, suffix: Seq<char>) -> Seq<char> {
    if ends_with(s, suffix) {
        s.take(s.len() - suffix.len())
    } else {
        s
    }
}

/// The text behind the last `sep` of `s`.
pub fn last_segment_of<'a>(s: &'a str, sep: char) -> (r: &'a str)
    ensures
        r@ == last_segment(s@, sep),
{
    let len = s.unicode_len();
    let mut i: usize = len;
    while i > 0 && s.get_char(i - 1) != sep
        invariant
            i <= len,
            len == s@.len(),
            forall|j: int| i <= j < len ==> s@[j] != sep,
        decreases i,
    {
        i = i - 1;
    }
    proof {
        lemma_last_segment_start(s@, sep, i as int);
    }
    let r = s.substring_char(i, len);
    assert(r@ =~= last_segment(s@, sep));
    r
}

/// Tells whether `s` ends with `suffix`.
pub fn str_ends_with(s: &str, suffix: &str) -> (b: bool)
    ensures
        b == ends_with(s@, suffix@),
{
    let n = s.unicode_len();
    let m = suffix.unicode_len();
    if m > n {
        return false;
    }
    let off = n - m;
    let mut i: usize = 0;
    while i < m
        invariant
            i <= m,
            m <= n,
            off == n - m,
            n == s@.len(),
            m == suffix@.len(),
            forall|j: int| 0 <= j < i ==> s@[off + j] == suffix@[j],
        decreases m - i,
    {
        if s.get_char(off + i) != suffix.get_char(i) {
            proof {
                assert(s@.skip(n - m)[i as int] == s@[off + i]);
            }
            return false;
        }
        i = i + 1;
    }
    assert(s@.skip(n - m) =~= suffix@);
    true
}

/// `s` without `suffix` where it ends with it, else `s` itself.
pub fn strip_suffix_of<'a>(s: &'a str, suffix: &str) -> (r: &'a str)
    ensures
        r@ == without_suffix(s@, suffix@),
{
    if str_ends_with(s, suffix) {
        let n = s.unicode_len();
        let m = suffix.unicode_len();
        let r = s.substring_char(0, n - m);
        assert(r@ =~= s@.take(n - m));
        r
    } else {
        s
    }
}

/// The texts of a list of strings.
pub open spec fn texts(list: Seq<String>) -> Seq<Seq<char>> {
    Seq::new(list.len(), |i: int| list[i]@)
}

/// A copy of a list of strings.
pub fn copy_texts(list: &Vec<String>) -> (copy: Vec<String>)
    ensures
        texts(copy@) == texts(list@),
{
    let mut copy: Vec<String> = Vec::new();
    let mut i: usize = 0;
    while i < list.len()
        invariant
            i <= list@.len(),
            copy@.len() == i,
            forall|j: int| 0 <= j < i ==> copy@[j]@ == list@[j]@,
        decreases list@.len() - i,
    {
        copy.push(list[i].clone());
        i = i + 1;
    }
    assert(texts(copy@) =~= texts(list@));
    copy
}

} // verus!
