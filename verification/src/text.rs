//! Text helpers: decimal numerals, tests for a prefix or a suffix, and the
//! replacement of a pattern, all stated over sequences of characters.

use vstd::prelude::*;

verus! {

/// The character of one decimal digit.
pub open spec fn digit_char(d: nat) -> char {
    if d == 0 {
        '0'
    } else if d == 1 {
        '1'
    } else if d == 2 {
        '2'
    } else if d == 3 {
        '3'
    } else if d == 4 {
        '4'
    } else if d == 5 {
        '5'
    } else if d == 6 {
        '6'
    } else if d == 7 {
        '7'
    } else if d == 8 {
        '8'
    } else {
        '9'
    }
}

/// The decimal numeral of `n`, most significant digit first, without
/// leading zeros.
pub open spec fn decimal(n: nat) -> Seq<char>
    decreases n,
{
    if n < 10 {
        seq![digit_char(n)]
    } else {
        decimal(n / 10).push(digit_char(n % 10))
    }
}

/// `text` begins with `prefix`.
pub open spec fn is_prefix(prefix: Seq<char>, text: Seq<char>) -> bool {
    prefix.len() <= text.len() && text.subrange(0, prefix.len() as int) == prefix
}

/// `text` with every occurrence of `pattern` replaced by `with`. The
/// occurrences are found from left to right and do not overlap. An empty
/// pattern occurs nowhere.
pub open spec fn replace_all(text: Seq<char>, pattern: Seq<char>, with: Seq<char>) -> Seq<char>
    decreases text.len(),
{
    if pattern.len() == 0 || text.len() < pattern.len() {
        text
    } else if is_prefix(pattern, text) {
        with + replace_all(text.skip(pattern.len() as int), pattern, with)
    } else {
        seq![text[0]] + replace_all(text.skip(1), pattern, with)
    }
}

/// `text` ends with `suffix`.
pub open spec fn is_suffix(text: Seq<char>, suffix: Seq<char>) -> bool {
    suffix.len() <= text.len() && text.subrange(text.len() - suffix.len(), text.len() as int)
        == suffix
}

/// The text of one decimal digit.
fn digit_str(d: u8) -> (r: &'static str)
    requires
        d < 10,
    ensures
        r@ == seq![digit_char(d as nat)],
{
    proof {
        reveal_strlit("0");
        reveal_strlit("1");
        reveal_strlit("2");
        reveal_strlit("3");
        reveal_strlit("4");
        reveal_strlit("5");
        reveal_strlit("6");
        reveal_strlit("7");
        reveal_strlit("8");
        reveal_strlit("9");
    }
    let r = if d == 0 {
        "0"
    } else if d == 1 {
        "1"
    } else if d == 2 {
        "2"
    } else if d == 3 {
        "3"
    } else if d == 4 {
        "4"
    } else if d == 5 {
        "5"
    } else if d == 6 {
        "6"
    } else if d == 7 {
        "7"
    } else if d == 8 {
        "8"
    } else {
        "9"
    };
    assert(r@ =~= seq![digit_char(d as nat)]);
    r
}

/// Appends the decimal numeral of `n` to `out`.
pub fn append_decimal(out: &mut String, n: u128)
    ensures
        final(out)@ == old(out)@ + decimal(n as nat),
    decreases n,
{
    if n >= 10 {
        append_decimal(out, n / 10);
    }
    let d: u8 = (n % 10) as u8;
    out.append(digit_str(d));
    assert(final(out)@ =~= old(out)@ + decimal(n as nat));
}

/// The decimal numeral of `n`.
pub fn decimal_string(n: u128) -> (r: String)
    ensures
        r@ == decimal(n as nat),
{
    let mut out = String::new();
    append_decimal(&mut out, n);
    assert(out@ =~= decimal(n as nat));
    out
}

/// Whether two texts hold the same characters.
pub fn same_text(a: &str, b: &str) -> (r: bool)
    ensures
        r == (a@ == b@),
{
    let same = a.to_owned() == b.to_owned();
    same
}

/// Whether `text` ends with `suffix`.
pub fn ends_with(text: &str, suffix: &str) -> (r: bool)
    ensures
        r == is_suffix(text@, suffix@),
{
    let n = text.unicode_len();
    let k = suffix.unicode_len();
    if n < k {
        return false;
    }
    same_text(text.substring_char(n - k, n), suffix)
}

/// Whether `text` begins with `prefix`.
pub fn starts_with(text: &str, prefix: &str) -> (r: bool)
    ensures
        r == is_prefix(prefix@, text@),
{
    let n = text.unicode_len();
    let k = prefix.unicode_len();
    if n < k {
        return false;
    }
    same_text(text.substring_char(0, k), prefix)
}

/// Whether `pattern` stands in `text` at position `at`.
fn occurs_at(text: &Vec<char>, pattern: &Vec<char>, at: usize) -> (r: bool)
    requires
        at + pattern.len() <= text.len(),
    ensures
        r == is_prefix(pattern@, text@.skip(at as int)),
{
    let mut j: usize = 0;
    while j < pattern.len()
        invariant
            j <= pattern.len(),
            at + pattern.len() <= text.len(),
            forall|m: int| 0 <= m < j ==> text@[at + m] == pattern@[m],
        decreases pattern.len() - j,
    {
        if text[at + j] != pattern[j] {
            assert(text@.skip(at as int).subrange(0, pattern@.len() as int)[j as int]
                != pattern@[j as int]);
            return false;
        }
        j += 1;
    }
    assert(text@.skip(at as int).subrange(0, pattern@.len() as int) =~= pattern@);
    true
}

/// `text` with every occurrence of `pattern` replaced by `with`.
pub fn replace(text: &str, pattern: &str, with: &str) -> (r: String)
    ensures
        r@ == replace_all(text@, pattern@, with@),
{
    let chars = chars_of(text);
    let wanted = chars_of(pattern);
    let n = chars.len();
    let k = wanted.len();
    if k == 0 || n < k {
        return String::from_str(text);
    }
    let mut out = String::new();
    let mut copied: usize = 0;
    let mut i: usize = 0;
    assert(text@.skip(0) =~= text@);
    while i <= n - k
        invariant
            chars@ == text@,
            wanted@ == pattern@,
            n == chars.len(),
            k == wanted.len(),
            0 < k <= n,
            copied <= i <= n,
            replace_all(text@, pattern@, with@) == out@ + text@.subrange(
                copied as int,
                i as int,
            ) + replace_all(text@.skip(i as int), pattern@, with@),
        decreases n - i,
    {
        let ghost rest = text@.skip(i as int);
        if occurs_at(&chars, &wanted, i) {
            out.append(text.substring_char(copied, i));
            out.append(with);
            assert(rest.skip(k as int) =~= text@.skip(i + k));
            i += k;
            copied = i;
            assert(text@.subrange(copied as int, i as int) =~= Seq::<char>::empty());
        } else {
            assert(rest.skip(1) =~= text@.skip(i + 1));
            assert(text@.subrange(copied as int, i as int) + seq![rest[0]] =~= text@.subrange(
                copied as int,
                i + 1,
            ));
            i += 1;
        }
    }
    out.append(text.substring_char(copied, n));
    assert(text@.subrange(copied as int, i as int) + text@.skip(i as int) =~= text@.subrange(
        copied as int,
        n as int,
    ));
    out
}

/// The characters of a text.
pub fn chars_of(text: &str) -> (r: Vec<char>)
    ensures
        r@ == text@,
{
    let mut out: Vec<char> = Vec::new();
    for c in it: text.chars()
        invariant
            out@ == it.seq().take(it.index()),
    {
        out.push(c);
    }
    out
}

/// A text in which the pattern does not occur at any place is left as it
/// is.
pub proof fn lemma_replace_without_occurrence(
    text: Seq<char>,
    pattern: Seq<char>,
    with: Seq<char>,
)
    requires
        forall|i: int| 0 <= i <= text.len() ==> !is_prefix(pattern, #[trigger] text.skip(i)),
    ensures
        replace_all(text, pattern, with) == text,
    decreases text.len(),
{
    if pattern.len() == 0 || text.len() < pattern.len() {
    } else {
        assert(text.skip(0) =~= text);
        let rest = text.skip(1);
        assert forall|i: int| 0 <= i <= rest.len() implies !is_prefix(
            pattern,
            #[trigger] rest.skip(i),
        ) by {
            assert(rest.skip(i) =~= text.skip(i + 1));
        }
        lemma_replace_without_occurrence(rest, pattern, with);
        assert(seq![text[0]] + rest =~= text);
    }
}

} // verus!
