//! Text as sequences of characters: decimal numbers, prefixes, replacement.
use vstd::prelude::*;

verus! {

/// The character that stands for the digit `d`.
pub open spec fn digit(d: nat) -> char {
    (48 + d) as char
}

/// The decimal notation of `n`, without leading zeros.
pub open spec fn decimal(n: nat) -> Seq<char>
    decreases n,
{
    if n < 10 {
        seq![digit(n)]
    } else {
        decimal(n / 10).push(digit(n % 10))
    }
}

/// `s` with every match of `pat` replaced by `to`. Matches are looked for from left to right
/// and do not overlap.
pub open spec fn replaced(s: Seq<char>, pat: Seq<char>, to: Seq<char>) -> Seq<char>
    decreases s.len(),
{
    if pat.len() == 0 || s.len() < pat.len() {
        s
    } else if s.take(pat.len() as int) == pat {
        to + replaced(s.skip(pat.len() as int), pat, to)
    } else {
        seq![s[0]] + replaced(s.skip(1), pat, to)
    }
}

/// Whether `pat` occurs somewhere in `s`.
pub open spec fn occurs(s: Seq<char>, pat: Seq<char>) -> bool {
    exists|i: int| 0 <= i <= s.len() && pat.is_prefix_of(#[trigger] s.skip(i))
}

/// `parts`, one behind the other, with `separator` between two of them.
pub open spec fn joined(parts: Seq<Seq<char>>, separator: Seq<char>) -> Seq<char>
    decreases parts.len(),
{
    if parts.len() == 0 {
        Seq::empty()
    } else if parts.len() == 1 {
        parts[0]
    } else {
        joined(parts.drop_last(), separator) + separator + parts.last()
    }
}

/// Different numbers have different decimal notations.
pub proof fn law_decimal_tells_numbers_apart(a: nat, b: nat)
    requires
        decimal(a) == decimal(b),
    ensures
        a == b,
    decreases a,
{
    assert(decimal(a).last() == digit(a % 10));
    assert(decimal(b).last() == digit(b % 10));
    if a < 10 || b < 10 {
        lemma_decimal_not_empty(a / 10);
        lemma_decimal_not_empty(b / 10);
    } else {
        assert(decimal(a).drop_last() == decimal(a / 10));
        assert(decimal(b).drop_last() == decimal(b / 10));
        law_decimal_tells_numbers_apart(a / 10, b / 10);
    }
}

/// A decimal notation has at least one digit.
proof fn lemma_decimal_not_empty(n: nat)
    ensures
        decimal(n).len() > 0,
{
}

/// Replacing brings in no other characters than those of the replacement.
pub proof fn law_replaced_adds_no_char(s: Seq<char>, pat: Seq<char>, to: Seq<char>, c: char)
    requires
        !s.contains(c),
        !to.contains(c),
    ensures
        !replaced(s, pat, to).contains(c),
    decreases s.len(),
{
    if pat.len() == 0 || s.len() < pat.len() {
    } else if s.take(pat.len() as int) == pat {
        let rest = s.skip(pat.len() as int);
        assert forall|i: int| 0 <= i < rest.len() implies rest[i] != c by {
            assert(rest[i] == s[i + pat.len()]);
        }
        law_replaced_adds_no_char(rest, pat, to, c);
    } else {
        let rest = s.skip(1);
        assert forall|i: int| 0 <= i < rest.len() implies rest[i] != c by {
            assert(rest[i] == s[i + 1]);
        }
        law_replaced_adds_no_char(rest, pat, to, c);
    }
}

/// A character that is replaced by a text without it is gone.
pub proof fn law_replaced_char_is_gone(s: Seq<char>, c: char, to: Seq<char>)
    requires
        !to.contains(c),
    ensures
        !replaced(s, seq![c], to).contains(c),
    decreases s.len(),
{
    if s.len() > 0 {
        law_replaced_char_is_gone(s.skip(1), c, to);
        if s[0] == c {
            assert(s.take(1) == seq![c]);
        } else {
            assert(s.take(1)[0] != seq![c][0]);
        }
    }
}

/// Where there is no match, nothing is replaced.
pub proof fn law_replaced_without_match(s: Seq<char>, pat: Seq<char>, to: Seq<char>)
    requires
        !occurs(s, pat),
    ensures
        replaced(s, pat, to) == s,
    decreases s.len(),
{
    if pat.len() > 0 && s.len() >= pat.len() {
        if s.take(pat.len() as int) == pat {
            assert(s.skip(0) == s);
            assert(pat.is_prefix_of(s.skip(0)));
        }
        let rest = s.skip(1);
        if occurs(rest, pat) {
            let i = choose|i: int|
                0 <= i <= rest.len() && pat.is_prefix_of(#[trigger] rest.skip(i));
            assert(s.skip(i + 1) == rest.skip(i));
        }
        law_replaced_without_match(rest, pat, to);
        assert(seq![s[0]] + rest == s);
    }
}

/// Specifies `String::push`: it appends the character to the string.
pub assume_specification[ String::push ](s: &mut String, c: char)
    ensures
        final(s)@ == old(s)@.push(c),
;

/// Whether two texts are the same.
pub fn text_eq(a: &str, b: &str) -> (r: bool)
    ensures
        r == (a@ == b@),
{
    a.to_owned() == b.to_owned()
}

/// The characters of a text.
pub fn chars_of(s: &str) -> (r: Vec<char>)
    ensures
        r@ == s@,
{
    let mut r: Vec<char> = Vec::new();
    for c in it: s.chars()
        invariant
            it.seq() == s@,
            r@ == it.seq().take(it.index()),
    {
        r.push(c);
    }
    r
}

/// The text made of the given characters.
pub fn text_of(chars: &Vec<char>) -> (r: String)
    ensures
        r@ == chars@,
{
    let mut r = String::new();
    for i in 0..chars.len()
        invariant
            r@ == chars@.take(i as int),
    {
        r.push(chars[i]);
        assert(chars@.take(i + 1) == chars@.take(i as int).push(chars@[i as int]));
    }
    assert(chars@.take(chars.len() as int) == chars@);
    r
}

/// The decimal notation of `n`.
pub fn decimal_text(n: u32) -> (r: String)
    ensures
        r@ == decimal(n as nat),
    decreases n,
{
    let last: char = (48u8 + (n % 10) as u8) as char;
    let mut r = if n < 10 {
        String::new()
    } else {
        decimal_text(n / 10)
    };
    r.push(last);
    assert(n < 10 ==> Seq::<char>::empty().push(last) == seq![last]);
    r
}

/// Whether `pat` occurs in `s` at the position `at`.
fn occurs_at(s: &Vec<char>, at: usize, pat: &Vec<char>) -> (r: bool)
    requires
        at <= s.len(),
    ensures
        r == (pat@.len() <= s@.len() - at && s@.skip(at as int).take(pat@.len() as int) == pat@),
{
    if s.len() - at < pat.len() {
        return false;
    }
    for i in 0..pat.len()
        invariant
            at + pat@.len() <= s.len(),
            forall|j: int| 0 <= j < i ==> s@[at + j] == pat@[j],
    {
        if s[at + i] != pat[i] {
            assert(s@.skip(at as int).take(pat@.len() as int)[i as int] == s@[at + i]);
            return false;
        }
    }
    assert(s@.skip(at as int).take(pat@.len() as int) == pat@);
    true
}

/// Replaces every match of `pat` in `s` by `to`.
pub fn replace(s: &Vec<char>, pat: &Vec<char>, to: &Vec<char>) -> (r: Vec<char>)
    requires
        pat@.len() > 0,
    ensures
        r@ == replaced(s@, pat@, to@),
{
    let mut r: Vec<char> = Vec::new();
    let mut i: usize = 0;
    assert(s@.skip(0) == s@);
    while i < s.len()
        invariant
            i <= s@.len(),
            pat@.len() > 0,
            r@ + replaced(s@.skip(i as int), pat@, to@) == replaced(s@, pat@, to@),
        decreases s@.len() - i,
    {
        let ghost before = r@;
        let ghost rest = s@.skip(i as int);
        if occurs_at(s, i, pat) {
            append(&mut r, to);
            assert(rest.skip(pat@.len() as int) == s@.skip(i + pat@.len()));
            assert(before + (to@ + replaced(s@.skip(i + pat@.len()), pat@, to@)) == r@ + replaced(
                s@.skip(i + pat@.len()),
                pat@,
                to@,
            ));
            i += pat.len();
        } else {
            r.push(s[i]);
            proof {
                if rest.len() < pat@.len() {
                    assert(s@.skip(i + 1).len() < pat@.len());
                    assert(before + rest == r@ + s@.skip(i + 1));
                } else {
                    assert(rest.skip(1) == s@.skip(i + 1));
                    assert(before + (seq![rest[0]] + replaced(s@.skip(i + 1), pat@, to@)) == r@
                        + replaced(s@.skip(i + 1), pat@, to@));
                }
            }
            i += 1;
        }
    }
    assert(s@.skip(i as int) == Seq::<char>::empty());
    assert(r@ + Seq::<char>::empty() == r@);
    r
}

/// Appends the characters of `tail` to `r`.
fn append(r: &mut Vec<char>, tail: &Vec<char>)
    ensures
        final(r)@ == old(r)@ + tail@,
{
    let ghost start = r@;
    for i in 0..tail.len()
        invariant
            r@ == start + tail@.take(i as int),
    {
        r.push(tail[i]);
        assert(tail@.take(i + 1) == tail@.take(i as int).push(tail@[i as int]));
    }
    assert(tail@.take(tail.len() as int) == tail@);
}

/// What follows `prefix` in `s`, if `s` starts with it.
pub fn after_prefix(s: &str, prefix: &str) -> (r: Option<String>)
    ensures
        match r {
            Some(rest) => s@ == prefix@ + rest@,
            None => !prefix@.is_prefix_of(s@),
        },
{
    let chars = chars_of(s);
    let start = chars_of(prefix);
    if !occurs_at(&chars, 0, &start) {
        proof {
            assert(s@.skip(0) == s@);
            if prefix@.is_prefix_of(s@) {
                assert(s@.take(prefix@.len() as int) == prefix@);
            }
        }
        return None;
    }
    let mut rest = String::new();
    for i in start.len()..chars.len()
        invariant
            chars@ == s@,
            start@ == prefix@,
            start@.len() <= chars@.len(),
            rest@ == s@.subrange(start@.len() as int, i as int),
    {
        rest.push(chars[i]);
    }
    assert(s@.skip(0) == s@);
    assert(s@ == s@.take(prefix@.len() as int) + s@.subrange(
        prefix@.len() as int,
        s@.len() as int,
    ));
    Some(rest)
}

/// Joins `parts` with `separator`.
pub fn join(parts: &Vec<String>, separator: &str) -> (r: String)
    ensures
        r@ == joined(parts.deep_view(), separator@),
{
    let mut r = String::new();
    let ghost texts = parts.deep_view();
    for i in 0..parts.len()
        invariant
            texts == parts.deep_view(),
            r@ == joined(texts.take(i as int), separator@),
    {
        if i > 0 {
            r.append(separator);
        }
        r.append(parts[i].as_str());
        assert(texts.take(i + 1).drop_last() == texts.take(i as int));
        assert(i == 0 ==> Seq::<char>::empty() + texts[0] == texts[0]);
    }
    assert(texts.take(parts.len() as int) == texts);
    r
}

/// Up to the first match nothing changes, the match gives way to the replacement, and what lies
/// behind it is treated in the same way.
pub proof fn law_replaced_at_first_match(s: Seq<char>, pat: Seq<char>, to: Seq<char>, i: int)
    requires
        pat.len() > 0,
        0 <= i <= s.len() - pat.len(),
        s.subrange(i, i + pat.len()) == pat,
        forall|j: int| 0 <= j < i ==> #[trigger] s.subrange(j, j + pat.len()) != pat,
    ensures
        replaced(s, pat, to) == s.take(i) + to + replaced(s.skip(i + pat.len()), pat, to),
    decreases i,
{
    let n = pat.len() as int;
    assert(s.take(n) == s.subrange(0, 0 + n));
    if i == 0 {
        assert(s.take(0) + to == to);
    } else {
        let rest = s.skip(1);
        assert(rest.subrange(i - 1, i - 1 + n) == s.subrange(i, i + n));
        assert forall|j: int| 0 <= j < i - 1 implies #[trigger] rest.subrange(j, j + n) != pat by {
            assert(rest.subrange(j, j + n) == s.subrange(j + 1, j + 1 + n));
        }
        law_replaced_at_first_match(rest, pat, to, i - 1);
        assert(rest.skip(i - 1 + n) == s.skip(i + n));
        let tail = replaced(s.skip(i + n), pat, to);
        assert(seq![s[0]] + (rest.take(i - 1) + to + tail) == s.take(i) + to + tail);
    }
}

/// Where the text holds the pattern at no position, it stays as it is.
pub proof fn law_replaced_keeps_unmatched(s: Seq<char>, pat: Seq<char>, to: Seq<char>)
    requires
        forall|j: int|
            0 <= j <= s.len() - pat.len() ==> #[trigger] s.subrange(j, j + pat.len()) != pat,
    ensures
        replaced(s, pat, to) == s,
    decreases s.len(),
{
    let n = pat.len() as int;
    if n > 0 && s.len() >= n {
        assert(s.take(n) == s.subrange(0, 0 + n));
        let rest = s.skip(1);
        assert forall|j: int| 0 <= j <= rest.len() - n implies #[trigger] rest.subrange(j, j + n)
            != pat by {
            assert(rest.subrange(j, j + n) == s.subrange(j + 1, j + 1 + n));
        }
        law_replaced_keeps_unmatched(rest, pat, to);
        assert(seq![s[0]] + rest == s);
    }
}

/// Replacing one character by another changes it at each of its positions and touches no other
/// position.
pub proof fn law_replaced_char_by_char(s: Seq<char>, c: char, d: char)
    ensures
        replaced(s, seq![c], seq![d]).len() == s.len(),
        forall|i: int|
            0 <= i < s.len() ==> #[trigger] replaced(s, seq![c], seq![d])[i] == if s[i] == c {
                d
            } else {
                s[i]
            },
    decreases s.len(),
{
    if s.len() > 0 {
        let rest = s.skip(1);
        law_replaced_char_by_char(rest, c, d);
        if s[0] == c {
            assert(s.take(1) == seq![c]);
        } else {
            assert(s.take(1)[0] != seq![c][0]);
        }
        let r = replaced(s, seq![c], seq![d]);
        let first = if s[0] == c {
            d
        } else {
            s[0]
        };
        assert(r == seq![first] + replaced(rest, seq![c], seq![d]));
        assert forall|i: int| 0 <= i < s.len() implies #[trigger] r[i] == if s[i] == c {
            d
        } else {
            s[i]
        } by {
            if i > 0 {
                assert(r[i] == replaced(rest, seq![c], seq![d])[i - 1]);
                assert(rest[i - 1] == s[i]);
            }
        }
    }
}

/// The number that a row of digits stands for in decimal notation.
pub open spec fn number_of(digits: Seq<char>) -> int
    decreases digits.len(),
{
    if digits.len() == 0 {
        0
    } else {
        10 * number_of(digits.drop_last()) + (digits.last() as int - '0' as int)
    }
}

/// The decimal notation of a number is made of digits, stands for that number, and starts with
/// a zero only where it is nothing but a zero.
pub proof fn law_decimal_stands_for_its_number(n: nat)
    ensures
        decimal(n).len() > 0,
        forall|i: int| 0 <= i < decimal(n).len() ==> '0' <= #[trigger] decimal(n)[i] <= '9',
        number_of(decimal(n)) == n,
        decimal(n)[0] == '0' ==> decimal(n).len() == 1,
    decreases n,
{
    if n < 10 {
        assert(decimal(n).drop_last() == Seq::<char>::empty());
        assert(number_of(decimal(n).drop_last()) == 0);
        assert(decimal(n).last() == digit(n));
    } else {
        law_decimal_stands_for_its_number(n / 10);
        assert(decimal(n).drop_last() == decimal(n / 10));
        assert(decimal(n).last() == digit(n % 10));
        if decimal(n / 10)[0] == '0' {
            assert(decimal(n / 10).drop_last() == Seq::<char>::empty());
            assert(number_of(decimal(n / 10)) == 0) by {
                reveal_with_fuel(number_of, 2);
            }
        }
    }
}

/// No part joins to nothing, and one part to itself.
pub proof fn law_joined_short(part: Seq<char>, separator: Seq<char>)
    ensures
        joined(Seq::empty(), separator) == Seq::<char>::empty(),
        joined(seq![part], separator) == part,
{
}

/// Two lists of parts join to what they join to alone, with the separator between.
pub proof fn law_joined_splits(a: Seq<Seq<char>>, b: Seq<Seq<char>>, separator: Seq<char>)
    requires
        a.len() > 0,
        b.len() > 0,
    ensures
        joined(a + b, separator) == joined(a, separator) + separator + joined(b, separator),
    decreases b.len(),
{
    assert((a + b).drop_last() == a + b.drop_last());
    assert((a + b).last() == b.last());
    if b.len() == 1 {
        assert(a + b.drop_last() == a);
    } else {
        law_joined_splits(a, b.drop_last(), separator);
        assert(joined(a, separator) + separator + joined(b.drop_last(), separator) + separator
            + b.last() == joined(a, separator) + separator + (joined(b.drop_last(), separator)
            + separator + b.last()));
    }
}

} // verus!
