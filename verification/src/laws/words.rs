//! What holds of the texts that everything else is made of.

use vstd::prelude::*;

use crate::text;

verus! {

// ── Search ──

/// A text is found in any text that it was put into.
pub proof fn law_what_is_put_in_is_found(head: Seq<char>, needle: Seq<char>, tail: Seq<char>)
    ensures
        text::contains_text(head + needle + tail, needle),
{
    let whole = head + needle + tail;
    assert(whole.subrange(head.len() as int, (head.len() + needle.len()) as int) =~= needle);
    assert(text::occurs_at(whole, needle, head.len() as int));
}

/// What is found in a text parts it: something stands before it and something behind it.
pub proof fn law_what_is_found_was_put_in(hay: Seq<char>, needle: Seq<char>)
    requires
        text::contains_text(hay, needle),
    ensures
        exists|head: Seq<char>, tail: Seq<char>| hay == #[trigger] (head + needle + tail),
{
    let i = choose|i: int| #[trigger] text::occurs_at(hay, needle, i);
    let head = hay.take(i);
    let tail = hay.skip(i + needle.len());
    assert(hay =~= head + needle + tail);
}

/// What is found in a part of a text is found in the text.
pub proof fn lemma_found_inside(head: Seq<char>, part: Seq<char>, tail: Seq<char>, needle: Seq<char>)
    requires
        text::contains_text(part, needle),
    ensures
        text::contains_text(head + part + tail, needle),
        text::contains_text(head + (part + tail), needle),
{
    let i = choose|i: int| #[trigger] text::occurs_at(part, needle, i);
    let whole = head + part + tail;
    assert(head + (part + tail) =~= whole);
    assert(whole.subrange(head.len() + i, head.len() + i + needle.len()) =~= part.subrange(
        i,
        i + needle.len(),
    ));
    assert(text::occurs_at(whole, needle, head.len() + i));
}

// ── Numbers ──

/// Numbers are written in the decimal system: the digits from 0 to 9 stand for themselves, and a
/// digit behind a number makes it ten times as large.
pub proof fn law_decimal_notation(n: nat, d: nat)
    requires
        d < 10,
    ensures
        text::decimal(d) == seq![(('0' as int) + d) as char],
        n > 0 ==> text::decimal(10 * n + d) == text::decimal(n) + text::decimal(d),
{
    if n > 0 {
        assert((10 * n + d) / 10 == n);
        assert((10 * n + d) % 10 == d);
        assert(text::decimal(n).push(text::digit(d)) =~= text::decimal(n) + seq![text::digit(d)]);
    }
}

/// A decimal number is made of digits.
pub proof fn law_decimals_are_digits(n: nat, i: int)
    requires
        0 <= i < text::decimal(n).len(),
    ensures
        '0' <= text::decimal(n)[i] <= '9',
    decreases n,
{
    if n >= 10 && i < text::decimal(n / 10).len() {
        law_decimals_are_digits(n / 10, i);
    }
}

/// Different numbers are written differently.
pub proof fn law_decimals_are_told_apart(a: nat, b: nat)
    requires
        text::decimal(a) == text::decimal(b),
    ensures
        a == b,
    decreases a + b,
{
    let x = text::decimal(a);
    let y = text::decimal(b);
    if a < 10 && b < 10 {
        assert(x[0] == y[0]);
    } else if a >= 10 && b >= 10 {
        assert(x.drop_last() =~= text::decimal(a / 10));
        assert(y.drop_last() =~= text::decimal(b / 10));
        assert(x.last() == y.last());
        law_decimals_are_told_apart(a / 10, b / 10);
    } else if a >= 10 {
        lemma_decimal_is_not_empty(a / 10);
    } else {
        lemma_decimal_is_not_empty(b / 10);
    }
}

pub proof fn lemma_decimal_is_not_empty(n: nat)
    ensures
        text::decimal(n).len() > 0,
{
}

pub proof fn lemma_decimal_has_no(n: nat, c: char)
    requires
        !('0' <= c <= '9'),
    ensures
        !text::decimal(n).contains(c),
{
    if text::decimal(n).contains(c) {
        let i = choose|i: int| 0 <= i < text::decimal(n).len() && text::decimal(n)[i] == c;
        law_decimals_are_digits(n, i);
    }
}

// ── Parts ──

pub broadcast proof fn lemma_regroup(a: Seq<char>, b: Seq<char>, c: Seq<char>)
    ensures
        #[trigger] ((a + b) + c) == a + (b + c),
{
    assert((a + b) + c =~= a + (b + c));
}

/// Two texts that are equal, and whose middle parts end at the first occurrence of a character,
/// agree on their middle parts and on what comes behind them.
pub proof fn lemma_cancel(
    head: Seq<char>,
    a: Seq<char>,
    b: Seq<char>,
    stop: Seq<char>,
    x: Seq<char>,
    y: Seq<char>,
)
    requires
        stop.len() > 0,
        !a.contains(stop[0]),
        !b.contains(stop[0]),
        head + (a + (stop + x)) == head + (b + (stop + y)),
    ensures
        a == b,
        x == y,
{
    let left = a + (stop + x);
    let right = b + (stop + y);
    assert((head + left).skip(head.len() as int) =~= left);
    assert((head + right).skip(head.len() as int) =~= right);
    assert(left == right);
    if a.len() < b.len() {
        assert(left[a.len() as int] == stop[0]);
        assert(right[a.len() as int] == b[a.len() as int]);
        assert(b.contains(stop[0]));
    } else if b.len() < a.len() {
        assert(right[b.len() as int] == stop[0]);
        assert(left[b.len() as int] == a[b.len() as int]);
        assert(a.contains(stop[0]));
    }
    assert(a =~= left.take(a.len() as int));
    assert(b =~= right.take(b.len() as int));
    assert(x =~= left.skip((a.len() + stop.len()) as int));
    assert(y =~= right.skip((b.len() + stop.len()) as int));
}

pub proof fn lemma_same_tail(head: Seq<char>, a: Seq<char>, b: Seq<char>)
    ensures
        head + a == head + b ==> a == b,
{
    if head + a == head + b {
        assert((head + a).skip(head.len() as int) =~= a);
        assert((head + b).skip(head.len() as int) =~= b);
    }
}

pub proof fn lemma_same_head(a: Seq<char>, b: Seq<char>, tail: Seq<char>)
    ensures
        a + tail == b + tail ==> a == b,
{
    if a + tail == b + tail {
        assert((a + tail).take((a + tail).len() - tail.len()) =~= a);
        assert((b + tail).take((b + tail).len() - tail.len()) =~= b);
    }
}

/// A text parts at the first occurrence of a character: what comes before it, the character and
/// what comes behind it make the text again. Without the character all of it comes before.
pub proof fn law_texts_part_at_the_first(s: Seq<char>, c: char)
    ensures
        !text::before(s, c).contains(c),
        s.contains(c) ==> s == text::before(s, c) + seq![c] + text::after(s, c),
        !s.contains(c) ==> text::before(s, c) == s && text::after(s, c).len() == 0,
    decreases s.len(),
{
    if s.len() > 0 {
        let rest = s.drop_first();
        law_texts_part_at_the_first(rest, c);
        if s[0] == c {
            assert(s =~= seq![c] + rest);
            assert(s =~= text::before(s, c) + seq![c] + text::after(s, c));
        } else {
            let b = text::before(rest, c);
            let whole = text::before(s, c);
            assert(!whole.contains(c)) by {
                if whole.contains(c) {
                    let i = choose|i: int| 0 <= i < whole.len() && whole[i] == c;
                    assert(i > 0 && b[i - 1] == c);
                }
            }
            assert(s =~= seq![s[0]] + rest);
            if s.contains(c) {
                let i = choose|i: int| 0 <= i < s.len() && s[i] == c;
                assert(rest[i - 1] == c);
                assert(s =~= whole + seq![c] + text::after(s, c));
            } else {
                assert(!rest.contains(c)) by {
                    if rest.contains(c) {
                        let i = choose|i: int| 0 <= i < rest.len() && rest[i] == c;
                        assert(s[i + 1] == c);
                    }
                }
                assert(whole =~= s);
            }
        }
    }
}

/// Lists are joined piece by piece: two lists that are not empty are joined by joining each and
/// putting the separator between them.
pub proof fn law_joined_lists_are_joined(a: Seq<Seq<char>>, b: Seq<Seq<char>>, sep: Seq<char>)
    requires
        a.len() > 0,
        b.len() > 0,
    ensures
        text::joined(a + b, sep) == text::joined(a, sep) + sep + text::joined(b, sep),
    decreases b.len(),
{
    assert((a + b).drop_last() =~= a + b.drop_last());
    assert((a + b).last() == b.last());
    if b.len() == 1 {
        assert(a + b.drop_last() =~= a);
    } else {
        law_joined_lists_are_joined(a, b.drop_last(), sep);
        let x = text::joined(a, sep);
        let y = text::joined(b.drop_last(), sep);
        assert((x + sep + y) + sep + b.last() =~= x + sep + (y + sep + b.last()));
    }
}

/// A list of one text joins to that text, and an empty one to nothing.
pub proof fn law_single_texts_stand_alone(s: Seq<char>, sep: Seq<char>)
    ensures
        text::joined(seq![s], sep) == s,
        text::joined(Seq::empty(), sep).len() == 0,
{
}

// ── Whitespace ──

/// Whether the character is one that a line of text is indented or ended with.
pub open spec fn is_blank(c: char) -> bool {
    c == ' ' || c == '\t' || c == '\n' || c == '\r'
}

/// Trimming takes whitespace from both ends and nothing else.
pub proof fn law_trimming_takes_the_ends(s: Seq<char>)
    ensures
        exists|i: int, j: int|
            0 <= i <= j <= s.len() && text::trimmed(s) == #[trigger] s.subrange(i, j) && (forall|
                k: int,
            |
                0 <= k < i || j <= k < s.len() ==> text::is_space(#[trigger] s[k])),
        text::trimmed(s).len() > 0 ==> !text::is_space(text::trimmed(s)[0]) && !text::is_space(
            text::trimmed(s).last(),
        ),
{
    let i = lemma_trimmed_start(s);
    let mid = text::trimmed_start(s);
    let n = lemma_trimmed_end(mid);
    let j = i + n;
    assert(mid.take(n) =~= s.subrange(i, j));
    assert forall|k: int| 0 <= k < i || j <= k < s.len() implies text::is_space(#[trigger] s[k]) by {
        if k >= j {
            assert(mid[k - i] == s[k]);
        }
    }
    if text::trimmed(s).len() > 0 {
        assert(text::trimmed(s)[0] == mid[0]);
    }
}

proof fn lemma_trimmed_start(s: Seq<char>) -> (i: int)
    ensures
        0 <= i <= s.len(),
        text::trimmed_start(s) == s.skip(i),
        forall|k: int| 0 <= k < i ==> text::is_space(#[trigger] s[k]),
        text::trimmed_start(s).len() > 0 ==> !text::is_space(text::trimmed_start(s)[0]),
    decreases s.len(),
{
    if s.len() > 0 && text::is_space(s[0]) {
        let rest = s.drop_first();
        let i = lemma_trimmed_start(rest);
        assert(rest.skip(i) =~= s.skip(i + 1));
        assert forall|k: int| 0 <= k < i + 1 implies text::is_space(#[trigger] s[k]) by {
            if k > 0 {
                assert(rest[k - 1] == s[k]);
            }
        }
        i + 1
    } else {
        assert(s.skip(0) =~= s);
        0
    }
}

proof fn lemma_trimmed_end(s: Seq<char>) -> (n: int)
    ensures
        0 <= n <= s.len(),
        text::trimmed_end(s) == s.take(n),
        forall|k: int| n <= k < s.len() ==> text::is_space(#[trigger] s[k]),
        text::trimmed_end(s).len() > 0 ==> !text::is_space(text::trimmed_end(s).last()),
    decreases s.len(),
{
    if s.len() > 0 && text::is_space(s.last()) {
        let front = s.drop_last();
        let n = lemma_trimmed_end(front);
        assert(front.take(n) =~= s.take(n));
        assert forall|k: int| n <= k < s.len() implies text::is_space(#[trigger] s[k]) by {
            if k < front.len() {
                assert(front[k] == s[k]);
            }
        }
        n
    } else {
        assert(s.take(s.len() as int) =~= s);
        s.len() as int
    }
}

/// Blanks, tabs and the ends of lines are whitespace; printable ASCII characters are not.
pub proof fn law_what_is_whitespace(c: char)
    ensures
        is_blank(c) ==> text::is_space(c),
        '!' <= c <= '~' ==> !text::is_space(c),
{
}

// ── Order ──

/// Texts are ordered like words in a dictionary: at the first difference the smaller character
/// comes first, and a text comes before any text that goes on where it ends.
pub proof fn law_dictionary_order(
    common: Seq<char>,
    a: char,
    x: Seq<char>,
    b: char,
    y: Seq<char>,
)
    ensures
        (a as int) < (b as int) ==> text::precedes(common + seq![a] + x, common + seq![b] + y)
            && !text::precedes(common + seq![b] + y, common + seq![a] + x),
        text::precedes(common, common + seq![a] + x),
        !text::precedes(common + seq![a] + x, common),
    decreases common.len(),
{
    let left = common + seq![a] + x;
    let right = common + seq![b] + y;
    if common.len() > 0 {
        let rest = common.drop_first();
        law_dictionary_order(rest, a, x, b, y);
        assert(left.drop_first() =~= rest + seq![a] + x);
        assert(right.drop_first() =~= rest + seq![b] + y);
    }
}

// ── Paths and numbers ──

/// The path of a file lies in its directory, under its name, behind a slash.
pub proof fn law_paths_lie_in_their_directory(dir: Seq<char>, name: Seq<char>)
    ensures
        ({
            let path = text::path_under(dir, name);
            &&& path.len() >= dir.len() + name.len()
            &&& path.take(dir.len() as int) == dir
            &&& path.skip(path.len() - name.len()) == name
            &&& dir.len() > 0 ==> path[path.len() - name.len() - 1] == '/'
            &&& path.len() <= dir.len() + 1 + name.len()
        }),
{
    reveal_strlit("/");
    let path = text::path_under(dir, name);
    assert(path.take(dir.len() as int) =~= dir);
    assert(path.skip(path.len() - name.len()) =~= name);
}

/// A number that is written in decimal is read back, with and without a sign.
pub proof fn law_numbers_are_read_back(n: nat)
    requires
        n <= i64::MAX,
    ensures
        text::number(text::decimal(n)) == Some(n as int),
        text::number(seq!['+'] + text::decimal(n)) == Some(n as int),
        text::number(seq!['-'] + text::decimal(n)) == Some(-(n as int)),
{
    let s = text::decimal(n);
    lemma_value_of_decimal(n);
    assert forall|i: int| 0 <= i < s.len() implies text::is_digit(#[trigger] s[i]) by {
        law_decimals_are_digits(n, i);
    }
    assert(text::is_digits(s));
    law_decimals_are_digits(n, 0);
    assert((seq!['+'] + s).drop_first() =~= s);
    assert((seq!['-'] + s).drop_first() =~= s);
}

proof fn lemma_value_of_decimal(n: nat)
    ensures
        text::digits_value(text::decimal(n)) == n,
    decreases n,
{
    let s = text::decimal(n);
    if n < 10 {
        assert(s.drop_last() =~= Seq::<char>::empty());
        assert(text::digits_value(s.drop_last()) == 0);
        assert(s.last() as int == 48 + n);
    } else {
        lemma_value_of_decimal(n / 10);
        assert(s.drop_last() =~= text::decimal(n / 10));
        assert(s.last() as int == 48 + n % 10);
    }
}

/// A number that is too large denotes none, however it is signed.
pub proof fn law_large_numbers_are_none(n: nat)
    requires
        n > i64::MAX,
    ensures
        text::number(text::decimal(n)) is None,
        text::number(seq!['+'] + text::decimal(n)) is None,
        n > i64::MAX + 1 ==> text::number(seq!['-'] + text::decimal(n)) is None,
{
    let s = text::decimal(n);
    lemma_value_of_decimal(n);
    lemma_decimal_is_not_empty(n);
    law_decimals_are_digits(n, 0);
    assert((seq!['+'] + s).drop_first() =~= s);
    assert((seq!['-'] + s).drop_first() =~= s);
}

/// A text with a character that is neither a digit nor a sign denotes no number.
pub proof fn law_other_texts_are_no_numbers(s: Seq<char>, i: int)
    requires
        0 <= i < s.len(),
        !('0' <= s[i] <= '9') && (i > 0 || (s[i] != '-' && s[i] != '+')),
    ensures
        text::number(s) is None,
{
    if s[0] == '-' || s[0] == '+' {
        let rest = s.drop_first();
        assert(rest[i - 1] == s[i]);
        assert(!text::is_digit(rest[i - 1]));
    } else {
        assert(!text::is_digit(s[i]));
    }
}

} // verus!
