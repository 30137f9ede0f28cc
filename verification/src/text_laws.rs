//! What trimming, splitting, searching and reading numbers do to any text.
use vstd::prelude::*;

use crate::number::{
    all_digits, decimal, decimal_text, digit_value, digits_value, law_decimal_round_trip,
    lemma_decimal_value, parse_i32, parse_u32, parse_u64, signed_decimal_text, wide_decimal_text,
};
use crate::text::{
    contains_text, control, ends_with, equals, equals_ignore_case, find, lemma_find_from,
    lemma_until, lines, lower, lowered, nonempty, pieces, position, replaced_char, runs, same_text,
    slice_view, split, split_lines, split_words, starts_with, strip_prefix, strip_suffix, trim,
    trim_back, trim_end, trim_front, trim_start, until, white_space, CharClass,
};

verus! {

// -- Characters --

/// Among ASCII characters, white space is the blank and tab to carriage return; the
/// classes of ASCII white space and of line ends lie within it; and nothing that is
/// printed is white space or a control character.
pub proof fn law_blank_and_printed_characters_are_apart(
    c: char,
    blank: bool,
    ascii: bool,
    line_end: bool,
    steering: bool,
)
    requires
        call_ensures(white_space, (c,), blank),
        call_ensures(CharClass::contains, (CharClass::AsciiWhiteSpace, c), ascii),
        call_ensures(CharClass::contains, (CharClass::LineEnd, c), line_end),
        call_ensures(control, (c,), steering),
    ensures
        line_end ==> ascii,
        ascii ==> blank,
        line_end <==> c == '\n' || c == '\r',
        c <= '\u{7f}' ==> (blank <==> c == ' ' || '\t' <= c <= '\r'),
        c <= '\u{7f}' ==> (ascii <==> blank && c != '\u{b}'),
        '!' <= c <= '~' ==> !blank && !steering,
        c <= '\u{7f}' ==> (steering <==> c < ' ' || c == '\u{7f}'),
        c == ' ' ==> !steering,
{
}

/// A class of one character holds it and no other; a path is parted by slashes of
/// either kind.
pub proof fn law_a_class_holds_its_characters(
    c: char,
    only: char,
    one: bool,
    separator: bool,
    blank: bool,
    class: bool,
)
    requires
        call_ensures(CharClass::contains, (CharClass::Just(only), c), one),
        call_ensures(CharClass::contains, (CharClass::PathSeparator, c), separator),
        call_ensures(CharClass::contains, (CharClass::WhiteSpace, c), class),
        call_ensures(white_space, (c,), blank),
    ensures
        one <==> c == only,
        separator <==> c == '/' || c == '\\',
        class == blank,
{
}

/// Lowering changes capital ASCII letters and nothing else, and lowering twice changes
/// nothing more.
pub proof fn law_lowering_changes_capitals_only(
    s: &[char],
    r: Vec<char>,
    again: Vec<char>,
    t: &[char],
    i: int,
)
    requires
        call_ensures(lowered, (s,), r),
        t@ == r@,
        call_ensures(lowered, (t,), again),
    ensures
        r@.len() == s@.len(),
        0 <= i < s@.len() && !('A' <= s@[i] <= 'Z') ==> r@[i] == s@[i],
        0 <= i < s@.len() && 'A' <= s@[i] <= 'Z' ==> 'a' <= r@[i] <= 'z' && r@[i] as int - 'a' as int
            == s@[i] as int - 'A' as int,
        again@ == r@,
{
    assert forall|k: int| 0 <= k < r@.len() implies again@[k] == r@[k] by {}
}

/// Texts are equal but for case exactly if their lowered forms are equal, so that equal
/// texts always are.
pub proof fn law_case_is_all_that_is_ignored(
    s: &[char],
    text: &str,
    exact: bool,
    loose: bool,
    i: int,
)
    requires
        call_ensures(equals, (s, text), exact),
        call_ensures(equals_ignore_case, (s, text), loose),
    ensures
        exact <==> s@ == text@,
        exact ==> loose,
        loose ==> s@.len() == text@.len(),
        loose && 0 <= i < s@.len() && !('A' <= s@[i] <= 'Z') && !('A' <= text@[i] <= 'Z') ==> s@[i]
            == text@[i],
        s@.len() == text@.len() && (forall|k: int|
            0 <= k < s@.len() ==> #[trigger] s@[k] == text@[k]) ==> loose,
{
    if loose {
        assert(lower(s@).len() == lower(text@).len());
        if 0 <= i < s@.len() {
            assert(lower(s@)[i] == lower(text@)[i]);
        }
    }
    if s@.len() == text@.len() && forall|k: int| 0 <= k < s@.len() ==> #[trigger] s@[k] == text@[k] {
        assert(s@ =~= text@);
    }
}

/// Replacing a character leaves every other where it was.
pub proof fn law_only_the_character_is_replaced(
    s: &[char],
    from: char,
    to: char,
    r: Vec<char>,
    i: int,
)
    requires
        call_ensures(replaced_char, (s, from, to), r),
    ensures
        r@.len() == s@.len(),
        0 <= i < s@.len() ==> r@[i] == (if s@[i] == from {
            to
        } else {
            s@[i]
        }),
        from != to && 0 <= i < s@.len() ==> r@[i] != from,
{
}

// -- Ends --

/// A text begins with a prefix exactly if it is the prefix and something more; that
/// something is what is left without it.
pub proof fn law_a_prefix_and_the_rest_make_the_text(
    s: &[char],
    prefix: &str,
    begins: bool,
    rest: Option<&[char]>,
    more: Seq<char>,
)
    requires
        call_ensures(starts_with, (s, prefix), begins),
        call_ensures(strip_prefix, (s, prefix), rest),
    ensures
        begins <==> rest is Some,
        rest matches Some(left) ==> s@ == prefix@ + left@,
        s@ == prefix@ + more ==> (rest matches Some(left) && left@ == more),
{
    if let Some(left) = rest {
        assert(slice_view(rest) == Some(left@));
        assert(s@ =~= prefix@ + left@);
    }
    if s@ == prefix@ + more {
        assert(s@.take(prefix@.len() as int) =~= prefix@);
        assert(s@.skip(prefix@.len() as int) =~= more);
        assert(slice_view(rest) is Some);
    }
}

/// A text ends with a suffix exactly if it is something and then the suffix; that
/// something is what is left without it.
pub proof fn law_the_front_and_a_suffix_make_the_text(
    s: &[char],
    suffix: &str,
    ends: bool,
    rest: Option<&[char]>,
    front: Seq<char>,
)
    requires
        call_ensures(ends_with, (s, suffix), ends),
        call_ensures(strip_suffix, (s, suffix), rest),
    ensures
        ends <==> rest is Some,
        rest matches Some(left) ==> s@ == left@ + suffix@,
        s@ == front + suffix@ ==> (rest matches Some(left) && left@ == front),
{
    if let Some(left) = rest {
        assert(slice_view(rest) == Some(left@));
        assert(s@ =~= left@ + suffix@);
    }
    if s@ == front + suffix@ {
        assert(s@.skip(s@.len() - suffix@.len()) =~= suffix@);
        assert(s@.take(s@.len() - suffix@.len()) =~= front);
        assert(slice_view(rest) is Some);
    }
}

/// Whether every character belongs to a class.
pub open spec fn all_of(s: Seq<char>, class: CharClass) -> bool {
    forall|i: int| 0 <= i < s.len() ==> class.has(#[trigger] s[i])
}

/// What is cut off the front is the whole run of the class there.
proof fn lemma_trim_front(s: Seq<char>, class: CharClass)
    ensures
        trim_front(s, class).len() <= s.len(),
        s == s.take(s.len() - trim_front(s, class).len()) + trim_front(s, class),
        all_of(s.take(s.len() - trim_front(s, class).len()), class),
        trim_front(s, class).len() > 0 ==> !class.has(trim_front(s, class)[0]),
    decreases s.len(),
{
    let r = trim_front(s, class);
    if s.len() > 0 && class.has(s[0]) {
        let t = s.skip(1);
        lemma_trim_front(t, class);
        let cut = s.take(s.len() - r.len());
        let inner = t.take(t.len() - r.len());
        assert(cut =~= seq![s[0]] + inner);
        assert(s =~= cut + r) by {
            assert(s =~= seq![s[0]] + t);
        }
        assert forall|i: int| 0 <= i < cut.len() implies class.has(#[trigger] cut[i]) by {
            if i > 0 {
                assert(cut[i] == inner[i - 1]);
            }
        }
    } else {
        assert(s.take(0) + s =~= s);
    }
}

/// What is cut off the end is the whole run of the class there.
proof fn lemma_trim_back(s: Seq<char>, class: CharClass)
    ensures
        trim_back(s, class).len() <= s.len(),
        s == trim_back(s, class) + s.skip(trim_back(s, class).len() as int),
        all_of(s.skip(trim_back(s, class).len() as int), class),
        trim_back(s, class).len() > 0 ==> !class.has(trim_back(s, class).last()),
    decreases s.len(),
{
    let r = trim_back(s, class);
    if s.len() > 0 && class.has(s.last()) {
        let t = s.drop_last();
        lemma_trim_back(t, class);
        let cut = s.skip(r.len() as int);
        let inner = t.skip(r.len() as int);
        assert(cut =~= inner.push(s.last()));
        assert(s =~= r + cut) by {
            assert(s =~= t.push(s.last()));
        }
        assert forall|i: int| 0 <= i < cut.len() implies class.has(#[trigger] cut[i]) by {
            if i < inner.len() {
                assert(cut[i] == inner[i]);
            }
        }
    } else {
        assert(s + s.skip(s.len() as int) =~= s);
    }
}

/// Trimming cuts the runs of a class off the ends and nothing else: what is left stands
/// in the text as it was, and neither begins nor ends with a character of the class.
pub proof fn law_trimming_cuts_only_the_ends(
    s: &[char],
    class: CharClass,
    start: &[char],
    end: &[char],
    both: &[char],
)
    requires
        call_ensures(trim_start, (s, class), start),
        call_ensures(trim_end, (s, class), end),
        call_ensures(trim, (s, class), both),
    ensures
        exists|a: Seq<char>| #[trigger] all_of(a, class) && s@ == a + start@,
        start@.len() > 0 ==> !class.has(start@[0]),
        exists|b: Seq<char>| #[trigger] all_of(b, class) && s@ == end@ + b,
        end@.len() > 0 ==> !class.has(end@.last()),
        exists|a: Seq<char>, b: Seq<char>| #[trigger]
            all_of(a, class) && #[trigger] all_of(b, class) && s@ == a + both@ + b,
        both@.len() > 0 ==> !class.has(both@[0]) && !class.has(both@.last()),
{
    lemma_trim_front(s@, class);
    lemma_trim_back(s@, class);
    lemma_trim_back(start@, class);
    let a = s@.take(s@.len() - start@.len());
    let b = start@.skip(both@.len() as int);
    assert(s@ =~= a + both@ + b);
    assert(all_of(a, class) && all_of(b, class));
    assert(all_of(s@.skip(end@.len() as int), class));
    if both@.len() > 0 {
        assert(both@[0] == start@[0]);
    }
}

// -- Pieces --

/// The place of a character is that of the first one of the class.
pub proof fn law_the_first_of_a_class_is_found(s: &[char], class: CharClass, r: usize, k: int)
    requires
        call_ensures(position, (s, class), r),
    ensures
        r <= s@.len(),
        r < s@.len() ==> class.has(s@[r as int]),
        0 <= k < r ==> !class.has(s@[k]),
{
    lemma_until(s@, class);
}

/// Pieces hold no character of the class, and a piece more than there are separators.
proof fn lemma_pieces(s: Seq<char>, class: CharClass)
    ensures
        pieces(s, class).len() >= 1,
        forall|i: int, k: int|
            0 <= i < pieces(s, class).len() && 0 <= k < pieces(s, class)[i].len() ==> !class.has(
                #[trigger] pieces(s, class)[i][k],
            ),
        rejoined(s, pieces(s, class), class),
    decreases s.len(),
{
    lemma_until(s, class);
    let n = until(s, class) as int;
    if n < s.len() {
        lemma_pieces(s.skip(n + 1), class);
        let rest = pieces(s.skip(n + 1), class);
        let all = pieces(s, class);
        assert(all =~= seq![s.take(n)] + rest);
        assert(all.skip(1) =~= rest);
    }
}

/// Whether a text is its pieces with one character of the class between each two.
pub open spec fn rejoined(s: Seq<char>, list: Seq<Seq<char>>, class: CharClass) -> bool
    decreases list.len(),
{
    if list.len() == 0 {
        false
    } else if list.len() == 1 {
        s == list[0]
    } else {
        &&& list[0].len() < s.len()
        &&& s.take(list[0].len() as int) == list[0]
        &&& class.has(s[list[0].len() as int])
        &&& rejoined(s.skip(list[0].len() as int + 1), list.skip(1), class)
    }
}

/// A text is its pieces with a separator between each two, and no piece holds one.
pub proof fn law_pieces_make_the_text(s: &[char], class: CharClass, r: Vec<&[char]>, i: int, k: int)
    requires
        call_ensures(split, (s, class), r),
    ensures
        rejoined(s@, runs(r@), class),
        0 <= i < r@.len() && 0 <= k < r@[i]@.len() ==> !class.has(r@[i]@[k]),
{
    lemma_pieces(s@, class);
    assert(runs(r@) == pieces(s@, class));
    if 0 <= i < r@.len() && 0 <= k < r@[i]@.len() {
        assert(runs(r@)[i] == r@[i]@);
        assert(!class.has(pieces(s@, class)[i][k]));
    }
}

/// The members that are left are the non-empty ones.
proof fn lemma_nonempty(list: Seq<Seq<char>>)
    ensures
        nonempty(list).len() <= list.len(),
        forall|i: int|
            0 <= i < nonempty(list).len() ==> (#[trigger] nonempty(list)[i]).len() > 0
                && list.contains(nonempty(list)[i]),
        forall|j: int|
            0 <= j < list.len() && (#[trigger] list[j]).len() > 0 ==> nonempty(list).contains(
                list[j],
            ),
    decreases list.len(),
{
    if list.len() > 0 {
        let front = list.drop_last();
        lemma_nonempty(front);
        let r = nonempty(list);
        let f = nonempty(front);
        assert forall|i: int| 0 <= i < r.len() implies (#[trigger] r[i]).len() > 0 && list.contains(
            r[i],
        ) by {
            if i < f.len() {
                assert(r[i] == f[i]);
                let j = choose|j: int| 0 <= j < front.len() && front[j] == f[i];
                assert(list[j] == r[i]);
            } else {
                assert(list[list.len() - 1] == r[i]);
            }
        }
        assert forall|j: int| 0 <= j < list.len() && (#[trigger] list[j]).len() > 0 implies r.contains(
            list[j],
        ) by {
            if j < front.len() {
                assert(front[j] == list[j]);
                assert(f.contains(front[j]));
                let i = choose|i: int| 0 <= i < f.len() && f[i] == front[j];
                assert(r[i] == list[j]);
            } else {
                assert(r[f.len() as int] == list[j]);
            }
        }
    }
}

/// The words of a text are its pieces without the empty ones.
pub proof fn law_words_are_the_pieces_that_hold_something(
    s: &[char],
    class: CharClass,
    whole: Vec<&[char]>,
    r: Vec<&[char]>,
    i: int,
)
    requires
        call_ensures(split, (s, class), whole),
        call_ensures(split_words, (s, class), r),
    ensures
        0 <= i < r@.len() ==> r@[i]@.len() > 0 && runs(whole@).contains(r@[i]@),
        0 <= i < whole@.len() && whole@[i]@.len() > 0 ==> runs(r@).contains(whole@[i]@),
{
    lemma_nonempty(pieces(s@, class));
    assert(runs(r@) == nonempty(runs(whole@)));
    if 0 <= i < r@.len() {
        assert(runs(r@)[i] == r@[i]@);
    }
    if 0 <= i < whole@.len() {
        assert(runs(whole@)[i] == whole@[i]@);
    }
}

/// Up to its first line feed a text is as long as what stands before it.
proof fn lemma_until_there(front: Seq<char>, rest: Seq<char>)
    requires
        forall|k: int| 0 <= k < front.len() ==> #[trigger] front[k] != '\n',
    ensures
        until(front + (seq!['\n'] + rest), CharClass::Just('\n')) == front.len(),
{
    let s = front + (seq!['\n'] + rest);
    let class = CharClass::Just('\n');
    lemma_until(s, class);
    let n = until(s, class) as int;
    assert(s[front.len() as int] == '\n');
    if n < front.len() {
        assert(s[n] == front[n]);
    } else if n > front.len() {
        assert(class.has(s[front.len() as int]));
    }
}

/// The first line ends at the first line feed, and a carriage return before it is
/// dropped; then come the lines of the rest. A text without a line feed is one line as
/// it is, and an empty one is none.
pub proof fn law_lines_end_at_line_feeds(
    s: &[char],
    tail: &[char],
    front: Seq<char>,
    r: Vec<&[char]>,
    rest: Vec<&[char]>,
)
    requires
        call_ensures(split_lines, (s,), r),
        call_ensures(split_lines, (tail,), rest),
        forall|k: int| 0 <= k < front.len() ==> #[trigger] front[k] != '\n',
    ensures
        s@.len() == 0 ==> r@.len() == 0,
        s@ == front && front.len() > 0 ==> r@.len() == 1 && r@[0]@ == front,
        s@ == front + (seq!['\n'] + tail@) ==> r@.len() == 1 + rest@.len(),
        s@ == front + (seq!['\n'] + tail@) && front.len() > 0 && front.last() == '\r' ==> r@[0]@
            == front.drop_last(),
        s@ == front + (seq!['\n'] + tail@) && !(front.len() > 0 && front.last() == '\r') ==> r@[0]@
            == front,
        s@ == front + (seq!['\n'] + tail@) ==> runs(r@).skip(1) == runs(rest@),
{
    let class = CharClass::Just('\n');
    assert(runs(r@).len() == r@.len() && runs(rest@).len() == rest@.len());
    if s@ == front && front.len() > 0 {
        lemma_until(s@, class);
        assert(runs(r@) =~= seq![s@]);
        assert(runs(r@)[0] == r@[0]@);
    }
    if s@ == front + (seq!['\n'] + tail@) {
        lemma_until_there(front, tail@);
        assert(s@.take(front.len() as int) =~= front);
        assert(s@.skip(front.len() as int + 1) =~= tail@);
        assert(runs(r@) == lines(s@));
        assert(runs(r@).skip(1) =~= lines(tail@));
        assert(runs(r@)[0] == r@[0]@);
    }
}

/// What is searched for is found at its first place, and is contained exactly if it is
/// found.
pub proof fn law_the_first_match_is_found(
    s: &[char],
    needle: &str,
    r: Option<usize>,
    inside: bool,
    k: int,
)
    requires
        call_ensures(find, (s, needle), r),
        call_ensures(contains_text, (s, needle), inside),
    ensures
        inside <==> r is Some,
        r matches Some(i) ==> i + needle@.len() <= s@.len() && s@.subrange(
            i as int,
            i + needle@.len(),
        ) == needle@,
        r matches Some(i) ==> (0 <= k < i ==> s@.subrange(k, k + needle@.len()) != needle@),
        r is None ==> (0 <= k <= s@.len() - needle@.len() ==> s@.subrange(k, k + needle@.len())
            != needle@),
{
    lemma_find_from(s@, needle@, 0);
}

/// Texts are the same exactly if they have the same characters.
pub proof fn law_the_same_text_has_the_same_characters(a: &str, b: &str, ab: bool, ba: bool)
    requires
        call_ensures(same_text, (a, b), ab),
        call_ensures(same_text, (b, a), ba),
    ensures
        ab <==> a@ == b@,
        ab == ba,
{
}

// -- Numbers --

/// A number is written in digits, without a zero before others, and read back as it is.
pub proof fn law_a_written_number_is_read_back(
    n: u64,
    text: String,
    wide: String,
    s: &[char],
    r: Option<u64>,
    small: Option<u32>,
    k: int,
)
    requires
        call_ensures(decimal_text, (n,), text),
        call_ensures(wide_decimal_text, (n as u128,), wide),
        s@ == text@,
        call_ensures(parse_u64, (s,), r),
        call_ensures(parse_u32, (s,), small),
    ensures
        wide@ == text@,
        r == Some(n),
        n <= u32::MAX ==> small == Some(n as u32),
        n > u32::MAX ==> small is None,
        0 <= k < text@.len() ==> '0' <= text@[k] <= '9',
        text@.len() > 1 ==> text@[0] != '0',
{
    lemma_decimal_value(n as nat);
    law_decimal_round_trip(n);
    lemma_first_digit(n as nat);
    if 0 <= k < text@.len() {
        assert(digit_value(text@[k], 10) is Some);
    }
}

/// The decimal form of a number begins with zero only where it is zero.
proof fn lemma_first_digit(n: nat)
    ensures
        decimal(n).len() >= 1,
        n > 0 ==> decimal(n)[0] != '0',
        n < 10 ==> decimal(n).len() == 1,
    decreases n,
{
    if n >= 10 {
        lemma_first_digit(n / 10);
        assert(decimal(n)[0] == decimal(n / 10)[0]);
    }
}

/// A signed number is its sign and its digits, and is read back as it is.
pub proof fn law_a_signed_number_is_read_back(
    n: i32,
    text: String,
    plain: String,
    s: &[char],
    r: Option<i32>,
)
    requires
        call_ensures(signed_decimal_text, (n as i64,), text),
        n >= 0 ==> call_ensures(decimal_text, (n as u64,), plain),
        n < 0 ==> call_ensures(decimal_text, ((-n) as u64,), plain),
        s@ == text@,
        call_ensures(parse_i32, (s,), r),
    ensures
        n >= 0 ==> text@ == plain@,
        n < 0 ==> text@ == seq!['-'] + plain@,
        r == Some(n),
{
    if n >= 0 {
        lemma_decimal_value(n as nat);
        assert(digit_value(text@[0], 10) is Some);
    } else {
        lemma_decimal_value((-n) as nat);
        assert(text@.skip(1) =~= plain@);
    }
}

/// A number that is read goes on with each digit that follows, tenfold; it has at least
/// one digit, at most one plus sign in front and nothing else, and fits its type.
pub proof fn law_a_number_is_read_digit_by_digit(
    s: &[char],
    longer: &[char],
    plus: &[char],
    c: char,
    d: nat,
    r: Option<u64>,
    more: Option<u64>,
    signed: Option<u64>,
    k: int,
)
    requires
        longer@ == s@.push(c),
        plus@ == seq!['+'] + s@,
        '0' <= c <= '9' && d == c as int - '0' as int,
        call_ensures(parse_u64, (s,), r),
        call_ensures(parse_u64, (longer,), more),
        call_ensures(parse_u64, (plus,), signed),
    ensures
        s@.len() == 0 ==> r is None && more == Some(d as u64),
        r matches Some(v) ==> (v * 10 + d <= u64::MAX ==> more == Some((v * 10 + d) as u64)) && (v
            * 10 + d > u64::MAX ==> more is None),
        s@.len() > 0 && s@[0] != '+' ==> signed == r,
        s@.len() > 0 && s@[0] == '+' ==> signed is None,
        0 <= k < s@.len() && !('0' <= s@[k] <= '9') && !(k == 0 && s@[k] == '+') ==> r is None,
{
    reveal_with_fuel(digits_value, 2);
    let bare = crate::number::without_plus(s@);
    let after = crate::number::without_plus(longer@);
    assert(longer@.drop_last() =~= s@);
    if s@.len() == 0 {
        assert(longer@ =~= seq![c]);
        assert(longer@.drop_last() =~= Seq::<char>::empty());
        assert(digits_value(longer@, 10) == d);
        assert(all_digits(longer@, 10)) by {
            assert(digit_value(c, 10) is Some);
        }
    } else {
        assert(longer@[0] == s@[0]);
        assert(after =~= bare.push(c));
        assert(after.drop_last() =~= bare);
        assert(digits_value(after, 10) == digits_value(bare, 10) * 10 + d);
        if all_digits(bare, 10) {
            assert forall|i: int| 0 <= i < after.len() implies #[trigger] digit_value(
                after[i],
                10,
            ) is Some by {
                if i < bare.len() {
                    assert(after[i] == bare[i]);
                }
            }
        }
        assert(plus@.skip(1) =~= s@);
        if s@[0] == '+' {
            assert(digit_value(s@[0], 10) is None);
            assert(!all_digits(s@, 10));
        }
    }
    if 0 <= k < s@.len() && !('0' <= s@[k] <= '9') && !(k == 0 && s@[k] == '+') {
        assert(digit_value(s@[k], 10) is None);
        let at: int = if s@[0] == '+' {
            k - 1
        } else {
            k
        };
        assert(bare[at] == s@[k]);
    }
}

} // verus!
