//! Text as sequences of characters.
//!
//! Every parser of the library works on `&[char]`, and its contract speaks of
//! the `Seq<char>` that the slice holds.
use vstd::prelude::*;
use vstd::slice::slice_subrange;

verus! {

/// A set of characters that text is trimmed or split by.
#[derive(Clone, Copy, Debug, PartialEq, Eq)]
pub enum CharClass {
    /// Unicode `White_Space`.
    WhiteSpace,
    /// Space, tab, line feed, form feed and carriage return.
    AsciiWhiteSpace,
    /// Line feed and carriage return.
    LineEnd,
    /// Slash and backslash.
    PathSeparator,
    /// One character.
    Just(char),
}

impl CharClass {
    /// Whether a character belongs to the class.
    pub open spec fn has(self, c: char) -> bool {
        match self {
            CharClass::WhiteSpace => is_white_space(c),
            CharClass::AsciiWhiteSpace => c == ' ' || c == '\t' || c == '\n' || c == '\u{c}' || c
                == '\r',
            CharClass::LineEnd => c == '\n' || c == '\r',
            CharClass::PathSeparator => c == '/' || c == '\\',
            CharClass::Just(only) => c == only,
        }
    }

    /// Whether the class holds `c`.
    pub fn contains(self, c: char) -> (r: bool)
        ensures
            r == self.has(c),
    {
        match self {
            CharClass::WhiteSpace => white_space(c),
            CharClass::AsciiWhiteSpace => c == ' ' || c == '\t' || c == '\n' || c == '\u{c}' || c
                == '\r',
            CharClass::LineEnd => c == '\n' || c == '\r',
            CharClass::PathSeparator => c == '/' || c == '\\',
            CharClass::Just(only) => c == only,
        }
    }
}

/// Unicode `White_Space`.
pub open spec fn is_white_space(c: char) -> bool {
    ||| '\t' <= c <= '\r'
    ||| c == ' '
    ||| c == '\u{85}'
    ||| c == '\u{a0}'
    ||| c == '\u{1680}'
    ||| '\u{2000}' <= c <= '\u{200a}'
    ||| c == '\u{2028}'
    ||| c == '\u{2029}'
    ||| c == '\u{202f}'
    ||| c == '\u{205f}'
    ||| c == '\u{3000}'
}

/// Whether `c` is Unicode `White_Space`.
pub fn white_space(c: char) -> (r: bool)
    ensures
        r == is_white_space(c),
{
    ('\t' <= c && c <= '\r') || c == ' ' || c == '\u{85}' || c == '\u{a0}' || c == '\u{1680}' || (
    '\u{2000}' <= c && c <= '\u{200a}') || c == '\u{2028}' || c == '\u{2029}' || c == '\u{202f}'
        || c == '\u{205f}' || c == '\u{3000}'
}

/// Unicode control characters (general category `Cc`).
pub open spec fn is_control(c: char) -> bool {
    c <= '\u{1f}' || '\u{7f}' <= c <= '\u{9f}'
}

/// Whether `c` is a control character.
pub fn control(c: char) -> (r: bool)
    ensures
        r == is_control(c),
{
    c <= '\u{1f}' || ('\u{7f}' <= c && c <= '\u{9f}')
}

/// The ASCII lower case of one character.
pub open spec fn lower_char(c: char) -> char {
    if 'A' <= c <= 'Z' {
        ((c as u32) + 32) as char
    } else {
        c
    }
}

/// The ASCII lower case of a text.
pub open spec fn lower(s: Seq<char>) -> Seq<char> {
    Seq::new(s.len(), |i: int| lower_char(s[i]))
}

/// The ASCII lower case of one character.
pub fn lower_char_of(c: char) -> (r: char)
    ensures
        r == lower_char(c),
{
    if 'A' <= c && c <= 'Z' {
        let code: u8 = c as u8;
        (code + 32) as char
    } else {
        c
    }
}

/// The characters of a text.
pub fn chars_of(text: &str) -> (r: Vec<char>)
    ensures
        r@ == text@,
{
    let mut chars: Vec<char> = Vec::new();
    for c in it: text.chars()
        invariant
            it.seq() == text@,
            chars@ == text@.take(it.index()),
    {
        chars.push(c);
        assert(chars@ =~= text@.take(it.index() + 1));
    }
    assert(text@.take(text@.len() as int) =~= text@);
    chars
}

/// The text that a run of characters spells.
pub fn text_of(chars: &[char]) -> (r: String)
    ensures
        r@ == chars@,
{
    let mut text = String::new();
    let mut i: usize = 0;
    while i < chars.len()
        invariant
            i <= chars@.len(),
            text@ == chars@.take(i as int),
        decreases chars@.len() - i,
    {
        text.push(chars[i]);
        i = i + 1;
        assert(chars@.take(i as int) =~= chars@.take(i - 1).push(chars@[i - 1]));
    }
    assert(chars@.take(chars@.len() as int) =~= chars@);
    text
}

/// `String::push`: appends one character and changes nothing else.
pub assume_specification[ String::push ](text: &mut String, c: char)
    ensures
        final(text)@ == old(text)@.push(c),
;

/// Whether two texts are the same.
pub fn same_text(a: &str, b: &str) -> (r: bool)
    ensures
        r == (a@ == b@),
{
    let left = chars_of(a);
    equals(left.as_slice(), b)
}

/// Whether a run of characters spells `text`.
pub fn equals(s: &[char], text: &str) -> (r: bool)
    ensures
        r == (s@ == text@),
{
    let t = chars_of(text);
    if s.len() != t.len() {
        return false;
    }
    let mut i: usize = 0;
    while i < s.len()
        invariant
            i <= s@.len() == t@.len(),
            t@ == text@,
            forall|k: int| 0 <= k < i ==> s@[k] == t@[k],
        decreases s@.len() - i,
    {
        if s[i] != t[i] {
            return false;
        }
        i = i + 1;
    }
    assert(s@ =~= t@);
    true
}

/// Whether a run of characters spells `text` but for the case of ASCII letters.
pub fn equals_ignore_case(s: &[char], text: &str) -> (r: bool)
    ensures
        r == (lower(s@) == lower(text@)),
{
    let t = chars_of(text);
    if s.len() != t.len() {
        assert(lower(s@).len() != lower(text@).len());
        return false;
    }
    let mut i: usize = 0;
    while i < s.len()
        invariant
            i <= s@.len() == t@.len(),
            t@ == text@,
            forall|k: int| 0 <= k < i ==> lower_char(s@[k]) == lower_char(t@[k]),
        decreases s@.len() - i,
    {
        if lower_char_of(s[i]) != lower_char_of(t[i]) {
            assert(lower(s@)[i as int] != lower(text@)[i as int]);
            return false;
        }
        i = i + 1;
    }
    assert(lower(s@) =~= lower(text@));
    true
}

/// The ASCII lower case of a run of characters.
pub fn lowered(s: &[char]) -> (r: Vec<char>)
    ensures
        r@ == lower(s@),
{
    let mut out: Vec<char> = Vec::new();
    let mut i: usize = 0;
    while i < s.len()
        invariant
            i <= s@.len(),
            out@.len() == i,
            forall|k: int| 0 <= k < i ==> out@[k] == lower_char(s@[k]),
        decreases s@.len() - i,
    {
        out.push(lower_char_of(s[i]));
        i = i + 1;
    }
    assert(out@ =~= lower(s@));
    out
}

/// Every `from` replaced by `to`.
pub open spec fn replace_char(s: Seq<char>, from: char, to: char) -> Seq<char> {
    Seq::new(
        s.len(),
        |i: int|
            if s[i] == from {
                to
            } else {
                s[i]
            },
    )
}

/// Every `from` replaced by `to`.
pub fn replaced_char(s: &[char], from: char, to: char) -> (r: Vec<char>)
    ensures
        r@ == replace_char(s@, from, to),
{
    let mut out: Vec<char> = Vec::new();
    let mut i: usize = 0;
    while i < s.len()
        invariant
            i <= s@.len(),
            out@ == replace_char(s@, from, to).take(i as int),
        decreases s@.len() - i,
    {
        let ghost before = out@;
        if s[i] == from {
            out.push(to);
        } else {
            out.push(s[i]);
        }
        i = i + 1;
        assert(out@ =~= replace_char(s@, from, to).take(i as int));
    }
    assert(replace_char(s@, from, to).take(i as int) =~= replace_char(s@, from, to));
    out
}

/// Whether `s` begins with `prefix`.
pub open spec fn begins_with(s: Seq<char>, prefix: Seq<char>) -> bool {
    prefix.len() <= s.len() && s.take(prefix.len() as int) == prefix
}

/// Whether `s` ends with `suffix`.
pub open spec fn finishes_with(s: Seq<char>, suffix: Seq<char>) -> bool {
    suffix.len() <= s.len() && s.skip(s.len() - suffix.len()) == suffix
}

/// Whether a run of characters begins with `prefix`.
pub fn starts_with(s: &[char], prefix: &str) -> (r: bool)
    ensures
        r == begins_with(s@, prefix@),
        r ==> prefix@.len() <= s@.len(),
{
    let p = chars_of(prefix);
    if p.len() > s.len() {
        return false;
    }
    let head = slice_subrange(s, 0, p.len());
    assert(head@ =~= s@.take(p@.len() as int));
    equals(head, prefix)
}

/// Whether a run of characters ends with `suffix`.
pub fn ends_with(s: &[char], suffix: &str) -> (r: bool)
    ensures
        r == finishes_with(s@, suffix@),
{
    let p = chars_of(suffix);
    if p.len() > s.len() {
        return false;
    }
    let tail = slice_subrange(s, s.len() - p.len(), s.len());
    assert(tail@ =~= s@.skip(s@.len() - p@.len()));
    equals(tail, suffix)
}

/// What follows `prefix`, or `None` where `s` does not begin with it.
pub open spec fn after_prefix(s: Seq<char>, prefix: Seq<char>) -> Option<Seq<char>> {
    if begins_with(s, prefix) {
        Some(s.skip(prefix.len() as int))
    } else {
        None
    }
}

/// What precedes `suffix`, or `None` where `s` does not end with it.
pub open spec fn before_suffix(s: Seq<char>, suffix: Seq<char>) -> Option<Seq<char>> {
    if finishes_with(s, suffix) {
        Some(s.take(s.len() - suffix.len()))
    } else {
        None
    }
}

/// The characters of an optional run.
pub open spec fn slice_view(s: Option<&[char]>) -> Option<Seq<char>> {
    match s {
        Some(run) => Some(run@),
        None => None,
    }
}

/// What follows `prefix`, or `None` where `s` does not begin with it.
pub fn strip_prefix<'a>(s: &'a [char], prefix: &str) -> (r: Option<&'a [char]>)
    ensures
        slice_view(r) == after_prefix(s@, prefix@),
{
    if starts_with(s, prefix) {
        let p = chars_of(prefix);
        let rest = slice_subrange(s, p.len(), s.len());
        assert(rest@ =~= s@.skip(prefix@.len() as int));
        Some(rest)
    } else {
        None
    }
}

/// What precedes `suffix`, or `None` where `s` does not end with it.
pub fn strip_suffix<'a>(s: &'a [char], suffix: &str) -> (r: Option<&'a [char]>)
    ensures
        slice_view(r) == before_suffix(s@, suffix@),
{
    if ends_with(s, suffix) {
        let p = chars_of(suffix);
        let rest = slice_subrange(s, 0, s.len() - p.len());
        assert(rest@ =~= s@.take(s@.len() - suffix@.len()));
        Some(rest)
    } else {
        None
    }
}

/// `s` without the leading characters of `class`.
pub open spec fn trim_front(s: Seq<char>, class: CharClass) -> Seq<char>
    decreases s.len(),
{
    if s.len() > 0 && class.has(s[0]) {
        trim_front(s.skip(1), class)
    } else {
        s
    }
}

/// `s` without the trailing characters of `class`.
pub open spec fn trim_back(s: Seq<char>, class: CharClass) -> Seq<char>
    decreases s.len(),
{
    if s.len() > 0 && class.has(s.last()) {
        trim_back(s.drop_last(), class)
    } else {
        s
    }
}

/// `s` without the characters of `class` at either end.
pub open spec fn trim_both(s: Seq<char>, class: CharClass) -> Seq<char> {
    trim_back(trim_front(s, class), class)
}

/// A run of characters without the leading ones of `class`.
pub fn trim_start<'a>(s: &'a [char], class: CharClass) -> (r: &'a [char])
    ensures
        r@ == trim_front(s@, class),
{
    let mut i: usize = 0;
    assert(s@.skip(0) =~= s@);
    while i < s.len() && class.contains(s[i])
        invariant
            i <= s@.len(),
            trim_front(s@, class) == trim_front(s@.skip(i as int), class),
        decreases s@.len() - i,
    {
        i = i + 1;
        assert(s@.skip(i - 1).skip(1) =~= s@.skip(i as int));
    }
    let rest = slice_subrange(s, i, s.len());
    assert(rest@ =~= s@.skip(i as int));
    rest
}

/// A run of characters without the trailing ones of `class`.
pub fn trim_end<'a>(s: &'a [char], class: CharClass) -> (r: &'a [char])
    ensures
        r@ == trim_back(s@, class),
{
    let mut n: usize = s.len();
    assert(s@.take(n as int) =~= s@);
    while n > 0 && class.contains(s[n - 1])
        invariant
            n <= s@.len(),
            trim_back(s@, class) == trim_back(s@.take(n as int), class),
        decreases n,
    {
        n = n - 1;
        assert(s@.take(n + 1).drop_last() =~= s@.take(n as int));
    }
    let rest = slice_subrange(s, 0, n);
    assert(rest@ =~= s@.take(n as int));
    rest
}

/// A run of characters without those of `class` at either end.
pub fn trim<'a>(s: &'a [char], class: CharClass) -> (r: &'a [char])
    ensures
        r@ == trim_both(s@, class),
{
    trim_end(trim_start(s, class), class)
}

/// How many characters precede the first one of `class`: all of them where
/// there is none.
pub open spec fn until(s: Seq<char>, class: CharClass) -> nat
    decreases s.len(),
{
    if s.len() == 0 || class.has(s[0]) {
        0
    } else {
        1 + until(s.skip(1), class)
    }
}

/// `until` stops at a character of the class or at the end.
pub proof fn lemma_until(s: Seq<char>, class: CharClass)
    ensures
        until(s, class) <= s.len(),
        until(s, class) < s.len() ==> class.has(s[until(s, class) as int]),
        forall|k: int| 0 <= k < until(s, class) ==> !class.has(#[trigger] s[k]),
    decreases s.len(),
{
    if s.len() > 0 && !class.has(s[0]) {
        lemma_until(s.skip(1), class);
        assert forall|k: int| 0 <= k < until(s, class) implies !class.has(#[trigger] s[k]) by {
            if k > 0 {
                assert(s[k] == s.skip(1)[k - 1]);
            }
        }
    }
}

/// The first place where a character of `class` stands; the length where there
/// is none.
pub fn position(s: &[char], class: CharClass) -> (r: usize)
    ensures
        r == until(s@, class),
        r <= s@.len(),
        r < s@.len() ==> class.has(s@[r as int]),
{
    let mut i: usize = 0;
    assert(s@.skip(0) =~= s@);
    while i < s.len() && !class.contains(s[i])
        invariant
            i <= s@.len(),
            until(s@, class) == i + until(s@.skip(i as int), class),
        decreases s@.len() - i,
    {
        i = i + 1;
        assert(s@.skip(i - 1).skip(1) =~= s@.skip(i as int));
    }
    proof {
        lemma_until(s@, class);
    }
    i
}

/// The pieces between the characters of `class`.
pub open spec fn pieces(s: Seq<char>, class: CharClass) -> Seq<Seq<char>>
    decreases s.len(),
{
    let n = until(s, class);
    if n >= s.len() {
        seq![s]
    } else {
        seq![s.take(n as int)] + pieces(s.skip(n as int + 1), class)
    }
}

/// The runs of a list of slices.
pub open spec fn runs(list: Seq<&[char]>) -> Seq<Seq<char>> {
    Seq::new(list.len(), |i: int| list[i]@)
}

/// The pieces between the characters of `class`.
pub fn split<'a>(s: &'a [char], class: CharClass) -> (r: Vec<&'a [char]>)
    ensures
        runs(r@) == pieces(s@, class),
        r@.len() >= 1,
{
    let mut out: Vec<&'a [char]> = Vec::new();
    let mut rest = s;
    assert(runs(out@) + pieces(rest@, class) =~= pieces(s@, class));
    loop
        invariant
            runs(out@) + pieces(rest@, class) == pieces(s@, class),
        decreases rest@.len(),
    {
        let n: usize = position(rest, class);
        let ghost before = out@;
        if n == rest.len() {
            assert(pieces(rest@, class) =~= seq![rest@]);
            out.push(rest);
            assert(runs(out@) =~= runs(before) + seq![rest@]);
            return out;
        }
        let piece = slice_subrange(rest, 0, n);
        let tail = slice_subrange(rest, n + 1, rest.len());
        assert(piece@ =~= rest@.take(n as int));
        assert(tail@ =~= rest@.skip(n + 1));
        out.push(piece);
        proof {
            assert(runs(out@) =~= runs(before) + seq![piece@]);
            assert(pieces(rest@, class) =~= seq![piece@] + pieces(tail@, class));
            assert(runs(before) + (seq![piece@] + pieces(tail@, class)) =~= (runs(before)
                + seq![piece@]) + pieces(tail@, class));
        }
        rest = tail;
    }
}

/// The non-empty pieces between the characters of `class`.
pub open spec fn words(s: Seq<char>, class: CharClass) -> Seq<Seq<char>> {
    nonempty(pieces(s, class))
}

/// The non-empty members, in order.
pub open spec fn nonempty(list: Seq<Seq<char>>) -> Seq<Seq<char>>
    decreases list.len(),
{
    if list.len() == 0 {
        Seq::empty()
    } else if list.last().len() == 0 {
        nonempty(list.drop_last())
    } else {
        nonempty(list.drop_last()).push(list.last())
    }
}

/// The non-empty pieces between the characters of `class`.
pub fn split_words<'a>(s: &'a [char], class: CharClass) -> (r: Vec<&'a [char]>)
    ensures
        runs(r@) == words(s@, class),
{
    let all = split(s, class);
    let mut out: Vec<&'a [char]> = Vec::new();
    let mut i: usize = 0;
    assert(runs(all@).take(0) =~= Seq::empty());
    while i < all.len()
        invariant
            i <= all@.len(),
            runs(out@) == nonempty(runs(all@).take(i as int)),
        decreases all@.len() - i,
    {
        let ghost before = out@;
        let piece = all[i];
        if piece.len() > 0 {
            out.push(piece);
        }
        i = i + 1;
        proof {
            assert(runs(all@).take(i as int).drop_last() =~= runs(all@).take(i - 1));
            assert(runs(all@).take(i as int).last() == piece@);
            if piece@.len() > 0 {
                assert(runs(out@) =~= runs(before).push(piece@));
            }
        }
    }
    assert(runs(all@).take(i as int) =~= runs(all@));
    out
}

/// The lines of a text: each ends with a line feed, which is dropped together
/// with one carriage return before it; the last may lack the line feed.
pub open spec fn lines(s: Seq<char>) -> Seq<Seq<char>>
    decreases s.len(),
{
    let n = until(s, CharClass::Just('\n'));
    if s.len() == 0 {
        Seq::empty()
    } else if n >= s.len() {
        seq![s]
    } else {
        seq![without_return(s.take(n as int))] + lines(s.skip(n as int + 1))
    }
}

/// A line without one carriage return at its end.
pub open spec fn without_return(line: Seq<char>) -> Seq<char> {
    if line.len() > 0 && line.last() == '\r' {
        line.drop_last()
    } else {
        line
    }
}

/// The lines of a text.
pub fn split_lines<'a>(s: &'a [char]) -> (r: Vec<&'a [char]>)
    ensures
        runs(r@) == lines(s@),
{
    let mut out: Vec<&'a [char]> = Vec::new();
    let mut rest = s;
    assert(runs(out@) + lines(rest@) =~= lines(s@));
    while rest.len() > 0
        invariant
            runs(out@) + lines(rest@) == lines(s@),
        decreases rest@.len(),
    {
        let n: usize = position(rest, CharClass::Just('\n'));
        let ghost before = out@;
        if n == rest.len() {
            out.push(rest);
            proof {
                assert(lines(rest@) =~= seq![rest@]);
                assert(runs(out@) =~= runs(before) + seq![rest@]);
            }
            return out;
        }
        let mut end: usize = n;
        if n > 0 && rest[n - 1] == '\r' {
            end = n - 1;
        }
        let line = slice_subrange(rest, 0, end);
        let tail = slice_subrange(rest, n + 1, rest.len());
        out.push(line);
        proof {
            assert(line@ =~= without_return(rest@.take(n as int)));
            assert(tail@ =~= rest@.skip(n + 1));
            assert(runs(out@) =~= runs(before) + seq![line@]);
            assert(lines(rest@) =~= seq![line@] + lines(tail@));
            assert(runs(before) + (seq![line@] + lines(tail@)) =~= (runs(before) + seq![line@])
                + lines(tail@));
        }
        rest = tail;
    }
    assert(lines(rest@) =~= Seq::empty());
    assert(runs(out@) + lines(rest@) =~= runs(out@));
    out
}

/// Where `needle` first stands in `s`.
pub open spec fn find_from(s: Seq<char>, needle: Seq<char>, at: int) -> Option<int>
    decreases s.len() + 1 - at,
{
    if at < 0 || at + needle.len() > s.len() {
        None
    } else if s.subrange(at, at + needle.len()) == needle {
        Some(at)
    } else {
        find_from(s, needle, at + 1)
    }
}

/// Where `needle` first stands in `s`.
pub open spec fn first_match(s: Seq<char>, needle: Seq<char>) -> Option<int> {
    find_from(s, needle, 0)
}

/// What `find_from` finds is the first match at or after `at`; `None` means
/// that there is none.
pub proof fn lemma_find_from(s: Seq<char>, needle: Seq<char>, at: int)
    requires
        0 <= at,
    ensures
        match find_from(s, needle, at) {
            Some(i) => {
                &&& at <= i <= s.len() - needle.len()
                &&& s.subrange(i, i + needle.len()) == needle
                &&& forall|k: int|
                    at <= k < i ==> #[trigger] s.subrange(k, k + needle.len()) != needle
            },
            None => forall|k: int|
                at <= k <= s.len() - needle.len() ==> #[trigger] s.subrange(k, k + needle.len())
                    != needle,
        },
    decreases s.len() + 1 - at,
{
    if at + needle.len() <= s.len() && s.subrange(at, at + needle.len()) != needle {
        lemma_find_from(s, needle, at + 1);
    }
}

/// The first place where `needle` stands in `s`.
pub fn find(s: &[char], needle: &str) -> (r: Option<usize>)
    ensures
        match r {
            Some(i) => first_match(s@, needle@) == Some(i as int) && i + needle@.len() <= s@.len(),
            None => first_match(s@, needle@) is None,
        },
{
    let p = chars_of(needle);
    if p.len() > s.len() {
        return None;
    }
    let mut i: usize = 0;
    while i <= s.len() - p.len()
        invariant
            p@ == needle@,
            p@.len() <= s@.len(),
            i <= s@.len() - p@.len() + 1,
            first_match(s@, needle@) == find_from(s@, needle@, i as int),
        decreases s@.len() - p@.len() + 1 - i,
    {
        let window = slice_subrange(s, i, i + p.len());
        if equals(window, needle) {
            return Some(i);
        }
        if i == s.len() - p.len() {
            assert(find_from(s@, needle@, i + 1) is None);
            return None;
        }
        i = i + 1;
    }
    None
}

/// Whether `needle` stands anywhere in `s`.
pub open spec fn has_text(s: Seq<char>, needle: Seq<char>) -> bool {
    exists|i: int| 0 <= i <= s.len() - needle.len() && #[trigger] s.subrange(i, i + needle.len())
        == needle
}

/// Whether `needle` stands anywhere in `s`.
pub fn contains_text(s: &[char], needle: &str) -> (r: bool)
    ensures
        r == has_text(s@, needle@),
{
    proof {
        lemma_find_from(s@, needle@, 0);
    }
    match find(s, needle) {
        Some(i) => {
            assert(s@.subrange(i as int, i + needle@.len()) == needle@);
            true
        },
        None => false,
    }
}

/// The texts of a list of strings.
pub open spec fn texts(list: Seq<String>) -> Seq<Seq<char>> {
    Seq::new(list.len(), |i: int| list[i]@)
}

/// The text of an optional string.
pub open spec fn optional_text(text: Option<&str>) -> Option<Seq<char>> {
    match text {
        Some(t) => Some(t@),
        None => None,
    }
}

/// The text of an optional string.
pub open spec fn owned_text(text: Option<String>) -> Option<Seq<char>> {
    match text {
        Some(t) => Some(t@),
        None => None,
    }
}

} // verus!
