//! Text helpers shared by the other modules.

use vstd::prelude::*;
use vstd::string::StringExecFns;
use vstd::string::StrSliceExecFns;

verus! {

/// The lowercase form of a text, as `str::to_lowercase` of the standard library
/// produces it (Unicode lowercasing, not only ASCII).
pub uninterp spec fn lowercase(text: Seq<char>) -> Seq<char>;

/// Calls `str::to_lowercase`. Trusted: the result is the lowercase form of
/// the argument, which depends on the argument alone.
#[verifier::external_body]
pub(crate) fn to_lowercase(text: &str) -> (lower: String)
    ensures
        lower@ == lowercase(text@),
{
    text.to_lowercase()
}

/// Whether two texts hold the same characters.
pub fn str_eq(a: &str, b: &str) -> (same: bool)
    ensures
        same == (a@ == b@),
{
    let a_chars = chars_of(a);
    let b_chars = chars_of(b);
    if a_chars.len() != b_chars.len() {
        return false;
    }
    let mut i: usize = 0;
    while i < a_chars.len()
        invariant
            i <= a_chars.len(),
            a_chars.len() == b_chars.len(),
            a_chars@ == a@,
            b_chars@ == b@,
            forall|j: int| 0 <= j < i ==> a@[j] == b@[j],
        decreases a_chars.len() - i,
    {
        if a_chars[i] != b_chars[i] {
            return false;
        }
        i += 1;
    }
    assert(a@ =~= b@);
    true
}

/// The characters of an optional text.
pub open spec fn opt_text(value: Option<String>) -> Option<Seq<char>> {
    match value {
        Some(s) => Some(s@),
        None => None,
    }
}

/// A copy of an optional text.
pub fn clone_opt(value: &Option<String>) -> (copy: Option<String>)
    ensures
        opt_text(copy) == opt_text(*value),
{
    match value {
        Some(s) => Some(s.clone()),
        None => None,
    }
}

/// Whether two optional texts hold the same characters, or are both absent.
pub fn opt_eq(a: &Option<String>, b: &Option<String>) -> (same: bool)
    ensures
        same == (opt_text(*a) == opt_text(*b)),
{
    match (a, b) {
        (Some(x), Some(y)) => str_eq(x.as_str(), y.as_str()),
        (None, None) => true,
        _ => false,
    }
}

/// The characters of a text, one by one.
pub fn chars_of(text: &str) -> (chars: Vec<char>)
    ensures
        chars@ == text@,
{
    let mut chars: Vec<char> = Vec::new();
    for c in it: text.chars()
        invariant
            chars@ == text@.take(it.index() as int),
            it.seq() == text@,
    {
        chars.push(c);
    }
    chars
}

/// A character with the letters `A` to `Z` turned into `a` to `z`.
pub open spec fn ascii_lower(c: char) -> char {
    if 'A' <= c && c <= 'Z' {
        ((c as u8) + 32) as char
    } else {
        c
    }
}

pub fn ascii_lower_char(c: char) -> (lower: char)
    ensures
        lower == ascii_lower(c),
{
    if 'A' <= c && c <= 'Z' {
        ((c as u8) + 32) as char
    } else {
        c
    }
}

/// Whether `needle` stands in `hay` at position `at`, the case of ASCII letters
/// set aside.
pub open spec fn occurs_at(hay: Seq<char>, needle: Seq<char>, at: int) -> bool {
    &&& 0 <= at
    &&& at + needle.len() <= hay.len()
    &&& forall|k: int|
        0 <= k < needle.len() ==> ascii_lower(#[trigger] hay[at + k]) == ascii_lower(needle[k])
}

/// Whether `needle` stands somewhere in `hay`, the case of ASCII letters set
/// aside. The empty text stands in every text.
pub open spec fn contains_ignoring_ascii_case(hay: Seq<char>, needle: Seq<char>) -> bool {
    exists|at: int| occurs_at(hay, needle, at)
}

fn occurs_at_position(hay: &Vec<char>, needle: &Vec<char>, at: usize) -> (found: bool)
    requires
        at + needle.len() <= hay.len(),
    ensures
        found == occurs_at(hay@, needle@, at as int),
{
    let mut k: usize = 0;
    while k < needle.len()
        invariant
            k <= needle.len(),
            at + needle.len() <= hay.len(),
            forall|j: int|
                0 <= j < k ==> ascii_lower(#[trigger] hay@[at + j]) == ascii_lower(needle@[j]),
        decreases needle.len() - k,
    {
        if ascii_lower_char(hay[at + k]) != ascii_lower_char(needle[k]) {
            assert(ascii_lower(hay@[at + k]) != ascii_lower(needle@[k as int]));
            return false;
        }
        k += 1;
    }
    true
}

pub fn contains_ignore_ascii_case(hay: &str, needle: &str) -> (found: bool)
    ensures
        found == contains_ignoring_ascii_case(hay@, needle@),
{
    let hay_chars = chars_of(hay);
    let needle_chars = chars_of(needle);
    if needle_chars.len() > hay_chars.len() {
        return false;
    }
    let last: usize = hay_chars.len() - needle_chars.len();
    let mut at: usize = 0;
    while at <= last
        invariant
            at <= last + 1,
            last + needle_chars.len() == hay_chars.len(),
            hay_chars@ == hay@,
            needle_chars@ == needle@,
            forall|i: int| 0 <= i < at ==> !occurs_at(hay@, needle@, i),
        decreases last + 1 - at,
    {
        if occurs_at_position(&hay_chars, &needle_chars, at) {
            return true;
        }
        at += 1;
    }
    false
}

/// Whether text `a` sorts before text `b`: at the first place where they
/// differ `a` has the smaller character, or `a` ends there and `b` goes on.
pub open spec fn sorts_before(a: Seq<char>, b: Seq<char>) -> bool
    decreases a.len(),
{
    if b.len() == 0 {
        false
    } else if a.len() == 0 {
        true
    } else if a[0] != b[0] {
        (a[0] as u32) < (b[0] as u32)
    } else {
        sorts_before(a.drop_first(), b.drop_first())
    }
}

proof fn lemma_char_order(x: char, y: char)
    ensures
        x != y ==> ((x as u32) < (y as u32)) != ((y as u32) < (x as u32)),
{
}

/// Of two texts exactly one holds: the first sorts before the second, they are
/// equal, or the second sorts before the first.
pub proof fn lemma_sorts_before_total(a: Seq<char>, b: Seq<char>)
    ensures
        sorts_before(a, b) || a == b || sorts_before(b, a),
        !(sorts_before(a, b) && sorts_before(b, a)),
        !(sorts_before(a, b) && a == b),
    decreases a.len(),
{
    if a.len() == 0 || b.len() == 0 {
        if a.len() == 0 && b.len() == 0 {
            assert(a =~= b);
        }
    } else if a[0] != b[0] {
        lemma_char_order(a[0], b[0]);
    } else {
        lemma_sorts_before_total(a.drop_first(), b.drop_first());
        if a.drop_first() == b.drop_first() {
            assert forall|i: int| 0 <= i < a.len() implies a[i] == b[i] by {
                if i > 0 {
                    assert(a[i] == a.drop_first()[i - 1]);
                    assert(b[i] == b.drop_first()[i - 1]);
                }
            }
            assert(a.len() == a.drop_first().len() + 1);
            assert(b.len() == b.drop_first().len() + 1);
            assert(a =~= b);
        }
    }
}

pub proof fn lemma_sorts_before_transitive(a: Seq<char>, b: Seq<char>, c: Seq<char>)
    requires
        sorts_before(a, b),
        sorts_before(b, c),
    ensures
        sorts_before(a, c),
    decreases a.len(),
{
    if a.len() == 0 {
    } else if a[0] != b[0] || b[0] != c[0] {
    } else {
        lemma_sorts_before_transitive(a.drop_first(), b.drop_first(), c.drop_first());
    }
}

fn char_sorts_before(x: char, y: char) -> (before: bool)
    ensures
        before == ((x as u32) < (y as u32)),
{
    x < y
}

fn sorts_before_from(a: &Vec<char>, b: &Vec<char>, from: usize) -> (before: bool)
    requires
        from <= a.len(),
        from <= b.len(),
    ensures
        before == sorts_before(a@.skip(from as int), b@.skip(from as int)),
    decreases a.len() - from,
{
    let ghost rest_a = a@.skip(from as int);
    let ghost rest_b = b@.skip(from as int);
    if from >= b.len() {
        assert(rest_b.len() == 0);
        false
    } else if from >= a.len() {
        assert(rest_a.len() == 0);
        true
    } else {
        let x: char = a[from];
        let y: char = b[from];
        assert(rest_a[0] == x && rest_b[0] == y);
        if x != y {
            char_sorts_before(x, y)
        } else {
            assert(rest_a.drop_first() =~= a@.skip(from + 1));
            assert(rest_b.drop_first() =~= b@.skip(from + 1));
            sorts_before_from(a, b, from + 1)
        }
    }
}

pub fn text_sorts_before(a: &str, b: &str) -> (before: bool)
    ensures
        before == sorts_before(a@, b@),
{
    let a_chars = chars_of(a);
    let b_chars = chars_of(b);
    proof {
        assert(a_chars@.skip(0) =~= a@);
        assert(b_chars@.skip(0) =~= b@);
    }
    sorts_before_from(&a_chars, &b_chars, 0)
}

/// The character of a decimal digit.
pub open spec fn digit_char(digit: nat) -> char
    recommends
        digit < 10,
{
    ('0' as u8 + digit as u8) as char
}

/// A natural number in decimal notation, without leading zeros.
pub open spec fn decimal_digits(value: nat) -> Seq<char>
    decreases value,
{
    if value < 10 {
        seq![digit_char(value)]
    } else {
        decimal_digits(value / 10).push(digit_char(value % 10))
    }
}

/// A whole number in decimal notation, with `-` before a negative one.
pub open spec fn decimal_text(value: int) -> Seq<char> {
    if value < 0 {
        seq!['-'] + decimal_digits((-value) as nat)
    } else {
        decimal_digits(value as nat)
    }
}

pub(crate) fn digit_str(digit: u64) -> (text: &'static str)
    requires
        digit < 10,
    ensures
        text@ == seq![digit_char(digit as nat)],
{
    proof {
        reveal_strlit("0");
        reveal_strlit("1");
        reveal_strlit("2");
        reveal_strlit("3");
        reveal_strlit("4");
        reveal_strlit("5");
        reveal_strlit("6");
        reveal_strlit("7");
        reveal_strlit("8");
        reveal_strlit("9");
    }
    let text: &'static str = if digit == 0 {
        "0"
    } else if digit == 1 {
        "1"
    } else if digit == 2 {
        "2"
    } else if digit == 3 {
        "3"
    } else if digit == 4 {
        "4"
    } else if digit == 5 {
        "5"
    } else if digit == 6 {
        "6"
    } else if digit == 7 {
        "7"
    } else if digit == 8 {
        "8"
    } else {
        "9"
    };
    assert(text@ =~= seq![digit_char(digit as nat)]);
    text
}

pub(crate) fn append_digits(text: &mut String, value: u64)
    ensures
        final(text)@ == old(text)@ + decimal_digits(value as nat),
    decreases value,
{
    if value >= 10 {
        append_digits(text, value / 10);
    }
    text.append(digit_str(value % 10));
    assert(text@ =~= old(text)@ + decimal_digits(value as nat));
}

/// A whole number in decimal notation.
pub fn number_text(value: i64) -> (text: String)
    ensures
        text@ == decimal_text(value as int),
{
    let mut text = String::new();
    if value < 0 {
        proof {
            reveal_strlit("-");
        }
        text.append("-");
        let size: u64 = if value == i64::MIN {
            9223372036854775808u64
        } else {
            (-value) as u64
        };
        append_digits(&mut text, size);
        assert(text@ =~= seq!['-'] + decimal_digits((-value) as nat));
    } else {
        append_digits(&mut text, value as u64);
        assert(text@ =~= decimal_digits(value as nat));
    }
    text
}

/// Two texts, one after the other.
pub fn join_texts(first: &str, second: &str) -> (joined: String)
    ensures
        joined@ == first@ + second@,
{
    let mut joined = first.to_owned();
    joined.append(second);
    joined
}

/// Whether a character is white space: one of the characters with the
/// property `White_Space` of Unicode, by which the standard library tells
/// white space. Tab, line feed, carriage return and the space are among them.
pub open spec fn is_white_space(c: char) -> bool {
    let code = c as u32;
    ||| 0x09 <= code <= 0x0D
    ||| code == 0x20
    ||| code == 0x85
    ||| code == 0xA0
    ||| code == 0x1680
    ||| 0x2000 <= code <= 0x200A
    ||| code == 0x2028
    ||| code == 0x2029
    ||| code == 0x202F
    ||| code == 0x205F
    ||| code == 0x3000
}

/// A text without the white space at its start.
pub open spec fn without_leading_space(text: Seq<char>) -> Seq<char>
    decreases text.len(),
{
    if text.len() > 0 && is_white_space(text.first()) {
        without_leading_space(text.drop_first())
    } else {
        text
    }
}

/// A text without the white space at its end.
pub open spec fn without_trailing_space(text: Seq<char>) -> Seq<char>
    decreases text.len(),
{
    if text.len() > 0 && is_white_space(text.last()) {
        without_trailing_space(text.drop_last())
    } else {
        text
    }
}

/// A text without the white space at its start and at its end. White space
/// within the text stays.
pub open spec fn trimmed(text: Seq<char>) -> Seq<char> {
    without_trailing_space(without_leading_space(text))
}

/// Calls `str::trim`. Trusted: the result is the text without leading and
/// trailing white space, where white space is what `is_white_space` says.
#[verifier::external_body]
pub(crate) fn trim_text(text: &str) -> (short: String)
    ensures
        short@ == trimmed(text@),
{
    text.trim().to_string()
}

/// Whether two texts are equal, the case of ASCII letters set aside.
pub open spec fn same_ignoring_ascii_case(a: Seq<char>, b: Seq<char>) -> bool {
    &&& a.len() == b.len()
    &&& forall|i: int| 0 <= i < a.len() ==> ascii_lower(#[trigger] a[i]) == ascii_lower(b[i])
}

pub fn eq_ignore_ascii_case(a: &str, b: &str) -> (same: bool)
    ensures
        same == same_ignoring_ascii_case(a@, b@),
{
    let a_chars = chars_of(a);
    let b_chars = chars_of(b);
    if a_chars.len() != b_chars.len() {
        return false;
    }
    let mut i: usize = 0;
    while i < a_chars.len()
        invariant
            i <= a_chars.len(),
            a_chars.len() == b_chars.len(),
            a_chars@ == a@,
            b_chars@ == b@,
            forall|j: int| 0 <= j < i ==> ascii_lower(#[trigger] a@[j]) == ascii_lower(b@[j]),
        decreases a_chars.len() - i,
    {
        if ascii_lower_char(a_chars[i]) != ascii_lower_char(b_chars[i]) {
            assert(ascii_lower(a@[i as int]) != ascii_lower(b@[i as int]));
            return false;
        }
        i += 1;
    }
    true
}

/// A text without the characters `a` and `b`.
pub open spec fn without_chars(text: Seq<char>, a: char, b: char) -> Seq<char>
    decreases text.len(),
{
    if text.len() == 0 {
        Seq::empty()
    } else if text.last() == a || text.last() == b {
        without_chars(text.drop_last(), a, b)
    } else {
        without_chars(text.drop_last(), a, b).push(text.last())
    }
}

/// A text without the characters `a` and `b`.
pub fn remove_chars(text: &str, a: char, b: char) -> (kept: String)
    ensures
        kept@ == without_chars(text@, a, b),
{
    let count = text.unicode_len();
    let mut kept = String::new();
    let mut i: usize = 0;
    assert(text@.take(0) =~= Seq::<char>::empty());
    while i < count
        invariant
            i <= count,
            count == text@.len(),
            kept@ == without_chars(text@.take(i as int), a, b),
        decreases count - i,
    {
        let c = text.get_char(i);
        assert(text@.take(i + 1).drop_last() =~= text@.take(i as int));
        assert(text@.take(i + 1).last() == c);
        if c != a && c != b {
            let one = text.substring_char(i, i + 1);
            assert(one@ =~= seq![c]);
            kept.append(one);
            assert(kept@ =~= without_chars(text@.take(i as int), a, b).push(c));
        }
        i += 1;
    }
    assert(text@.take(count as int) =~= text@);
    kept
}

/// The characters of each text.
pub open spec fn texts_of(texts: Seq<String>) -> Seq<Seq<char>> {
    Seq::new(texts.len(), |i: int| texts[i]@)
}

} // verus!
