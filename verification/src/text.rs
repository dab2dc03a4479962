//! Text as sequences of characters: splitting a message into words, cutting
//! words out of it, and putting text together.

use vstd::prelude::*;
use vstd::string::StrSliceExecFns;
use vstd::string::StringExecFns;

verus! {

/// Whether `c` is white space, as `char::is_whitespace` decides it.
pub uninterp spec fn char_is_whitespace(c: char) -> bool;

/// Whether `c` is a letter or a number, as `char::is_alphanumeric` decides it.
pub uninterp spec fn char_is_alphanumeric(c: char) -> bool;

/// Trusted: `char::is_whitespace` tells whether a character has the Unicode
/// property `White_Space`. The property is a table of the standard library;
/// the contract only names its answer.
pub assume_specification[ char::is_whitespace ](c: char) -> (b: bool)
    ensures
        b == char_is_whitespace(c),
;

/// Trusted: `char::is_alphanumeric` tells whether a character is alphabetic or
/// numeric by the Unicode tables of the standard library; the contract only
/// names its answer.
pub assume_specification[ char::is_alphanumeric ](c: char) -> (b: bool)
    ensures
        b == char_is_alphanumeric(c),
;

/// The text of each string of a sequence.
pub open spec fn texts(strings: Seq<String>) -> Seq<Seq<char>> {
    Seq::new(strings.len(), |i: int| strings[i]@)
}

/// The number of characters before the first white space of `s`, or the
/// length of `s` if it holds none.
pub open spec fn word_len(s: Seq<char>) -> nat
    decreases s.len(),
{
    if s.len() == 0 || char_is_whitespace(s[0]) {
        0
    } else {
        1 + word_len(s.drop_first())
    }
}

/// The words of `s`: its longest runs of characters that are not white space,
/// in the order in which they stand.
pub open spec fn words(s: Seq<char>) -> Seq<Seq<char>>
    decreases s.len(),
{
    if s.len() == 0 {
        Seq::empty()
    } else if char_is_whitespace(s[0]) {
        words(s.drop_first())
    } else {
        proof {
            lemma_word_len_bounded(s);
        }
        seq![s.take(word_len(s) as int)] + words(s.skip(word_len(s) as int))
    }
}

/// The pieces of `s` that lie between the given bounds.
pub open spec fn pieces(s: Seq<char>, bounds: Seq<(usize, usize)>) -> Seq<Seq<char>> {
    Seq::new(bounds.len(), |i: int| s.subrange(bounds[i].0 as int, bounds[i].1 as int))
}

/// Whether every bound marks a piece of `s` that is not empty.
pub open spec fn bounds_within(s: Seq<char>, bounds: Seq<(usize, usize)>) -> bool {
    forall|i: int| 0 <= i < bounds.len() ==> (#[trigger] bounds[i]).0 < bounds[i].1 <= s.len()
}

/// A word is never longer than the text it begins.
pub proof fn lemma_word_len_bounded(s: Seq<char>)
    ensures
        word_len(s) <= s.len(),
    decreases s.len(),
{
    if s.len() > 0 && !char_is_whitespace(s[0]) {
        lemma_word_len_bounded(s.drop_first());
    }
}

/// A word holds no white space, and white space or the end of the text
/// follows it.
pub proof fn lemma_word_len_stops_at_whitespace(s: Seq<char>)
    ensures
        forall|i: int| 0 <= i < word_len(s) ==> !char_is_whitespace(#[trigger] s[i]),
        word_len(s) < s.len() ==> char_is_whitespace(s[word_len(s) as int]),
    decreases s.len(),
{
    lemma_word_len_bounded(s);
    if s.len() > 0 && !char_is_whitespace(s[0]) {
        let rest = s.drop_first();
        lemma_word_len_bounded(rest);
        lemma_word_len_stops_at_whitespace(rest);
        assert forall|i: int| 0 <= i < word_len(s) implies !char_is_whitespace(#[trigger] s[i]) by {
            if i > 0 {
                assert(s[i] == rest[i - 1]);
            }
        }
        if word_len(s) < s.len() {
            assert(s[word_len(s) as int] == rest[word_len(rest) as int]);
        }
    }
}

/// Whether `w` can be a word: it has a character, and none of its characters
/// is white space.
pub open spec fn is_word(w: Seq<char>) -> bool {
    &&& w.len() > 0
    &&& forall|j: int| 0 <= j < w.len() ==> !char_is_whitespace(#[trigger] w[j])
}

/// Every word of a text has a character, and none of its characters is white
/// space.
pub proof fn lemma_words_hold_no_whitespace(s: Seq<char>)
    ensures
        forall|i: int| 0 <= i < words(s).len() ==> is_word(#[trigger] words(s)[i]),
    decreases s.len(),
{
    if s.len() > 0 {
        if char_is_whitespace(s[0]) {
            lemma_words_hold_no_whitespace(s.drop_first());
            assert(words(s) == words(s.drop_first()));
        } else {
            lemma_word_len_bounded(s);
            lemma_word_len_stops_at_whitespace(s);
            let n = word_len(s) as int;
            let first = s.take(n);
            let rest = words(s.skip(n));
            lemma_words_hold_no_whitespace(s.skip(n));
            assert(is_word(first)) by {
                assert forall|j: int| 0 <= j < first.len() implies !char_is_whitespace(
                    #[trigger] first[j],
                ) by {
                    assert(first[j] == s[j]);
                }
            }
            assert(words(s) == seq![first] + rest);
            assert forall|i: int| 0 <= i < words(s).len() implies is_word(
                #[trigger] words(s)[i],
            ) by {
                if i > 0 {
                    assert(words(s)[i] == rest[i - 1]);
                } else {
                    assert(words(s)[0] == first);
                }
            }
        }
    }
}

/// Skipping white space loses no word.
proof fn lemma_words_skip_whitespace(s: Seq<char>, i: int)
    requires
        0 <= i < s.len(),
        char_is_whitespace(s[i]),
    ensures
        words(s.skip(i)) == words(s.skip(i + 1)),
{
    assert(s.skip(i).drop_first() =~= s.skip(i + 1));
}

/// A character that is not white space lengthens the word it begins by one.
proof fn lemma_word_len_step(s: Seq<char>, i: int)
    requires
        0 <= i < s.len(),
        !char_is_whitespace(s[i]),
    ensures
        word_len(s.skip(i)) == 1 + word_len(s.skip(i + 1)),
{
    assert(s.skip(i).drop_first() =~= s.skip(i + 1));
}

/// The words from a character that is not white space on are the word it
/// begins and the words after that one.
proof fn lemma_words_take_word(s: Seq<char>, i: int, j: int)
    requires
        0 <= i < s.len(),
        !char_is_whitespace(s[i]),
        j == i + word_len(s.skip(i)),
    ensures
        j <= s.len(),
        words(s.skip(i)) == seq![s.subrange(i, j)] + words(s.skip(j)),
{
    lemma_word_len_bounded(s.skip(i));
    let n = word_len(s.skip(i)) as int;
    assert(s.skip(i).take(n) =~= s.subrange(i, j));
    assert(s.skip(i).skip(n) =~= s.skip(j));
}

/// The characters of `s`.
pub fn chars_of(s: &str) -> (chars: Vec<char>)
    ensures
        chars@ == s@,
{
    let mut chars: Vec<char> = Vec::new();
    for c in it: s.chars()
        invariant
            it.seq() == s@,
            chars@ == s@.take(it.index()),
    {
        proof {
            let i = it.index();
            assert(s@.take(i + 1) =~= s@.take(i).push(s@[i]));
        }
        chars.push(c);
    }
    assert(s@.take(s@.len() as int) =~= s@);
    chars
}

/// The part of `s` from character `from` up to character `to`.
pub fn cut(s: &str, from: usize, to: usize) -> (part: String)
    requires
        from <= to <= s@.len(),
    ensures
        part@ == s@.subrange(from as int, to as int),
{
    String::from_str(s.substring_char(from, to))
}

/// Where the words of `chars` begin and end.
pub fn word_bounds(chars: &Vec<char>) -> (bounds: Vec<(usize, usize)>)
    ensures
        pieces(chars@, bounds@) == words(chars@),
        bounds_within(chars@, bounds@),
{
    let n: usize = chars.len();
    let mut bounds: Vec<(usize, usize)> = Vec::new();
    let mut i: usize = 0;
    assert(chars@.skip(0) =~= chars@);
    while i < n
        invariant
            n == chars@.len(),
            i <= n,
            words(chars@) == pieces(chars@, bounds@) + words(chars@.skip(i as int)),
            bounds_within(chars@, bounds@),
        decreases n - i,
    {
        if chars[i].is_whitespace() {
            proof {
                lemma_words_skip_whitespace(chars@, i as int);
            }
            i = i + 1;
        } else {
            let start: usize = i;
            let mut end: usize = i;
            while end < n && !chars[end].is_whitespace()
                invariant
                    n == chars@.len(),
                    start <= end <= n,
                    word_len(chars@.skip(start as int)) == (end - start) + word_len(
                        chars@.skip(end as int),
                    ),
                decreases n - end,
            {
                proof {
                    lemma_word_len_step(chars@, end as int);
                }
                end = end + 1;
            }
            proof {
                lemma_word_len_step(chars@, start as int);
                lemma_words_take_word(chars@, start as int, end as int);
                assert(pieces(chars@, bounds@.push((start, end))) =~= pieces(chars@, bounds@)
                    + seq![chars@.subrange(start as int, end as int)]);
            }
            bounds.push((start, end));
            i = end;
        }
    }
    assert(chars@.skip(n as int) =~= Seq::<char>::empty());
    assert(pieces(chars@, bounds@) + Seq::<Seq<char>>::empty() =~= pieces(chars@, bounds@));
    bounds
}

/// The words of `s`: its longest runs of characters that are not white space.
pub fn split_words(s: &str) -> (found: Vec<String>)
    ensures
        texts(found@) == words(s@),
{
    let chars: Vec<char> = chars_of(s);
    let bounds: Vec<(usize, usize)> = word_bounds(&chars);
    let mut found: Vec<String> = Vec::new();
    let mut k: usize = 0;
    while k < bounds.len()
        invariant
            chars@ == s@,
            k <= bounds.len(),
            bounds_within(chars@, bounds@),
            found@.len() == k,
            texts(found@) == pieces(chars@, bounds@).take(k as int),
        decreases bounds.len() - k,
    {
        let (from, to) = bounds[k];
        let word: String = cut(s, from, to);
        proof {
            let all = pieces(chars@, bounds@);
            let longer = texts(found@.push(word));
            assert(longer.len() == k + 1);
            assert forall|i: int| 0 <= i < k + 1 implies longer[i] == all.take(k + 1)[i] by {
                if i < k {
                    assert(longer[i] == texts(found@)[i]);
                    assert(all.take(k as int)[i] == all[i]);
                }
            }
            assert(longer =~= all.take(k + 1));
        }
        found.push(word);
        k = k + 1;
    }
    assert(pieces(chars@, bounds@).take(k as int) =~= pieces(chars@, bounds@));
    found
}

/// `a` followed by `b`.
pub fn glue(a: &str, b: &str) -> (both: String)
    ensures
        both@ == a@ + b@,
{
    let mut both: String = String::from_str(a);
    both.append(b);
    both
}

/// `a` followed by `b` and `c`.
pub fn glue3(a: &str, b: &str, c: &str) -> (all: String)
    ensures
        all@ == a@ + b@ + c@,
{
    let mut all: String = String::from_str(a);
    all.append(b);
    all.append(c);
    all
}

/// The words from number `from` on, with `sep` between each two of them.
pub open spec fn joined(words: Seq<Seq<char>>, from: int, sep: Seq<char>) -> Seq<char>
    decreases words.len() - from,
{
    if from >= words.len() {
        Seq::empty()
    } else if from == words.len() - 1 {
        words[from]
    } else {
        words[from] + sep + joined(words, from + 1, sep)
    }
}

/// Joins the words from number `from` on, with `sep` between each two of them.
pub fn join_from(words: &Vec<String>, from: usize, sep: &str) -> (line: String)
    ensures
        line@ == joined(texts(words@), from as int, sep@),
    decreases words.len() - from,
{
    if from >= words.len() {
        String::new()
    } else if from == words.len() - 1 {
        words[from].clone()
    } else {
        let rest: String = join_from(words, from + 1, sep);
        glue3(words[from].as_str(), sep, rest.as_str())
    }
}

/// The decimal digit `d`.
pub open spec fn digit(d: int) -> char {
    if d == 0 {
        '0'
    } else if d == 1 {
        '1'
    } else if d == 2 {
        '2'
    } else if d == 3 {
        '3'
    } else if d == 4 {
        '4'
    } else if d == 5 {
        '5'
    } else if d == 6 {
        '6'
    } else if d == 7 {
        '7'
    } else if d == 8 {
        '8'
    } else {
        '9'
    }
}

/// The number `n` written in decimal.
pub open spec fn decimal(n: nat) -> Seq<char>
    decreases n,
{
    if n < 10 {
        seq![digit(n as int)]
    } else {
        decimal(n / 10).push(digit((n % 10) as int))
    }
}

/// The decimal digit `d` as text.
fn digit_text(d: u8) -> (text: &'static str)
    requires
        d < 10,
    ensures
        text@ == seq![digit(d as int)],
{
    proof {
        reveal_strlit("0");
        reveal_strlit("1");
        reveal_strlit("2");
        reveal_strlit("3");
        reveal_strlit("4");
        reveal_strlit("5");
        reveal_strlit("6");
        reveal_strlit("7");
        reveal_strlit("8");
        reveal_strlit("9");
    }
    let text: &'static str = match d {
        0 => "0",
        1 => "1",
        2 => "2",
        3 => "3",
        4 => "4",
        5 => "5",
        6 => "6",
        7 => "7",
        8 => "8",
        _ => "9",
    };
    assert(text@ =~= seq![digit(d as int)]);
    text
}

/// Writes `n` in decimal.
pub fn to_decimal(n: u128) -> (text: String)
    ensures
        text@ == decimal(n as nat),
    decreases n,
{
    if n < 10 {
        String::from_str(digit_text(n as u8))
    } else {
        let mut text: String = to_decimal(n / 10);
        text.append(digit_text((n % 10) as u8));
        assert(text@ =~= decimal((n / 10) as nat).push(digit((n % 10) as int)));
        text
    }
}

/// The last `width` decimal digits of `n`, with zeros in front where `n` has
/// fewer.
pub open spec fn decimal_padded(n: nat, width: nat) -> Seq<char>
    decreases width,
{
    if width == 0 {
        Seq::empty()
    } else {
        decimal_padded(n / 10, (width - 1) as nat).push(digit((n % 10) as int))
    }
}

/// Writes the last `width` decimal digits of `n`, with zeros in front where
/// `n` has fewer.
pub fn to_decimal_padded(n: u128, width: u8) -> (text: String)
    ensures
        text@ == decimal_padded(n as nat, width as nat),
    decreases width,
{
    if width == 0 {
        String::new()
    } else {
        let mut text: String = to_decimal_padded(n / 10, width - 1);
        text.append(digit_text((n % 10) as u8));
        assert(text@ =~= decimal_padded((n / 10) as nat, (width - 1) as nat).push(
            digit((n % 10) as int),
        ));
        text
    }
}

/// `s` with `with` in place of every `c`.
pub open spec fn char_replaced(s: Seq<char>, c: char, with: Seq<char>) -> Seq<char>
    decreases s.len(),
{
    if s.len() == 0 {
        Seq::empty()
    } else if s.last() == c {
        char_replaced(s.drop_last(), c, with) + with
    } else {
        char_replaced(s.drop_last(), c, with).push(s.last())
    }
}

/// Writes `s` with `with` in place of every `c`.
pub fn replace_char(s: &str, c: char, with: &str) -> (text: String)
    ensures
        text@ == char_replaced(s@, c, with@),
{
    let chars: Vec<char> = chars_of(s);
    let mut text: String = String::new();
    // the text between two `c` is copied in one piece
    let mut from: usize = 0;
    let mut i: usize = 0;
    assert(s@.subrange(0, 0) =~= Seq::<char>::empty());
    assert(s@.take(0) =~= Seq::<char>::empty());
    while i < chars.len()
        invariant
            chars@ == s@,
            from <= i <= chars.len(),
            text@ + s@.subrange(from as int, i as int) == char_replaced(s@.take(i as int), c, with@),
        decreases chars.len() - i,
    {
        let ghost done = text@ + s@.subrange(from as int, i as int);
        proof {
            assert(s@.take(i + 1).drop_last() =~= s@.take(i as int));
            assert(s@.take(i + 1).last() == s@[i as int]);
        }
        if chars[i] == c {
            text.append(s.substring_char(from, i));
            text.append(with);
            from = i + 1;
            assert(text@ + s@.subrange(from as int, i + 1) =~= done + with@);
        } else {
            assert(text@ + s@.subrange(from as int, i + 1) =~= done.push(s@[i as int]));
        }
        i = i + 1;
    }
    text.append(s.substring_char(from, i));
    assert(s@.take(i as int) =~= s@);
    text
}

/// The number of white space characters that `s` begins with.
pub open spec fn leading_whitespace(s: Seq<char>) -> nat
    decreases s.len(),
{
    if s.len() > 0 && char_is_whitespace(s[0]) {
        1 + leading_whitespace(s.drop_first())
    } else {
        0
    }
}

/// `s` without the white space it ends with.
pub open spec fn trimmed_end(s: Seq<char>) -> Seq<char>
    decreases s.len(),
{
    if s.len() > 0 && char_is_whitespace(s.last()) {
        trimmed_end(s.drop_last())
    } else {
        s
    }
}

/// `s` without the white space it begins and ends with.
pub open spec fn trimmed(s: Seq<char>) -> Seq<char> {
    trimmed_end(s.skip(leading_whitespace(s) as int))
}

/// `s` without the white space it begins and ends with.
pub fn trim(s: &str) -> (text: String)
    ensures
        text@ == trimmed(s@),
{
    let chars: Vec<char> = chars_of(s);
    let n: usize = chars.len();
    let mut from: usize = 0;
    assert(s@.skip(0) =~= s@);
    while from < n && chars[from].is_whitespace()
        invariant
            chars@ == s@,
            n == chars@.len(),
            from <= n,
            leading_whitespace(s@) == from + leading_whitespace(s@.skip(from as int)),
        decreases n - from,
    {
        proof {
            assert(s@.skip(from as int).drop_first() =~= s@.skip(from + 1));
        }
        from = from + 1;
    }
    assert(leading_whitespace(s@) == from) by {
        if from < n {
            assert(s@.skip(from as int)[0] == s@[from as int]);
        }
    }
    let mut to: usize = n;
    assert(s@.subrange(from as int, n as int) =~= s@.skip(from as int));
    while to > from && chars[to - 1].is_whitespace()
        invariant
            chars@ == s@,
            n == chars@.len(),
            from <= to <= n,
            trimmed(s@) == trimmed_end(s@.subrange(from as int, to as int)),
        decreases to,
    {
        proof {
            assert(s@.subrange(from as int, to as int).drop_last() =~= s@.subrange(
                from as int,
                to - 1,
            ));
        }
        to = to - 1;
    }
    cut(s, from, to)
}

/// The place of the first `c` in `s`, or the length of `s` if it holds none.
pub open spec fn first_index_of(s: Seq<char>, c: char) -> nat
    decreases s.len(),
{
    if s.len() == 0 || s[0] == c {
        0
    } else {
        1 + first_index_of(s.drop_first(), c)
    }
}

/// The part of `s` before its first `c`; all of `s` if it holds none.
pub open spec fn before_first(s: Seq<char>, c: char) -> Seq<char> {
    s.take(first_index_of(s, c) as int)
}

/// The part of `s` behind its first `c`; nothing if it holds none.
pub open spec fn after_first(s: Seq<char>, c: char) -> Seq<char> {
    if first_index_of(s, c) < s.len() {
        s.skip(first_index_of(s, c) as int + 1)
    } else {
        Seq::empty()
    }
}

/// Splits `s` at its first `c`: the part before it, and the part behind it.
/// Without a `c` the first part is all of `s` and the second is empty.
pub fn split_at_first(s: &str, c: char) -> (parts: (String, String))
    ensures
        parts.0@ == before_first(s@, c),
        parts.1@ == after_first(s@, c),
{
    let chars: Vec<char> = chars_of(s);
    let n: usize = chars.len();
    let mut at: usize = 0;
    assert(s@.skip(0) =~= s@);
    while at < n && chars[at] != c
        invariant
            chars@ == s@,
            n == chars@.len(),
            at <= n,
            first_index_of(s@, c) == at + first_index_of(s@.skip(at as int), c),
        decreases n - at,
    {
        proof {
            assert(s@.skip(at as int).drop_first() =~= s@.skip(at + 1));
        }
        at = at + 1;
    }
    assert(first_index_of(s@, c) == at) by {
        if at < n {
            assert(s@.skip(at as int)[0] == s@[at as int]);
        }
    }
    let head: String = cut(s, 0, at);
    assert(s@.subrange(0, at as int) =~= s@.take(at as int));
    if at < n {
        let tail: String = cut(s, at + 1, n);
        assert(s@.subrange(at + 1, n as int) =~= s@.skip(at + 1));
        (head, tail)
    } else {
        (head, String::new())
    }
}

/// Whether `c` is a decimal digit.
pub open spec fn is_digit(c: char) -> bool {
    '0' <= c <= '9'
}

/// The number that the decimal digit `c` stands for.
pub open spec fn digit_value(c: char) -> int {
    c as int - '0' as int
}

/// Whether `s` holds nothing but decimal digits.
pub open spec fn all_digits(s: Seq<char>) -> bool {
    forall|i: int| 0 <= i < s.len() ==> is_digit(#[trigger] s[i])
}

/// The number that the decimal digits `s` stand for.
pub open spec fn digits_value(s: Seq<char>) -> int
    decreases s.len(),
{
    if s.len() == 0 {
        0
    } else {
        digits_value(s.drop_last()) * 10 + digit_value(s.last())
    }
}

/// `s` without the sign it begins with, if it begins with one.
pub open spec fn unsigned_part(s: Seq<char>) -> Seq<char> {
    if s.len() > 0 && (s[0] == '-' || s[0] == '+') {
        s.drop_first()
    } else {
        s
    }
}

/// The number that `s` stands for in decimal: a sign `+` or `-`, which may be
/// missing, and then digits and nothing else, at least one. A number that is
/// too large or too small for an `isize` is none.
pub open spec fn parsed_isize(s: Seq<char>) -> Option<isize> {
    let digits = unsigned_part(s);
    let value = if s.len() > 0 && s[0] == '-' {
        -digits_value(digits)
    } else {
        digits_value(digits)
    };
    if digits.len() > 0 && all_digits(digits) && isize::MIN <= value <= isize::MAX {
        Some(value as isize)
    } else {
        None
    }
}

/// More digits do not make a number smaller.
pub proof fn lemma_digits_value_grows(s: Seq<char>, k: int)
    requires
        all_digits(s),
        0 <= k <= s.len(),
    ensures
        0 <= digits_value(s.take(k)) <= digits_value(s),
    decreases s.len() - k,
{
    if k < s.len() {
        lemma_digits_value_grows(s, k + 1);
        assert(s.take(k + 1).drop_last() =~= s.take(k));
        assert(is_digit(s[k]));
        lemma_digits_value_nonnegative(s.take(k));
    } else {
        assert(s.take(k) =~= s);
        lemma_digits_value_nonnegative(s);
    }
}

/// Digits stand for a number that is not negative.
pub proof fn lemma_digits_value_nonnegative(s: Seq<char>)
    requires
        all_digits(s),
    ensures
        0 <= digits_value(s),
    decreases s.len(),
{
    if s.len() > 0 {
        assert(is_digit(s.last()));
        lemma_digits_value_nonnegative(s.drop_last());
    }
}

/// The number that `s` stands for in decimal, if it stands for one that an
/// `isize` can hold.
pub fn parse_isize(s: &str) -> (number: Option<isize>)
    ensures
        number == parsed_isize(s@),
{
    let chars: Vec<char> = chars_of(s);
    let n: usize = chars.len();
    let negative: bool = n > 0 && chars[0] == '-';
    let from: usize = if n > 0 && (chars[0] == '-' || chars[0] == '+') {
        1
    } else {
        0
    };
    let ghost digits = unsigned_part(s@);
    assert(digits =~= s@.skip(from as int));
    if from == n {
        return None;
    }
    let limit: i128 = isize::MAX as i128 + 1;
    let mut value: i128 = 0;
    let mut i: usize = from;
    assert(digits.take(0) =~= Seq::<char>::empty());
    while i < n
        invariant
            chars@ == s@,
            n == chars@.len(),
            from <= i <= n,
            from <= 1,
            digits == s@.skip(from as int),
            digits == unsigned_part(s@),
            limit == isize::MAX + 1,
            forall|k: int| 0 <= k < i - from ==> is_digit(#[trigger] digits[k]),
            value == digits_value(digits.take(i - from)),
            0 <= value <= limit,
        decreases n - i,
    {
        let c: char = chars[i];
        assert(digits[i - from] == c);
        if !(c >= '0' && c <= '9') {
            assert(!is_digit(digits[i - from]));
            return None;
        }
        proof {
            assert(digits.take(i - from + 1).drop_last() =~= digits.take(i - from));
        }
        let d: i128 = (c as u32 - '0' as u32) as i128;
        value = value * 10 + d;
        if value > limit {
            // the rest can only be more digits, or no number at all
            proof {
                if all_digits(digits) {
                    lemma_digits_value_grows(digits, i - from + 1);
                }
            }
            return None;
        }
        i = i + 1;
    }
    assert(digits.take(n - from) =~= digits);
    if negative {
        Some((-value) as isize)
    } else if value == limit {
        None
    } else {
        Some(value as isize)
    }
}

/// `s` in lower case, as `str::to_lowercase` writes it.
pub uninterp spec fn lowercased(s: Seq<char>) -> Seq<char>;

/// Trusted: `str::to_lowercase` returns the lower case equivalent of the text,
/// by the Unicode tables of the standard library; the contract only names the
/// result.
#[verifier::external_body]
pub(crate) fn to_lowercase(s: &str) -> (lower: String)
    ensures
        lower@ == lowercased(s@),
{
    s.to_lowercase()
}

/// Whether `a` and `b` are the same text.
pub fn same_text(a: &str, b: &str) -> (same: bool)
    ensures
        same == (a@ == b@),
{
    let left: Vec<char> = chars_of(a);
    let right: Vec<char> = chars_of(b);
    if left.len() != right.len() {
        return false;
    }
    let mut i: usize = 0;
    while i < left.len()
        invariant
            left@ == a@,
            right@ == b@,
            left.len() == right.len(),
            i <= left.len(),
            forall|k: int| 0 <= k < i ==> left@[k] == right@[k],
        decreases left.len() - i,
    {
        if left[i] != right[i] {
            return false;
        }
        i = i + 1;
    }
    assert(a@ =~= b@);
    true
}

} // verus!
