//! Character classes and string building blocks shared by the validator, the
//! reply texts and the chat command parser.
//!
//! Strings are specified through their view, a `Seq<char>`. The executable
//! functions walk a string once, character by character.

use vstd::prelude::*;
use vstd::std_specs::iter::IteratorSpec;

verus! {

broadcast use vstd::string::group_string_axioms;

/// The five characters that count as ASCII whitespace: space, tab, line feed,
/// form feed and carriage return.
pub open spec fn is_ascii_space(c: char) -> bool {
    c == ' ' || c == '\t' || c == '\n' || c == '\u{c}' || c == '\r'
}

/// ASCII digits `0` to `9`.
pub open spec fn is_ascii_digit(c: char) -> bool {
    '0' <= c <= '9'
}

/// ASCII letters of either case.
pub open spec fn is_ascii_letter(c: char) -> bool {
    ('a' <= c <= 'z') || ('A' <= c <= 'Z')
}

/// The punctuation that a spoken message may keep.
pub open spec fn is_spoken_punctuation(c: char) -> bool {
    c == ',' || c == '.' || c == '!' || c == '?' || c == '$' || c == '\''
}

/// A character survives cleaning when it is an ASCII digit, an ASCII letter,
/// ASCII whitespace or one of `, . ! ? $ '`.
pub open spec fn is_spoken(c: char) -> bool {
    is_ascii_digit(c) || is_ascii_letter(c) || is_ascii_space(c) || is_spoken_punctuation(c)
}

/// ASCII whitespace becomes a single space; every other character is left alone.
pub open spec fn blank_whitespace(c: char) -> char {
    if is_ascii_space(c) {
        ' '
    } else {
        c
    }
}

/// The cleaned form of a message: whitespace is blanked character by
/// character, then everything that is not spoken is dropped. Runs of spaces
/// are not merged.
pub open spec fn clean(s: Seq<char>) -> Seq<char> {
    s.map_values(|c: char| blank_whitespace(c)).filter(|c: char| is_spoken(c))
}

/// Characters with the Unicode `White_Space` property, the ones that trimming
/// removes from both ends of a string.
pub open spec fn is_whitespace(c: char) -> bool {
    ('\u{9}' <= c <= '\u{d}') || c == ' ' || c == '\u{85}' || c == '\u{a0}' || c == '\u{1680}'
        || ('\u{2000}' <= c <= '\u{200a}') || c == '\u{2028}' || c == '\u{2029}' || c
        == '\u{202f}' || c == '\u{205f}' || c == '\u{3000}'
}

/// `s` without its leading whitespace.
pub open spec fn trim_start(s: Seq<char>) -> Seq<char>
    decreases s.len(),
{
    if s.len() > 0 && is_whitespace(s[0]) {
        trim_start(s.drop_first())
    } else {
        s
    }
}

/// `s` without its trailing whitespace.
pub open spec fn trim_end(s: Seq<char>) -> Seq<char>
    decreases s.len(),
{
    if s.len() > 0 && is_whitespace(s.last()) {
        trim_end(s.drop_last())
    } else {
        s
    }
}

/// `s` without leading and trailing whitespace.
pub open spec fn trim(s: Seq<char>) -> Seq<char> {
    trim_end(trim_start(s))
}

/// The index of the first `c` in `s`, or the length of `s` when there is none.
pub open spec fn position(s: Seq<char>, c: char) -> int
    decreases s.len(),
{
    if s.len() == 0 || s[0] == c {
        0
    } else {
        1 + position(s.drop_first(), c)
    }
}

/// The character that writes the digit `d`.
pub open spec fn digit_char(d: nat) -> char
    recommends
        d < 10,
{
    ((48 + d) as u8) as char
}

/// The decimal notation of `n`, without sign or leading zeros.
pub open spec fn decimal(n: nat) -> Seq<char>
    decreases n,
{
    if n < 10 {
        seq![digit_char(n)]
    } else {
        decimal(n / 10).push(digit_char(n % 10))
    }
}

/// The view of an optional string.
pub open spec fn text_of(text: Option<String>) -> Option<Seq<char>> {
    match text {
        Some(t) => Some(t@),
        None => None,
    }
}

/// Appends one character to a string with `String::push`: the new contents
/// are the old contents followed by `c`.
#[verifier::external_body]
pub(crate) fn push_char(s: &mut String, c: char)
    ensures
        final(s)@ == old(s)@.push(c),
{
    s.push(c)
}

/// Tells whether `c` is ASCII whitespace.
pub fn char_is_ascii_space(c: char) -> (b: bool)
    ensures
        b == is_ascii_space(c),
{
    c == ' ' || c == '\t' || c == '\n' || c == '\u{c}' || c == '\r'
}

/// Tells whether `c` survives cleaning.
pub fn char_is_spoken(c: char) -> (b: bool)
    ensures
        b == is_spoken(c),
{
    (c >= '0' && c <= '9') || (c >= 'a' && c <= 'z') || (c >= 'A' && c <= 'Z')
        || char_is_ascii_space(c) || c == ',' || c == '.' || c == '!' || c == '?' || c == '$'
        || c == '\''
}

/// Tells whether trimming removes `c`.
pub fn char_is_whitespace(c: char) -> (b: bool)
    ensures
        b == is_whitespace(c),
{
    (c >= '\u{9}' && c <= '\u{d}') || c == ' ' || c == '\u{85}' || c == '\u{a0}' || c
        == '\u{1680}' || (c >= '\u{2000}' && c <= '\u{200a}') || c == '\u{2028}' || c
        == '\u{2029}' || c == '\u{202f}' || c == '\u{205f}' || c == '\u{3000}'
}

/// Cleaning a message one character longer either appends the blanked last
/// character or leaves the cleaned prefix as it is.
pub proof fn lemma_clean_push(s: Seq<char>, c: char)
    ensures
        clean(s.push(c)) == if is_spoken(blank_whitespace(c)) {
            clean(s).push(blank_whitespace(c))
        } else {
            clean(s)
        },
{
    let f = |c: char| blank_whitespace(c);
    let p = |c: char| is_spoken(c);
    assert(s.push(c).map_values(f) =~= s.map_values(f).push(f(c)));
    Seq::lemma_filter_push(s.map_values(f), f(c), p);
}

/// Every character of a cleaned message is spoken and is not whitespace other
/// than the space itself.
pub proof fn lemma_clean_chars(s: Seq<char>)
    ensures
        forall|i: int|
            0 <= i < clean(s).len() ==> is_spoken(#[trigger] clean(s)[i]) && blank_whitespace(
                clean(s)[i],
            ) == clean(s)[i],
    decreases s.len(),
{
    if s.len() > 0 {
        lemma_clean_chars(s.drop_last());
        lemma_clean_push(s.drop_last(), s.last());
        assert(s.drop_last().push(s.last()) =~= s);
    } else {
        assert(clean(s) =~= Seq::<char>::empty());
    }
}

/// A message made only of spoken characters, with no whitespace but spaces,
/// is its own cleaned form.
pub proof fn lemma_clean_fixpoint(s: Seq<char>)
    requires
        forall|i: int| 0 <= i < s.len() ==> is_spoken(#[trigger] s[i]) && blank_whitespace(s[i]) == s[i],
    ensures
        clean(s) == s,
    decreases s.len(),
{
    if s.len() > 0 {
        lemma_clean_fixpoint(s.drop_last());
        lemma_clean_push(s.drop_last(), s.last());
        assert(s.drop_last().push(s.last()) =~= s);
    } else {
        assert(clean(s) =~= s);
    }
}

/// Cleaning is idempotent: a cleaned message is left unchanged by cleaning it
/// again.
pub proof fn lemma_clean_idempotent(s: Seq<char>)
    ensures
        clean(clean(s)) == clean(s),
{
    lemma_clean_chars(s);
    lemma_clean_fixpoint(clean(s));
}

/// Cleans a message: whitespace is blanked, then every character that is not
/// spoken is dropped.
pub fn clean_tts_message(message: &str) -> (cleaned: String)
    ensures
        cleaned@ == clean(message@),
{
    let mut out = String::new();
    let mut it = message.chars();
    let ghost mut seen: Seq<char> = Seq::empty();
    assert(clean(seen) =~= Seq::<char>::empty());
    assert(seen + it.remaining() =~= message@);
    loop
        invariant
            seen + it.remaining() == message@,
            out@ == clean(seen),
            it.decrease() is Some,
        ensures
            it.remaining().len() == 0,
        decreases it.decrease()->0,
    {
        match it.next() {
            Some(c) => {
                proof {
                    lemma_clean_push(seen, c);
                    assert(seen.push(c) + it.remaining() =~= message@);
                    seen = seen.push(c);
                }
                let b = if char_is_ascii_space(c) {
                    ' '
                } else {
                    c
                };
                if char_is_spoken(b) {
                    push_char(&mut out, b);
                }
            },
            None => {
                break ;
            },
        }
    }
    assert(seen =~= message@);
    out
}

/// The characters of a string, in order.
pub fn to_chars(s: &str) -> (chars: Vec<char>)
    ensures
        chars@ == s@,
{
    let mut out: Vec<char> = Vec::new();
    let mut it = s.chars();
    assert(out@ + it.remaining() =~= s@);
    loop
        invariant
            out@ + it.remaining() == s@,
            it.decrease() is Some,
        ensures
            it.remaining().len() == 0,
        decreases it.decrease()->0,
    {
        match it.next() {
            Some(c) => {
                assert(out@.push(c) + it.remaining() =~= s@);
                out.push(c);
            },
            None => {
                break ;
            },
        }
    }
    assert(out@ =~= s@);
    out
}

/// The string made of the characters `chars[from..to]`.
pub fn from_chars(chars: &Vec<char>, from: usize, to: usize) -> (s: String)
    requires
        from <= to <= chars.len(),
    ensures
        s@ == chars@.subrange(from as int, to as int),
{
    let mut out = String::new();
    let mut i: usize = from;
    assert(out@ =~= chars@.subrange(from as int, i as int));
    while i < to
        invariant
            from <= i <= to <= chars.len(),
            out@ == chars@.subrange(from as int, i as int),
        decreases to - i,
    {
        assert(chars@.subrange(from as int, i as int).push(chars@[i as int]) =~= chars@.subrange(
            from as int,
            i + 1,
        ));
        push_char(&mut out, chars[i]);
        i = i + 1;
    }
    out
}

/// A string is trimmed at its start by skipping `k` whitespace characters.
proof fn lemma_trim_start_skip(s: Seq<char>, k: int)
    requires
        0 <= k <= s.len(),
        forall|i: int| 0 <= i < k ==> is_whitespace(#[trigger] s[i]),
    ensures
        trim_start(s) == trim_start(s.subrange(k, s.len() as int)),
    decreases k,
{
    if k > 0 {
        assert(s.drop_first().subrange(k - 1, s.len() - 1) =~= s.subrange(k, s.len() as int));
        lemma_trim_start_skip(s.drop_first(), k - 1);
    } else {
        assert(s.subrange(0, s.len() as int) =~= s);
    }
}

/// A string is trimmed at its end by dropping its last `s.len() - k`
/// characters when they are all whitespace.
proof fn lemma_trim_end_skip(s: Seq<char>, k: int)
    requires
        0 <= k <= s.len(),
        forall|i: int| k <= i < s.len() ==> is_whitespace(#[trigger] s[i]),
    ensures
        trim_end(s) == trim_end(s.subrange(0, k)),
    decreases s.len() - k,
{
    if k < s.len() {
        assert(s.drop_last().subrange(0, k) =~= s.subrange(0, k));
        lemma_trim_end_skip(s.drop_last(), k);
    } else {
        assert(s.subrange(0, k) =~= s);
    }
}

/// The bounds of `chars[from..to]` once trimmed: the result `(lo, hi)` marks
/// the trimmed text inside the vector.
pub fn trim_bounds(chars: &Vec<char>, from: usize, to: usize) -> (bounds: (usize, usize))
    requires
        from <= to <= chars.len(),
    ensures
        from <= bounds.0 <= bounds.1 <= to,
        chars@.subrange(bounds.0 as int, bounds.1 as int) == trim(
            chars@.subrange(from as int, to as int),
        ),
{
    let ghost whole = chars@.subrange(from as int, to as int);
    let mut lo: usize = from;
    while lo < to && char_is_whitespace(chars[lo])
        invariant
            from <= lo <= to <= chars.len(),
            whole == chars@.subrange(from as int, to as int),
            forall|i: int| 0 <= i < lo - from ==> is_whitespace(#[trigger] whole[i]),
        decreases to - lo,
    {
        lo = lo + 1;
    }
    let ghost front = chars@.subrange(lo as int, to as int);
    proof {
        lemma_trim_start_skip(whole, lo - from);
        assert(whole.subrange(lo - from, whole.len() as int) =~= front);
        assert(trim_start(front) == front);
    }
    let mut hi: usize = to;
    while hi > lo && char_is_whitespace(chars[hi - 1])
        invariant
            lo <= hi <= to <= chars.len(),
            front == chars@.subrange(lo as int, to as int),
            forall|i: int| hi - lo <= i < front.len() ==> is_whitespace(#[trigger] front[i]),
        decreases hi - lo,
    {
        hi = hi - 1;
    }
    proof {
        lemma_trim_end_skip(front, hi - lo);
        assert(front.subrange(0, hi - lo) =~= chars@.subrange(lo as int, hi as int));
        let kept = chars@.subrange(lo as int, hi as int);
        assert(trim_end(kept) == kept);
    }
    (lo, hi)
}

/// Where the first `c` stands once every earlier character is known to differ.
pub proof fn lemma_position_at(s: Seq<char>, c: char, k: int)
    requires
        0 <= k <= s.len(),
        forall|i: int| 0 <= i < k ==> #[trigger] s[i] != c,
        k < s.len() ==> s[k] == c,
    ensures
        position(s, c) == k,
    decreases k,
{
    if k > 0 {
        lemma_position_at(s.drop_first(), c, k - 1);
    }
}

/// Finds the first `c` in `chars[from..to]`; the result is an index into the
/// vector, `to` when there is none.
pub fn find_char(chars: &Vec<char>, from: usize, to: usize, c: char) -> (at: usize)
    requires
        from <= to <= chars.len(),
    ensures
        at == from + position(chars@.subrange(from as int, to as int), c),
        from <= at <= to,
{
    let mut i: usize = from;
    while i < to && chars[i] != c
        invariant
            from <= i <= to <= chars.len(),
            forall|j: int| from <= j < i ==> chars@[j] != c,
        decreases to - i,
    {
        i = i + 1;
    }
    proof {
        lemma_position_at(chars@.subrange(from as int, to as int), c, i - from);
    }
    i
}

/// The character that writes the digit `d`.
pub fn digit_to_char(d: u8) -> (c: char)
    requires
        d < 10,
    ensures
        c == digit_char(d as nat),
{
    (48u8 + d) as char
}

/// Appends the decimal notation of `n` to `out`.
pub fn push_decimal(out: &mut String, n: usize)
    ensures
        final(out)@ == old(out)@ + decimal(n as nat),
    decreases n,
{
    if n >= 10 {
        push_decimal(out, n / 10);
    }
    push_char(out, digit_to_char((n % 10) as u8));
    assert(final(out)@ =~= old(out)@ + decimal(n as nat));
}

/// The decimal notation of `n`.
pub fn decimal_string(n: usize) -> (s: String)
    ensures
        s@ == decimal(n as nat),
{
    let mut out = String::new();
    push_decimal(&mut out, n);
    assert(out@ =~= decimal(n as nat));
    out
}

} // verus!
