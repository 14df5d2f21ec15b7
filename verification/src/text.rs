//! Text: the shape in which errors print themselves, character classes,
//! searching, splitting at whitespace, and decimal numbers.
use vstd::prelude::*;

verus! {

/// `"{head}(code: {name}, message: {message})"`, the shape in which every
/// error type of the agent prints itself.
pub open spec fn code_message_text(head: Seq<char>, name: Seq<char>, message: Seq<char>) -> Seq<char> {
    head + "(code: "@ + name + ", message: "@ + message + ")"@
}

pub fn code_message_string(head: &str, name: &str, message: &str) -> (r: String)
    ensures
        r@ == code_message_text(head@, name@, message@),
{
    String::from_str(head).concat("(code: ").concat(name).concat(", message: ").concat(message).concat(")")
}

/// Appends one character.
#[verifier::external_body]
pub(crate) fn push_char(s: &mut String, c: char)
    ensures
        final(s)@ == old(s)@.push(c),
{
    s.push(c)
}

/// Lower-case hexadecimal digit.
pub open spec fn is_lower_hex_char(c: char) -> bool {
    ('0' <= c && c <= '9') || ('a' <= c && c <= 'f')
}

/// ASCII letter or digit.
pub open spec fn is_ascii_alphanumeric_char(c: char) -> bool {
    ('0' <= c && c <= '9') || ('a' <= c && c <= 'z') || ('A' <= c && c <= 'Z')
}

pub open spec fn ascii_upper_char(c: char) -> char {
    if 'a' <= c && c <= 'z' {
        ((c as int) - 32) as char
    } else {
        c
    }
}

pub open spec fn ascii_lower_char(c: char) -> char {
    if 'A' <= c && c <= 'Z' {
        ((c as int) + 32) as char
    } else {
        c
    }
}

pub open spec fn ascii_upper(s: Seq<char>) -> Seq<char> {
    s.map_values(|c: char| ascii_upper_char(c))
}

pub open spec fn ascii_lower(s: Seq<char>) -> Seq<char> {
    s.map_values(|c: char| ascii_lower_char(c))
}

pub open spec fn all_ascii(s: Seq<char>) -> bool {
    forall|i: int| 0 <= i < s.len() ==> (s[i] as int) < 128
}

/// `needle` occurs in `hay` starting at position `i`.
pub open spec fn occurs_at(hay: Seq<char>, needle: Seq<char>, i: int) -> bool {
    0 <= i && i + needle.len() <= hay.len() && hay.subrange(i, i + needle.len()) == needle
}

/// `needle` is a contiguous part of `hay`.
pub open spec fn contains_seq(hay: Seq<char>, needle: Seq<char>) -> bool {
    exists|i: int| occurs_at(hay, needle, i)
}

pub open spec fn starts_with_seq(s: Seq<char>, prefix: Seq<char>) -> bool {
    prefix.len() <= s.len() && s.subrange(0, prefix.len() as int) == prefix
}

/// Does `hay` start with `prefix` at position `at`?
fn matches_at(hay: &str, needle: &str, at: usize) -> (r: bool)
    requires
        at + needle@.len() <= hay@.len(),
    ensures
        r == (hay@.subrange(at as int, at + needle@.len()) == needle@),
{
    let n = needle.unicode_len();
    let h = hay.unicode_len();
    let mut j: usize = 0;
    while j < n
        invariant
            n == needle@.len(),
            h == hay@.len(),
            at + n <= hay@.len(),
            j <= n,
            forall|k: int| 0 <= k < j ==> hay@[at + k] == needle@[k],
        decreases n - j,
    {
        if hay.get_char(at + j) != needle.get_char(j) {
            assert(hay@.subrange(at as int, at + n)[j as int] != needle@[j as int]);
            return false;
        }
        j = j + 1;
    }
    assert(hay@.subrange(at as int, at + n) =~= needle@);
    true
}

/// `str::contains` for a string pattern.
pub fn str_contains(hay: &str, needle: &str) -> (r: bool)
    ensures
        r == contains_seq(hay@, needle@),
{
    let h = hay.unicode_len();
    let n = needle.unicode_len();
    if n > h {
        assert forall|i: int| !occurs_at(hay@, needle@, i) by {}
        return false;
    }
    if n == 0 {
        assert(hay@.subrange(0, 0) =~= needle@);
        assert(occurs_at(hay@, needle@, 0));
        return true;
    }
    let mut i: usize = 0;
    while i <= h - n
        invariant
            h == hay@.len(),
            n == needle@.len(),
            1 <= n <= h,
            i <= h - n + 1,
            forall|k: int| 0 <= k < i ==> !occurs_at(hay@, needle@, k),
        decreases h - n + 1 - i,
    {
        if matches_at(hay, needle, i) {
            assert(occurs_at(hay@, needle@, i as int));
            return true;
        }
        i = i + 1;
    }
    assert forall|k: int| !occurs_at(hay@, needle@, k) by {
        if 0 <= k && k + n <= h {
            assert(k < i);
        }
    }
    false
}

/// `str::starts_with` for a string pattern.
pub fn str_starts_with(s: &str, prefix: &str) -> (r: bool)
    ensures
        r == starts_with_seq(s@, prefix@),
{
    let n = prefix.unicode_len();
    let h = s.unicode_len();
    if n > h {
        return false;
    }
    matches_at(s, prefix, 0)
}

/// String equality by characters.
pub fn str_equal(a: &str, b: &str) -> (r: bool)
    ensures
        r == (a@ == b@),
{
    let n = a.unicode_len();
    let m = b.unicode_len();
    if n != m {
        return false;
    }
    let r = matches_at(a, b, 0);
    assert(a@.subrange(0, n as int) =~= a@);
    r
}

/// The characters that carry Unicode's `White_Space` property, which is what
/// `char::is_whitespace` tests.
pub open spec fn is_unicode_whitespace(c: char) -> bool {
    let v = c as int;
    ||| 0x09 <= v <= 0x0d
    ||| v == 0x20
    ||| v == 0x85
    ||| v == 0xa0
    ||| v == 0x1680
    ||| 0x2000 <= v <= 0x200a
    ||| v == 0x2028
    ||| v == 0x2029
    ||| v == 0x202f
    ||| v == 0x205f
    ||| v == 0x3000
}

pub fn is_whitespace(c: char) -> (r: bool)
    ensures
        r == is_unicode_whitespace(c),
{
    let v = c as u32;
    (0x09 <= v && v <= 0x0d) || v == 0x20 || v == 0x85 || v == 0xa0 || v == 0x1680 || (0x2000
        <= v && v <= 0x200a) || v == 0x2028 || v == 0x2029 || v == 0x202f || v == 0x205f || v
        == 0x3000
}

/// The words of `s` when read left to right: `current` is the word being
/// read, `done` the words already finished; whitespace ends a word.
pub open spec fn words_from(s: Seq<char>, current: Seq<char>, done: Seq<Seq<char>>) -> Seq<Seq<char>>
    decreases s.len(),
{
    if s.len() == 0 {
        if current.len() > 0 { done.push(current) } else { done }
    } else if is_unicode_whitespace(s[0]) {
        words_from(s.drop_first(), Seq::empty(), if current.len() > 0 { done.push(current) } else { done })
    } else {
        words_from(s.drop_first(), current.push(s[0]), done)
    }
}

/// The maximal runs of non-whitespace characters of `s`, in order: what
/// `str::split_whitespace` yields.
pub open spec fn words(s: Seq<char>) -> Seq<Seq<char>> {
    words_from(s, Seq::empty(), Seq::empty())
}

/// A word: at least one character, none of them whitespace.
pub open spec fn is_word(w: Seq<char>) -> bool {
    w.len() > 0 && forall|j: int| 0 <= j < w.len() ==> !is_unicode_whitespace(#[trigger] w[j])
}

/// Reading on from any point yields only words, provided the word being read
/// holds no whitespace and the finished ones are words.
pub proof fn lemma_words_from_are_words(s: Seq<char>, current: Seq<char>, done: Seq<Seq<char>>)
    requires
        forall|j: int| 0 <= j < current.len() ==> !is_unicode_whitespace(#[trigger] current[j]),
        forall|i: int| 0 <= i < done.len() ==> is_word(#[trigger] done[i]),
    ensures
        forall|i: int| 0 <= i < words_from(s, current, done).len() ==> is_word(
            #[trigger] words_from(s, current, done)[i],
        ),
    decreases s.len(),
{
    if s.len() == 0 {
        if current.len() > 0 {
            assert(is_word(current));
            assert forall|i: int| 0 <= i < done.push(current).len() implies is_word(#[trigger] done.push(current)[i]) by {
                if i < done.len() {
                    assert(done.push(current)[i] == done[i]);
                }
            }
        }
    } else if is_unicode_whitespace(s[0]) {
        let next = if current.len() > 0 { done.push(current) } else { done };
        if current.len() > 0 {
            assert(is_word(current));
            assert forall|i: int| 0 <= i < next.len() implies is_word(#[trigger] next[i]) by {
                if i < done.len() {
                    assert(next[i] == done[i]);
                }
            }
        }
        lemma_words_from_are_words(s.drop_first(), Seq::empty(), next);
        assert(words_from(s, current, done) == words_from(s.drop_first(), Seq::empty(), next));
    } else {
        let longer = current.push(s[0]);
        assert forall|j: int| 0 <= j < longer.len() implies !is_unicode_whitespace(#[trigger] longer[j]) by {
            if j < current.len() {
                assert(longer[j] == current[j]);
            }
        }
        lemma_words_from_are_words(s.drop_first(), longer, done);
        assert(words_from(s, current, done) == words_from(s.drop_first(), longer, done));
    }
}

/// Every word that `split_whitespace` yields is non-empty and holds no
/// whitespace.
pub proof fn lemma_words_are_words(s: Seq<char>)
    ensures
        forall|i: int| 0 <= i < words(s).len() ==> is_word(#[trigger] words(s)[i]),
{
    lemma_words_from_are_words(s, Seq::empty(), Seq::empty());
}

pub open spec fn string_views(v: Seq<String>) -> Seq<Seq<char>> {
    v.map_values(|s: String| s@)
}

/// `str::split_whitespace`, collected.
pub fn split_whitespace(s: &str) -> (r: Vec<String>)
    ensures
        string_views(r@) == words(s@),
        forall|i: int| 0 <= i < r@.len() ==> is_word(#[trigger] r@[i]@),
{
    proof {
        lemma_words_are_words(s@);
    }
    let n = s.unicode_len();
    let mut done: Vec<String> = Vec::new();
    let mut current = String::new();
    let mut i: usize = 0;
    proof {
        assert(s@.skip(0) =~= s@);
        assert(string_views(done@) =~= Seq::<Seq<char>>::empty());
    }
    while i < n
        invariant
            n == s@.len(),
            i <= n,
            words(s@) == words_from(s@.skip(i as int), current@, string_views(done@)),
        decreases n - i,
    {
        let c = s.get_char(i);
        assert(s@.skip(i as int)[0] == c);
        assert(s@.skip(i as int).drop_first() =~= s@.skip(i + 1));
        if is_whitespace(c) {
            if current.unicode_len() > 0 {
                let finished = current;
                current = String::new();
                proof {
                    assert(string_views(done@.push(finished)) =~= string_views(done@).push(finished@));
                }
                done.push(finished);
            } else {
                current = String::new();
            }
        } else {
            push_char(&mut current, c);
        }
        i = i + 1;
    }
    assert(s@.skip(n as int) =~= Seq::<char>::empty());
    if current.unicode_len() > 0 {
        proof {
            assert(string_views(done@.push(current)) =~= string_views(done@).push(current@));
        }
        done.push(current);
    }
    assert forall|i: int| 0 <= i < done@.len() implies is_word(#[trigger] done@[i]@) by {
        assert(string_views(done@)[i] == done@[i]@);
    }
    done
}

/// The decimal digits of a natural number, most significant first.
pub open spec fn decimal_digits(n: nat) -> Seq<char>
    decreases n,
{
    if n < 10 {
        seq![(('0' as int) + n) as char]
    } else {
        decimal_digits(n / 10).push((('0' as int) + (n % 10)) as char)
    }
}

/// How `i64`'s `Display` writes a number: a `-` before negative ones.
pub open spec fn decimal_text(n: int) -> Seq<char> {
    if n < 0 {
        seq!['-'] + decimal_digits((-n) as nat)
    } else {
        decimal_digits(n as nat)
    }
}

fn digit_char(d: u64) -> (c: char)
    requires
        d < 10,
    ensures
        c == (('0' as int) + d) as char,
{
    if d == 0 { '0' }
    else if d == 1 { '1' }
    else if d == 2 { '2' }
    else if d == 3 { '3' }
    else if d == 4 { '4' }
    else if d == 5 { '5' }
    else if d == 6 { '6' }
    else if d == 7 { '7' }
    else if d == 8 { '8' }
    else { '9' }
}

/// The decimal digits of `n`.
pub fn u64_to_decimal(n: u64) -> (r: String)
    ensures
        r@ == decimal_digits(n as nat),
    decreases n,
{
    if n < 10 {
        let mut r = String::new();
        push_char(&mut r, digit_char(n));
        r
    } else {
        let mut r = u64_to_decimal(n / 10);
        push_char(&mut r, digit_char(n % 10));
        r
    }
}

/// `i64::to_string`.
pub fn i64_to_decimal(n: i64) -> (r: String)
    ensures
        r@ == decimal_text(n as int),
{
    if n < 0 {
        let magnitude: u64 = if n == i64::MIN {
            0x8000_0000_0000_0000u64
        } else {
            (-n) as u64
        };
        let mut r = String::new();
        push_char(&mut r, '-');
        let digits = u64_to_decimal(magnitude);
        let r = r.concat(digits.as_str());
        r
    } else {
        u64_to_decimal(n as u64)
    }
}

/// How `{:?}` writes a string: quoted, with special characters escaped.
pub uninterp spec fn spec_debug_text(s: Seq<char>) -> Seq<char>;

/// A character `{:?}` writes as it is inside a quoted string: printable
/// ASCII other than `"` and `\`.
pub open spec fn is_plain_debug_char(c: char) -> bool {
    ' ' <= c <= '~' && c != '"' && c != '\\'
}

/// `format!("{:?}", s)` for a string. The escaping is named; a string of
/// printable ASCII without `"` or `\\` comes out merely quoted, as std's
/// `char::escape_debug` documents.
#[verifier::external_body]
pub(crate) fn debug_text(s: &str) -> (r: String)
    ensures
        r@ == spec_debug_text(s@),
        (forall|i: int| 0 <= i < s@.len() ==> is_plain_debug_char(#[trigger] s@[i])) ==> r@ == seq!['"']
            + s@ + seq!['"'],
{
    format!("{:?}", s)
}

} // verus!
