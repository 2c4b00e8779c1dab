//! Text that the library builds itself.
use vstd::prelude::*;

verus! {

/// `String::push` appends one character.
pub assume_specification[ String::push ](s: &mut String, c: char)
    ensures
        final(s)@ == old(s)@.push(c),
;

/// The value of a text that may be missing.
pub open spec fn optional(text: Option<String>) -> Option<Seq<char>> {
    match text {
        Some(t) => Some(t@),
        None => None,
    }
}

/// The decimal digits of a number, the most significant first.
pub open spec fn digits(n: nat) -> Seq<u8>
    decreases n,
{
    if n < 10 {
        seq![n as u8]
    } else {
        digits(n / 10).push((n % 10) as u8)
    }
}

/// The character of a digit.
pub open spec fn digit_char(d: u8) -> char {
    (48 + d) as char
}

/// A number in decimal.
pub open spec fn decimal(n: nat) -> Seq<char> {
    digits(n).map_values(|d: u8| digit_char(d))
}

/// A number in decimal, as ASCII bytes.
pub open spec fn decimal_bytes(n: nat) -> Seq<u8> {
    digits(n).map_values(|d: u8| (48 + d) as u8)
}

/// Every digit is below ten.
pub proof fn lemma_digits_bound(n: nat)
    ensures
        digits(n).len() >= 1,
        forall|i: int| 0 <= i < digits(n).len() ==> #[trigger] digits(n)[i] < 10,
    decreases n,
{
    if n >= 10 {
        lemma_digits_bound(n / 10);
    }
}

fn digits_of(n: usize) -> (r: Vec<u8>)
    ensures
        r@ == digits(n as nat),
    decreases n,
{
    if n < 10 {
        let r: Vec<u8> = vec![n as u8];
        assert(r@ =~= digits(n as nat));
        r
    } else {
        let mut r = digits_of(n / 10);
        r.push((n % 10) as u8);
        r
    }
}

/// Appends a number in decimal.
pub fn push_decimal(s: &mut String, n: usize)
    ensures
        final(s)@ == old(s)@ + decimal(n as nat),
{
    let ds = digits_of(n);
    let ghost before = s@;
    proof {
        lemma_digits_bound(n as nat);
    }
    let mut i: usize = 0;
    while i < ds.len()
        invariant
            i <= ds@.len(),
            ds@ == digits(n as nat),
            forall|j: int| 0 <= j < ds@.len() ==> #[trigger] ds@[j] < 10,
            s@ == before + decimal(n as nat).take(i as int),
        decreases ds@.len() - i,
    {
        let c = (48u8 + ds[i]) as char;
        s.push(c);
        assert(decimal(n as nat).take(i + 1) =~= decimal(n as nat).take(i as int).push(c));
        i += 1;
    }
    assert(decimal(n as nat).take(i as int) =~= decimal(n as nat));
}

/// Appends a number in decimal, as ASCII bytes.
pub fn push_decimal_bytes(bytes: &mut Vec<u8>, n: usize)
    ensures
        final(bytes)@ == old(bytes)@ + decimal_bytes(n as nat),
{
    let ds = digits_of(n);
    let ghost before = bytes@;
    proof {
        lemma_digits_bound(n as nat);
    }
    let mut i: usize = 0;
    while i < ds.len()
        invariant
            i <= ds@.len(),
            ds@ == digits(n as nat),
            forall|j: int| 0 <= j < ds@.len() ==> #[trigger] ds@[j] < 10,
            bytes@ == before + decimal_bytes(n as nat).take(i as int),
        decreases ds@.len() - i,
    {
        let b: u8 = 48 + ds[i];
        bytes.push(b);
        assert(decimal_bytes(n as nat).take(i + 1) =~= decimal_bytes(n as nat).take(i as int).push(
            b,
        ));
        i += 1;
    }
    assert(decimal_bytes(n as nat).take(i as int) =~= decimal_bytes(n as nat));
}

/// Characters that take one column each.
pub open spec fn printable_ascii(s: Seq<char>) -> bool {
    forall|i: int| 0 <= i < s.len() ==> ' ' <= #[trigger] s[i] <= '~'
}

/// A decimal number is made of printable characters.
pub proof fn lemma_decimal_printable(n: nat)
    ensures
        printable_ascii(decimal(n)),
{
    lemma_digits_bound(n);
}

/// A run of one character; none where the length is not positive.
pub open spec fn repeated(c: char, count: int) -> Seq<char> {
    Seq::new(if count > 0 {
        count as nat
    } else {
        0
    }, |i: int| c)
}

/// The bytes of a text.
pub fn bytes_of(text: &str) -> (r: Vec<u8>)
    ensures
        r@ == vstd::utf8::encode_utf8(text@),
{
    let bytes = text.as_bytes();
    let mut r: Vec<u8> = Vec::new();
    let mut i: usize = 0;
    while i < bytes.len()
        invariant
            i <= bytes@.len(),
            r@ == bytes@.take(i as int),
        decreases bytes@.len() - i,
    {
        r.push(bytes[i]);
        i += 1;
        assert(r@ =~= bytes@.take(i as int));
    }
    assert(bytes@.take(i as int) =~= bytes@);
    r
}

/// The bytes of a character.
pub fn char_bytes(c: char) -> (r: Vec<u8>)
    ensures
        r@ == vstd::utf8::encode_utf8(seq![c]),
{
    let mut s = String::new();
    s.push(c);
    assert(s@ =~= seq![c]);
    bytes_of(s.as_str())
}

/// The characters of a text.
pub fn chars_of(text: &str) -> (r: Vec<char>)
    ensures
        r@ == text@,
{
    let mut r: Vec<char> = Vec::new();
    for c in iter: text.chars()
        invariant
            iter.seq() == text@,
            r@ == text@.take(iter.index()),
    {
        r.push(c);
        assert(r@ =~= text@.take(iter.index() + 1));
    }
    assert(r@ =~= text@);
    r
}

/// The text of a list of characters.
pub fn string_of(chars: &Vec<char>) -> (r: String)
    ensures
        r@ == chars@,
{
    let mut r = String::new();
    let mut i: usize = 0;
    while i < chars.len()
        invariant
            i <= chars@.len(),
            r@ == chars@.take(i as int),
        decreases chars@.len() - i,
    {
        r.push(chars[i]);
        i += 1;
        assert(r@ =~= chars@.take(i as int));
    }
    assert(chars@.take(i as int) =~= chars@);
    r
}

/// Whether two texts are the same.
pub fn same_text(a: &String, b: &str) -> (r: bool)
    ensures
        r == (a@ == b@),
{
    *a == b.to_owned()
}

/// Everything but the escape characters.
pub open spec fn without_escapes(bytes: Seq<u8>) -> Seq<u8> {
    bytes.filter(|b: u8| b != 0x1b)
}

pub fn strip_escapes(bytes: &Vec<u8>) -> (r: Vec<u8>)
    ensures
        r@ == without_escapes(bytes@),
{
    let ghost kept = |b: u8| b != 0x1b;
    let mut r: Vec<u8> = Vec::new();
    let mut i: usize = 0;
    assert(bytes@.take(0).filter(kept) =~= Seq::empty()) by {
        reveal(Seq::filter);
    }
    while i < bytes.len()
        invariant
            i <= bytes@.len(),
            kept == (|b: u8| b != 0x1b),
            r@ == bytes@.take(i as int).filter(kept),
        decreases bytes@.len() - i,
    {
        proof {
            reveal(Seq::filter);
        }
        assert(bytes@.take(i + 1).drop_last() =~= bytes@.take(i as int));
        if bytes[i] != 0x1b {
            r.push(bytes[i]);
        }
        i += 1;
    }
    assert(bytes@.take(i as int) =~= bytes@);
    r
}

/// The text with every line break as the Enter key produces it: a carriage return for a line feed,
/// and one for a carriage return with a line feed behind it.
pub open spec fn typed_line_breaks(bytes: Seq<u8>) -> Seq<u8>
    decreases bytes.len(),
{
    if bytes.len() == 0 {
        bytes
    } else {
        let before = typed_line_breaks(bytes.drop_last());
        if bytes.last() != 0x0a {
            before.push(bytes.last())
        } else if bytes.len() >= 2 && bytes[bytes.len() - 2] == 0x0d {
            before
        } else {
            before.push(0x0d)
        }
    }
}

pub fn type_line_breaks(bytes: &Vec<u8>) -> (r: Vec<u8>)
    ensures
        r@ == typed_line_breaks(bytes@),
{
    let mut r: Vec<u8> = Vec::new();
    let mut i: usize = 0;
    while i < bytes.len()
        invariant
            i <= bytes@.len(),
            r@ == typed_line_breaks(bytes@.take(i as int)),
        decreases bytes@.len() - i,
    {
        let ghost next = bytes@.take(i + 1);
        assert(next.drop_last() =~= bytes@.take(i as int));
        if bytes[i] != 0x0a {
            r.push(bytes[i]);
        } else if i >= 1 && bytes[i - 1] == 0x0d {
            // The carriage return stands for both.
        } else {
            r.push(0x0d);
        }
        i += 1;
    }
    assert(bytes@.take(i as int) =~= bytes@);
    r
}

/// Text with the line breaks of the Enter key holds no line feed.
pub proof fn law_typed_text_has_no_line_feed(bytes: Seq<u8>)
    ensures
        !typed_line_breaks(bytes).contains(0x0a),
    decreases bytes.len(),
{
    if bytes.len() > 0 {
        let before = typed_line_breaks(bytes.drop_last());
        law_typed_text_has_no_line_feed(bytes.drop_last());
        assert forall|i: int| 0 <= i < typed_line_breaks(bytes).len() implies typed_line_breaks(
            bytes,
        )[i] != 0x0a by {
            if i < before.len() {
                assert(before.contains(before[i]));
            }
        }
    }
}

/// Text without a line feed is typed as it is.
pub proof fn law_text_without_line_feed_is_unchanged(bytes: Seq<u8>)
    requires
        !bytes.contains(0x0a),
    ensures
        typed_line_breaks(bytes) == bytes,
    decreases bytes.len(),
{
    if bytes.len() > 0 {
        assert forall|i: int| 0 <= i < bytes.drop_last().len() implies bytes.drop_last()[i]
            != 0x0a by {
            assert(bytes.contains(bytes[i]));
        }
        law_text_without_line_feed_is_unchanged(bytes.drop_last());
        assert(bytes.contains(bytes.last()));
        assert(bytes =~= bytes.drop_last().push(bytes.last()));
    }
}

/// A white space character, as Unicode has them.
pub open spec fn is_white_space(c: char) -> bool {
    ||| '\u{9}' <= c <= '\u{d}'
    ||| c == ' '
    ||| c == '\u{85}'
    ||| c == '\u{a0}'
    ||| c == '\u{1680}'
    ||| '\u{2000}' <= c <= '\u{200a}'
    ||| c == '\u{2028}'
    ||| c == '\u{2029}'
    ||| c == '\u{202f}'
    ||| c == '\u{205f}'
    ||| c == '\u{3000}'
}

fn white_space(c: char) -> (r: bool)
    ensures
        r == is_white_space(c),
{
    ('\u{9}' <= c && c <= '\u{d}') || c == ' ' || c == '\u{85}' || c == '\u{a0}' || c == '\u{1680}'
        || ('\u{2000}' <= c && c <= '\u{200a}') || c == '\u{2028}' || c == '\u{2029}' || c
        == '\u{202f}' || c == '\u{205f}' || c == '\u{3000}'
}

/// The text without the white space at its end.
pub open spec fn trimmed_end(s: Seq<char>) -> Seq<char>
    decreases s.len(),
{
    if s.len() > 0 && is_white_space(s.last()) {
        trimmed_end(s.drop_last())
    } else {
        s
    }
}

/// The text up to and including its last space.
pub open spec fn up_to_last_space(s: Seq<char>) -> Seq<char>
    decreases s.len(),
{
    if s.len() > 0 && s.last() != ' ' {
        up_to_last_space(s.drop_last())
    } else {
        s
    }
}

/// The text without its last word.
pub open spec fn without_last_word(s: Seq<char>) -> Seq<char> {
    up_to_last_space(trimmed_end(s))
}

pub fn drop_last_word(text: &String) -> (r: String)
    ensures
        r@ == without_last_word(text@),
{
    let mut chars = chars_of(text.as_str());
    while chars.len() > 0 && white_space(chars[chars.len() - 1])
        invariant
            trimmed_end(chars@) == trimmed_end(text@),
        decreases chars@.len(),
    {
        let ghost before = chars@;
        let _c = chars.pop();
        assert(chars@ =~= before.drop_last());
    }
    assert(chars@ == trimmed_end(text@));
    while chars.len() > 0 && chars[chars.len() - 1] != ' '
        invariant
            up_to_last_space(chars@) == without_last_word(text@),
        decreases chars@.len(),
    {
        let ghost before = chars@;
        let _c = chars.pop();
        assert(chars@ =~= before.drop_last());
    }
    string_of(&chars)
}

/// The text without its last character.
pub fn drop_last_char(text: &String) -> (r: String)
    ensures
        r@ == if text@.len() > 0 {
            text@.drop_last()
        } else {
            text@
        },
{
    let mut chars = chars_of(text.as_str());
    let _c = chars.pop();
    if text.as_str().is_empty() {
        string_of(&chars)
    } else {
        assert(chars@ =~= text@.drop_last());
        string_of(&chars)
    }
}

/// Taking a word off leaves a part of the text from its start, which is empty or ends in a space.
pub proof fn law_word_removal_leaves_a_prefix(s: Seq<char>)
    ensures
        without_last_word(s).is_prefix_of(s),
        without_last_word(s).len() == 0 || without_last_word(s).last() == ' ',
{
    lemma_trimmed_end_is_prefix(s);
    lemma_up_to_space_is_prefix(trimmed_end(s));
}

proof fn lemma_trimmed_end_is_prefix(s: Seq<char>)
    ensures
        trimmed_end(s).is_prefix_of(s),
    decreases s.len(),
{
    if s.len() > 0 && is_white_space(s.last()) {
        lemma_trimmed_end_is_prefix(s.drop_last());
    }
}

proof fn lemma_up_to_space_is_prefix(s: Seq<char>)
    ensures
        up_to_last_space(s).is_prefix_of(s),
        up_to_last_space(s).len() == 0 || up_to_last_space(s).last() == ' ',
    decreases s.len(),
{
    if s.len() > 0 && s.last() != ' ' {
        lemma_up_to_space_is_prefix(s.drop_last());
    }
}

} // verus!
