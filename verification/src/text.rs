//! Text helpers shared by the engine: decoding bytes, rendering numbers,
//! joining and splitting.

use vstd::prelude::*;
use vstd::utf8::*;

verus! {

/// Appends one character to a string.
///
/// Trusted: wraps `String::push`, which appends the given character to the
/// end of the string.
#[verifier::external_body]
pub(crate) fn push_char(s: &mut String, c: char)
    ensures
        final(s)@ == old(s)@.push(c),
{
    s.push(c)
}

/// Decodes bytes as UTF-8 text.
///
/// Trusted: wraps `String::from_utf8`, which succeeds exactly on valid UTF-8
/// and then holds the decoded characters.
#[verifier::external_body]
pub(crate) fn decode(bytes: &Vec<u8>) -> (r: Option<String>)
    ensures
        r is Some <==> valid_utf8(bytes@),
        r matches Some(s) ==> s@ == decode_utf8(bytes@),
{
    String::from_utf8(bytes.clone()).ok()
}

/// The characters of a string, in order.
pub fn chars_of(s: &str) -> (v: Vec<char>)
    ensures
        v@ == s@,
{
    let mut v: Vec<char> = Vec::new();
    for c in it: s.chars()
        invariant
            v@ == it.seq().take(it.index() as int),
            it.seq() == s@,
    {
        v.push(c);
    }
    v
}

/// The string made of the characters `chars[from..to]`.
pub fn string_of(chars: &Vec<char>, from: usize, to: usize) -> (s: String)
    requires
        from <= to <= chars.len(),
    ensures
        s@ == chars@.subrange(from as int, to as int),
{
    let mut s = String::new();
    let mut i: usize = from;
    while i < to
        invariant
            from <= i <= to <= chars.len(),
            s@ == chars@.subrange(from as int, i as int),
        decreases to - i,
    {
        push_char(&mut s, chars[i]);
        i += 1;
    }
    s
}

/// The character that stands for one digit below sixteen.
pub open spec fn digit(d: int) -> char {
    if d < 10 {
        (48 + d) as u8 as char
    } else {
        (87 + d) as u8 as char
    }
}

/// The digit character of `d`.
pub fn digit_char(d: u8) -> (c: char)
    requires
        d < 16,
    ensures
        c == digit(d as int),
{
    if d < 10 {
        (48 + d) as char
    } else {
        (87 + d) as char
    }
}

/// A natural number in decimal notation, without leading zeros.
pub open spec fn decimal_digits(n: nat) -> Seq<char>
    decreases n,
{
    if n < 10 {
        seq![digit(n as int)]
    } else {
        decimal_digits(n / 10).push(digit((n % 10) as int))
    }
}

/// An integer in decimal notation: a minus sign for a negative number, then
/// its magnitude.
pub open spec fn decimal_text(n: int) -> Seq<char> {
    if n < 0 {
        seq!['-'] + decimal_digits((-n) as nat)
    } else {
        decimal_digits(n as nat)
    }
}

/// Renders an integer in decimal notation.
pub fn decimal(v: i64) -> (s: String)
    ensures
        s@ == decimal_text(v as int),
{
    let magnitude: u64 = if v < 0 {
        (-(v as i128)) as u64
    } else {
        v as u64
    };
    let mut rest: u64 = magnitude;
    let mut low: Vec<char> = Vec::new();
    while rest >= 10
        invariant
            decimal_digits(magnitude as nat) == decimal_digits(rest as nat) + low@,
        decreases rest,
    {
        low.insert(0, digit_char((rest % 10) as u8));
        rest = rest / 10;
    }
    let mut s = String::new();
    if v < 0 {
        push_char(&mut s, '-');
    }
    push_char(&mut s, digit_char(rest as u8));
    let ghost head = s@;
    let mut i: usize = 0;
    while i < low.len()
        invariant
            i <= low.len(),
            s@ == head + low@.take(i as int),
        decreases low.len() - i,
    {
        push_char(&mut s, low[i]);
        i += 1;
    }
    assert(low@.take(low.len() as int) == low@);
    s
}

/// A natural number in binary notation, without leading zeros.
pub open spec fn binary_digits(n: nat) -> Seq<char>
    decreases n,
{
    if n < 2 {
        seq![digit(n as int)]
    } else {
        binary_digits(n / 2).push(digit((n % 2) as int))
    }
}

/// The binary notations of the bytes, one after the other with nothing
/// between them.
pub open spec fn binary_text(bytes: Seq<u8>) -> Seq<char>
    decreases bytes.len(),
{
    if bytes.len() == 0 {
        Seq::empty()
    } else {
        binary_text(bytes.drop_last()) + binary_digits(bytes.last() as nat)
    }
}

/// Renders bytes as their binary notations, concatenated.
pub fn binary(bytes: &Vec<u8>) -> (s: String)
    ensures
        s@ == binary_text(bytes@),
{
    let mut s = String::new();
    let mut i: usize = 0;
    while i < bytes.len()
        invariant
            i <= bytes.len(),
            s@ == binary_text(bytes@.take(i as int)),
        decreases bytes.len() - i,
    {
        let mut rest: u8 = bytes[i];
        let mut low: Vec<char> = Vec::new();
        while rest >= 2
            invariant
                binary_digits(bytes@[i as int] as nat) == binary_digits(rest as nat) + low@,
            decreases rest,
        {
            low.insert(0, digit_char(rest % 2));
            rest = rest / 2;
        }
        let ghost before = s@;
        push_char(&mut s, digit_char(rest));
        let mut j: usize = 0;
        while j < low.len()
            invariant
                j <= low.len(),
                s@ == before + seq![digit(rest as int)] + low@.take(j as int),
            decreases low.len() - j,
        {
            push_char(&mut s, low[j]);
            j += 1;
        }
        assert(low@.take(low.len() as int) == low@);
        assert(s@ == before + binary_digits(bytes@[i as int] as nat));
        i += 1;
        assert(bytes@.take(i as int).drop_last() == bytes@.take(i - 1));
    }
    assert(bytes@.take(bytes.len() as int) == bytes@);
    s
}

/// How one byte that is not part of valid text is written: a printable ASCII
/// byte as itself, any other as a backslash, an `x` and two hexadecimal
/// digits.
pub open spec fn escaped_byte(b: u8) -> Seq<char> {
    if 32 <= b <= 126 {
        seq![b as char]
    } else {
        seq!['\\', 'x', digit(b as int / 16), digit(b as int % 16)]
    }
}

/// The escaped form of a byte string.
pub open spec fn escaped_text(bytes: Seq<u8>) -> Seq<char>
    decreases bytes.len(),
{
    if bytes.len() == 0 {
        Seq::empty()
    } else {
        escaped_text(bytes.drop_last()) + escaped_byte(bytes.last())
    }
}

/// Renders a byte string that is not valid text in its escaped form.
pub fn binary_to_redis_str(bytes: &Vec<u8>) -> (s: String)
    ensures
        s@ == escaped_text(bytes@),
{
    let mut s = String::new();
    let mut i: usize = 0;
    while i < bytes.len()
        invariant
            i <= bytes.len(),
            s@ == escaped_text(bytes@.take(i as int)),
        decreases bytes.len() - i,
    {
        let b = bytes[i];
        let ghost before = s@;
        if 32 <= b && b <= 126 {
            push_char(&mut s, b as char);
        } else {
            push_char(&mut s, '\\');
            push_char(&mut s, 'x');
            push_char(&mut s, digit_char(b / 16));
            push_char(&mut s, digit_char(b % 16));
        }
        assert(s@ == before + escaped_byte(b));
        i += 1;
        assert(bytes@.take(i as int).drop_last() == bytes@.take(i - 1));
    }
    assert(bytes@.take(bytes.len() as int) == bytes@);
    s
}

/// The words joined into one text, with `sep` between neighbours.
pub open spec fn joined(words: Seq<Seq<char>>, sep: Seq<char>) -> Seq<char>
    decreases words.len(),
{
    if words.len() == 0 {
        Seq::empty()
    } else if words.len() == 1 {
        words[0]
    } else {
        joined(words.drop_last(), sep) + sep + words.last()
    }
}

/// The views of a list of strings.
pub open spec fn views(words: Seq<String>) -> Seq<Seq<char>> {
    Seq::new(words.len(), |i: int| words[i]@)
}

/// Joins the words with `sep` between neighbours.
pub fn join(words: &Vec<String>, sep: &str) -> (s: String)
    ensures
        s@ == joined(views(words@), sep@),
{
    let mut s = String::new();
    let mut i: usize = 0;
    while i < words.len()
        invariant
            i <= words.len(),
            s@ == joined(views(words@).take(i as int), sep@),
        decreases words.len() - i,
    {
        if i > 0 {
            s.append(sep);
        }
        s.append(words[i].as_str());
        i += 1;
        assert(views(words@).take(i as int).drop_last() == views(words@).take(i - 1));
    }
    assert(views(words@).take(words.len() as int) == views(words@));
    s
}

/// Whether `sep` stands in `text` at index `i`.
pub open spec fn occurs_at(text: Seq<char>, sep: Seq<char>, i: int) -> bool {
    0 <= i && i + sep.len() <= text.len() && text.subrange(i, i + sep.len()) == sep
}

/// The pieces of `text` from index `start` on, when the search for the next
/// separator has come to index `i`.
pub open spec fn pieces_from(text: Seq<char>, sep: Seq<char>, start: int, i: int) -> Seq<
    Seq<char>,
>
    decreases text.len() - i,
{
    if sep.len() == 0 || i < 0 || i + sep.len() > text.len() {
        seq![text.subrange(start, text.len() as int)]
    } else if occurs_at(text, sep, i) {
        seq![text.subrange(start, i)] + pieces_from(text, sep, i + sep.len(), i + sep.len())
    } else {
        pieces_from(text, sep, start, i + 1)
    }
}

/// The pieces into which the separator cuts a text. The text is searched
/// from the left, an occurrence of the separator ends a piece, and the search
/// goes on behind it. There is one piece more than occurrences found; a
/// piece may be empty.
pub open spec fn pieces(text: Seq<char>, sep: Seq<char>) -> Seq<Seq<char>> {
    pieces_from(text, sep, 0, 0)
}

/// Joining a word in front of a list puts the word and the separator
/// before what the list joins into.
pub proof fn lemma_joined_front(first: Seq<char>, rest: Seq<Seq<char>>, sep: Seq<char>)
    requires
        rest.len() > 0,
    ensures
        joined(seq![first] + rest, sep) == first + sep + joined(rest, sep),
    decreases rest.len(),
{
    let all = seq![first] + rest;
    assert(all.last() == rest.last());
    if rest.len() == 1 {
        assert(all.drop_last() == seq![first]);
        assert(joined(all.drop_last(), sep) == first);
        assert(joined(rest, sep) == rest[0]);
        assert(joined(all, sep) == first + sep + rest.last());
    } else {
        assert(all.drop_last() == seq![first] + rest.drop_last());
        lemma_joined_front(first, rest.drop_last(), sep);
        assert(joined(all, sep) == joined(all.drop_last(), sep) + sep + all.last());
        assert(joined(rest, sep) == joined(rest.drop_last(), sep) + sep + rest.last());
        assert(first + sep + joined(rest.drop_last(), sep) + sep + rest.last() == first + sep + (
        joined(rest.drop_last(), sep) + sep + rest.last()));
    }
}

/// The pieces from a piece's start on join into the text from that start on.
proof fn lemma_pieces_from_join(text: Seq<char>, sep: Seq<char>, start: int, i: int)
    requires
        sep.len() > 0,
        0 <= start <= i <= text.len(),
    ensures
        pieces_from(text, sep, start, i).len() > 0,
        joined(pieces_from(text, sep, start, i), sep) == text.subrange(start, text.len() as int),
    decreases text.len() - i,
{
    if i + sep.len() > text.len() {
    } else if occurs_at(text, sep, i) {
        let next = i + sep.len();
        lemma_pieces_from_join(text, sep, next, next);
        lemma_joined_front(text.subrange(start, i), pieces_from(text, sep, next, next), sep);
        assert(text.subrange(start, i) + sep + text.subrange(next, text.len() as int)
            == text.subrange(start, text.len() as int));
    } else {
        lemma_pieces_from_join(text, sep, start, i + 1);
    }
}

/// Joining the pieces of a text with the separator that cut it gives the
/// text back.
pub proof fn lemma_join_undoes_split(text: Seq<char>, sep: Seq<char>)
    requires
        sep.len() > 0,
    ensures
        pieces(text, sep).len() > 0,
        joined(pieces(text, sep), sep) == text,
{
    lemma_pieces_from_join(text, sep, 0, 0);
    assert(text.subrange(0, text.len() as int) == text);
}

/// Tells whether `sep` stands in `text` at index `i`.
fn found_at(text: &Vec<char>, sep: &Vec<char>, i: usize) -> (b: bool)
    requires
        i + sep.len() <= text.len(),
    ensures
        b == occurs_at(text@, sep@, i as int),
{
    let mut k: usize = 0;
    while k < sep.len()
        invariant
            k <= sep.len(),
            i + sep.len() <= text.len(),
            forall|j: int| 0 <= j < k ==> text@[i + j] == sep@[j],
        decreases sep.len() - k,
    {
        if text[i + k] != sep[k] {
            assert(text@.subrange(i as int, i + sep.len())[k as int] != sep@[k as int]);
            return false;
        }
        k += 1;
    }
    assert(text@.subrange(i as int, i + sep.len()) =~= sep@);
    true
}

/// Cuts a text into the pieces that stand between the occurrences of a
/// separator.
pub fn split(text: &str, sep: &str) -> (parts: Vec<String>)
    requires
        sep@.len() > 0,
    ensures
        views(parts@) == pieces(text@, sep@),
{
    let chars = chars_of(text);
    let mark = chars_of(sep);
    let mut parts: Vec<String> = Vec::new();
    let mut start: usize = 0;
    let mut i: usize = 0;
    while mark.len() <= chars.len() && i <= chars.len() - mark.len()
        invariant
            mark@ == sep@,
            chars@ == text@,
            mark.len() > 0,
            start <= i <= chars.len(),
            pieces(text@, sep@) == views(parts@) + pieces_from(text@, sep@, start as int, i as int),
        decreases chars.len() - i,
    {
        let ghost before = views(parts@);
        if found_at(&chars, &mark, i) {
            let piece = string_of(&chars, start, i);
            parts.push(piece);
            assert(views(parts@) == before.push(piece@));
            i = i + mark.len();
            start = i;
        } else {
            i += 1;
        }
    }
    let ghost before = views(parts@);
    let piece = string_of(&chars, start, chars.len());
    parts.push(piece);
    assert(views(parts@) == before.push(piece@));
    parts
}

/// Whether a character is white space, as Unicode defines it.
pub open spec fn is_space(c: char) -> bool {
    let n = c as u32;
    ||| 9 <= n <= 13
    ||| n == 0x20
    ||| n == 0x85
    ||| n == 0xA0
    ||| n == 0x1680
    ||| 0x2000 <= n <= 0x200A
    ||| n == 0x2028
    ||| n == 0x2029
    ||| n == 0x202F
    ||| n == 0x205F
    ||| n == 0x3000
}

/// Whether a text holds nothing but white space.
pub open spec fn is_blank(text: Seq<char>) -> bool {
    forall|i: int| 0 <= i < text.len() ==> is_space(#[trigger] text[i])
}

/// Tells whether a text holds nothing but white space.
pub fn blank(text: &str) -> (b: bool)
    ensures
        b == is_blank(text@),
{
    let chars = chars_of(text);
    let mut i: usize = 0;
    while i < chars.len()
        invariant
            i <= chars.len(),
            chars@ == text@,
            forall|k: int| 0 <= k < i ==> is_space(#[trigger] chars@[k]),
        decreases chars.len() - i,
    {
        let n = chars[i] as u32;
        let space = (9 <= n && n <= 13) || n == 0x20 || n == 0x85 || n == 0xA0 || n == 0x1680 || (
        0x2000 <= n && n <= 0x200A) || n == 0x2028 || n == 0x2029 || n == 0x202F || n == 0x205F
            || n == 0x3000;
        if !space {
            assert(!is_space(text@[i as int]));
            return false;
        }
        i += 1;
    }
    true
}

/// Whether `i` is the first index at which `c` stands in `text`.
pub open spec fn first_at(text: Seq<char>, c: char, i: int) -> bool {
    &&& 0 <= i < text.len()
    &&& text[i] == c
    &&& forall|j: int| 0 <= j < i ==> text[j] != c
}

/// What stands before and behind the first `c` in `text`, where `c` stands
/// in it at all.
pub open spec fn cut(text: Seq<char>, c: char) -> Option<(Seq<char>, Seq<char>)> {
    if exists|i: int| first_at(text, c, i) {
        let i = choose|i: int| first_at(text, c, i);
        Some((text.take(i), text.skip(i + 1)))
    } else {
        None
    }
}

/// Cuts a text at the first `c` in it.
pub fn cut_first(text: &str, c: char) -> (halves: Option<(String, String)>)
    ensures
        match halves {
            Some((head, tail)) => cut(text@, c) == Some((head@, tail@)),
            None => cut(text@, c) is None,
        },
{
    let chars = chars_of(text);
    let mut i: usize = 0;
    while i < chars.len()
        invariant
            i <= chars.len(),
            chars@ == text@,
            forall|j: int| 0 <= j < i ==> chars@[j] != c,
        decreases chars.len() - i,
    {
        if chars[i] == c {
            let head = string_of(&chars, 0, i);
            let tail = string_of(&chars, i + 1, chars.len());
            proof {
                assert(first_at(text@, c, i as int));
                let k = choose|k: int| first_at(text@, c, k);
                assert(k == i);
            }
            return Some((head, tail));
        }
        i += 1;
    }
    None
}

/// Whether a text is made of the digits `0` and `1` alone.
pub open spec fn is_binary(text: Seq<char>) -> bool {
    forall|i: int| 0 <= i < text.len() ==> #[trigger] text[i] == '0' || text[i] == '1'
}

/// The binary notation of a number is made of the digits `0` and `1`.
pub proof fn lemma_binary_digits_are_binary(n: nat)
    ensures
        is_binary(binary_digits(n)),
        binary_digits(n).len() >= 1,
    decreases n,
{
    if n >= 2 {
        lemma_binary_digits_are_binary(n / 2);
    }
}

/// The binary notations of bytes are made of the digits `0` and `1`, and no
/// byte is written with more than eight or with no digit.
pub proof fn lemma_binary_text_is_binary(bytes: Seq<u8>)
    ensures
        is_binary(binary_text(bytes)),
        bytes.len() <= binary_text(bytes).len() <= 8 * bytes.len(),
    decreases bytes.len(),
{
    if bytes.len() > 0 {
        lemma_binary_text_is_binary(bytes.drop_last());
        lemma_binary_digits_are_binary(bytes.last() as nat);
        reveal_with_fuel(binary_digits, 9);
    }
}

/// The binary notation of a byte whose highest bit is set has eight digits.
pub proof fn lemma_high_byte_digits(b: u8)
    requires
        b >= 128,
    ensures
        binary_digits(b as nat).len() == 8,
{
    reveal_with_fuel(binary_digits, 9);
}

/// Bytes that all have their highest bit set are written in binary with
/// eight digits each, and with nothing between them.
pub proof fn lemma_binary_text_len(bytes: Seq<u8>)
    requires
        forall|i: int| 0 <= i < bytes.len() ==> bytes[i] >= 128,
    ensures
        binary_text(bytes).len() == 8 * bytes.len(),
    decreases bytes.len(),
{
    if bytes.len() > 0 {
        lemma_binary_text_len(bytes.drop_last());
        lemma_high_byte_digits(bytes.last());
    }
}

} // verus!
