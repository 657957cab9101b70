//! Strings as sequences of characters: searching, splitting into lines, decimal numbers.
use vstd::prelude::*;
use vstd::utf8::*;

verus! {

/// The character sequences of some strings.
pub open spec fn strings(list: Seq<String>) -> Seq<Seq<char>> {
    list.map_values(|s: String| s@)
}

/// `line` without the one carriage return that may end it.
pub open spec fn without_cr(line: Seq<char>) -> Seq<char> {
    if line.len() > 0 && line.last() == '\r' {
        line.drop_last()
    } else {
        line
    }
}

/// The lines of `text`: each ends at a line feed, or at a carriage return followed by one, and
/// neither is part of the line. What follows the last line feed is a line if it is not empty.
pub open spec fn text_lines(text: Seq<char>) -> Seq<Seq<char>>
    decreases text.len(),
    via text_lines_decreases
{
    if text.len() == 0 {
        Seq::empty()
    } else {
        match text.index_of_first('\n') {
            Some(end) => seq![without_cr(text.take(end))] + text_lines(text.skip(end + 1)),
            None => seq![text],
        }
    }
}

#[via_fn]
proof fn text_lines_decreases(text: Seq<char>) {
    text.index_of_first_ensures('\n');
}

/// The decimal digit with the value `d`.
pub open spec fn digit(d: nat) -> char {
    ('0' as nat + d) as char
}

/// `n` in decimal, without leading zeros.
pub open spec fn decimal(n: nat) -> Seq<char>
    decreases n,
{
    if n < 10 {
        seq![digit(n)]
    } else {
        decimal(n / 10).push(digit(n % 10))
    }
}

/// Each of `lines` followed by a line feed.
pub open spec fn terminated(lines: Seq<Seq<char>>) -> Seq<char>
    decreases lines.len(),
{
    if lines.len() == 0 {
        Seq::empty()
    } else {
        lines[0] + seq!['\n'] + terminated(lines.drop_first())
    }
}

/// The number that `digits` reads as in decimal.
pub open spec fn decimal_value(digits: Seq<char>) -> int
    decreases digits.len(),
{
    if digits.len() == 0 {
        0
    } else {
        decimal_value(digits.drop_last()) * 10 + (digits.last() as int - '0' as int)
    }
}

/// Lines that hold no line feed and end in no carriage return, each followed by a line feed, are
/// read back as they were.
pub proof fn lines_are_read_back(lines: Seq<Seq<char>>)
    requires
        forall|i: int|
            0 <= i < lines.len() ==> !(#[trigger] lines[i]).contains('\n') && without_cr(lines[i])
                == lines[i],
    ensures
        text_lines(terminated(lines)) == lines,
    decreases lines.len(),
{
    if lines.len() > 0 {
        let rest = lines.drop_first();
        let text = terminated(lines);
        assert forall|i: int| 0 <= i < rest.len() implies !(#[trigger] rest[i]).contains('\n')
            && without_cr(rest[i]) == rest[i] by {
            assert(rest[i] == lines[i + 1]);
        }
        lines_are_read_back(rest);
        let end = lines[0].len() as int;
        assert(text[end] == '\n');
        text.index_of_first_ensures('\n');
        assert(text.contains('\n'));
        let found = text.index_of_first('\n')->0;
        assert(found == end) by {
            if found < end {
                assert(lines[0][found] == '\n');
            }
        }
        assert(text.take(end) == lines[0]);
        assert(text.skip(end + 1) == terminated(rest));
        assert(seq![lines[0]] + rest == lines);
    }
}

/// A number in decimal reads as that number, so two numbers are never written alike.
pub proof fn decimal_is_read_back(n: nat)
    ensures
        decimal_value(decimal(n)) == n,
    decreases n,
{
    if n < 10 {
        assert(decimal(n).drop_last() == Seq::<char>::empty());
        assert(decimal_value(Seq::empty()) == 0);
    } else {
        decimal_is_read_back(n / 10);
        assert(decimal(n).drop_last() == decimal(n / 10));
    }
}

/// A text is determined by its UTF-8 encoding.
proof fn encoding_is_injective(a: Seq<char>, b: Seq<char>)
    requires
        encode_utf8(a) == encode_utf8(b),
    ensures
        a == b,
{
    encode_utf8_decode_utf8(a);
    encode_utf8_decode_utf8(b);
}

/// Only an ASCII character has an ASCII byte in its encoding, which is then that byte alone.
proof fn ascii_scalar_is_one_byte(c: char)
    ensures
        (c as int) < 128 ==> encode_scalar(c as u32).len() == 1 && encode_scalar(c as u32)[0] as int
            == c as int,
        (c as int) >= 128 ==> encode_scalar(c as u32).len() > 0 && forall|i: int|
            0 <= i < encode_scalar(c as u32).len() ==> #[trigger] encode_scalar(c as u32)[i] >= 128,
{
    let u = c as u32;
    char_is_scalar(c);
    assert(u < 128 ==> (u & 0x7F) as u8 == u) by (bit_vector);
    assert(0xC0 | ((u >> 6) & 0x1F) as u8 >= 128) by (bit_vector);
    assert(0xE0 | ((u >> 12) & 0x0F) as u8 >= 128) by (bit_vector);
    assert(0xF0 | ((u >> 18) & 0x7) as u8 >= 128) by (bit_vector);
    assert(0x80 | (u & 0x3F) as u8 >= 128) by (bit_vector);
    assert(0x80 | ((u >> 6) & 0x3F) as u8 >= 128) by (bit_vector);
    assert(0x80 | ((u >> 12) & 0x3F) as u8 >= 128) by (bit_vector);
}

/// The byte at `i` encodes the character at `k`, alone, and what stands before and after the one
/// encodes what stands before and after the other.
spec fn byte_encodes(s: Seq<char>, k: int, i: int) -> bool {
    let bytes = encode_utf8(s);
    &&& 0 <= k < s.len()
    &&& 0 <= i < bytes.len()
    &&& bytes[i] as int == s[k] as int
    &&& bytes.take(i) == encode_utf8(s.take(k))
    &&& bytes.skip(i) == encode_utf8(s.skip(k))
    &&& bytes.skip(i + 1) == encode_utf8(s.skip(k + 1))
}

/// An encoded character moves with the text that it stands in.
proof fn byte_encodes_further(s: Seq<char>, k: int, i: int)
    requires
        s.len() > 0,
        byte_encodes(s.drop_first(), k, i),
    ensures
        byte_encodes(s, k + 1, i + encode_scalar(s[0] as u32).len()),
{
    let head = encode_scalar(s[0] as u32);
    let rest = s.drop_first();
    let bytes = encode_utf8(s);
    let n = head.len() as int;
    assert(s.take(k + 1).drop_first() == rest.take(k));
    assert(s.take(k + 1)[0] == s[0]);
    assert(bytes.take(i + n) == head + encode_utf8(rest).take(i));
    assert(s.skip(k + 1) == rest.skip(k));
    assert(bytes.skip(i + n) == encode_utf8(rest).skip(i));
    assert(s.skip(k + 2) == rest.skip(k + 1));
    assert(bytes.skip(i + n + 1) == encode_utf8(rest).skip(i + 1));
}

/// An ASCII character that starts a text is its first byte.
proof fn first_byte_encodes(s: Seq<char>)
    requires
        s.len() > 0,
        (s[0] as int) < 128,
    ensures
        byte_encodes(s, 0, 0),
{
    ascii_scalar_is_one_byte(s[0]);
    let bytes = encode_utf8(s);
    assert(s.skip(0) == s);
    assert(bytes.skip(0) == bytes);
    assert(s.skip(1) == s.drop_first());
    assert(bytes.skip(1) == encode_utf8(s.drop_first()));
    assert(s.take(0) == Seq::<char>::empty());
    assert(bytes.take(0) == encode_utf8(s.take(0)));
}

/// The character that an ASCII byte encodes.
proof fn char_of_byte(s: Seq<char>, i: int) -> (k: int)
    requires
        0 <= i < encode_utf8(s).len(),
        encode_utf8(s)[i] < 128,
    ensures
        byte_encodes(s, k, i),
    decreases s.len(),
{
    let head = encode_scalar(s[0] as u32);
    ascii_scalar_is_one_byte(s[0]);
    if i < head.len() {
        assert(encode_utf8(s)[i] == head[i]);
        first_byte_encodes(s);
        0
    } else {
        let k = char_of_byte(s.drop_first(), i - head.len());
        byte_encodes_further(s, k, i - head.len());
        k + 1
    }
}

/// The byte that an ASCII character is encoded by.
proof fn byte_of_char(s: Seq<char>, k: int) -> (i: int)
    requires
        0 <= k < s.len(),
        (s[k] as int) < 128,
    ensures
        byte_encodes(s, k, i),
    decreases s.len(),
{
    if k == 0 {
        first_byte_encodes(s);
        0
    } else {
        let i = byte_of_char(s.drop_first(), k - 1);
        byte_encodes_further(s, k - 1, i);
        i + encode_scalar(s[0] as u32).len()
    }
}

/// The two parts of `s` around the byte at `i`, which encodes the character at `k`.
fn split_around(s: &str, i: usize, Ghost(k): Ghost<int>) -> (parts: (&str, &str))
    requires
        byte_encodes(s@, k, i as int),
        (s@[k] as int) < 128,
    ensures
        parts.0@ == s@.take(k),
        parts.1@ == s@.skip(k + 1),
{
    proof {
        let bytes = encode_utf8(s@);
        encode_utf8_valid_utf8(s@);
        let b = bytes[i as int];
        assert(!is_continuation_byte(b));
        is_char_boundary_iff_not_is_continuation_byte(bytes, i as int);
    }
    let (before, from) = s.split_at(i);
    proof {
        encoding_is_injective(before@, s@.take(k));
        encoding_is_injective(from@, s@.skip(k));
        encode_utf8_valid_utf8(from@);
        encode_utf8_first_scalar(from@);
        ascii_scalar_is_one_byte(from@[0]);
        reveal_with_fuel(is_char_boundary, 2);
    }
    let (_, after) = from.split_at(1);
    proof {
        assert(encode_utf8(after@) == encode_utf8(s@).skip(i + 1));
        encoding_is_injective(after@, s@.skip(k + 1));
    }
    (before, after)
}

/// The two parts of `s` before and after the first `c`, `None` if there is no `c`.
pub fn split_once(s: &str, c: char) -> (parts: Option<(&str, &str)>)
    requires
        (c as int) < 128,
    ensures
        match s@.index_of_first(c) {
            Some(k) => parts matches Some((before, after)) && before@ == s@.take(k) && after@
                == s@.skip(k + 1),
            None => parts is None,
        },
{
    let bytes = s.as_bytes();
    let byte: u8 = c as u8;
    let mut i: usize = 0;
    while i < bytes.len()
        invariant
            (c as int) < 128,
            byte as int == c as int,
            bytes@ == encode_utf8(s@),
            i <= bytes.len(),
            forall|j: int| 0 <= j < i ==> bytes@[j] != byte,
        decreases bytes.len() - i,
    {
        if bytes[i] == byte {
            let ghost k = char_of_byte(s@, i as int);
            proof {
                s@.index_of_first_ensures(c);
                assert(s@[k] == c);
                let first = s@.index_of_first(c)->0;
                if first < k {
                    let before = s@.take(k);
                    let j = byte_of_char(before, first);
                    assert(bytes@.take(i as int)[j] == byte);
                }
            }
            return Some(split_around(s, i, Ghost(k)));
        }
        i = i + 1;
    }
    proof {
        s@.index_of_first_ensures(c);
        if let Some(k) = s@.index_of_first(c) {
            let j = byte_of_char(s@, k);
            assert(bytes@[j] == byte);
        }
    }
    None
}

/// `line` without the one carriage return that may end it.
fn strip_cr(line: &str) -> (stripped: &str)
    ensures
        stripped@ == without_cr(line@),
{
    let bytes = line.as_bytes();
    let n: usize = bytes.len();
    if n > 0 && bytes[n - 1] == 13u8 {
        let ghost k = char_of_byte(line@, n - 1);
        proof {
            let tail = line@.skip(k + 1);
            assert(encode_utf8(tail).len() == 0);
            if tail.len() > 0 {
                ascii_scalar_is_one_byte(tail[0]);
            }
            assert(line@.take(k) == line@.drop_last());
        }
        split_around(line, n - 1, Ghost(k)).0
    } else {
        proof {
            if line@.len() > 0 && line@.last() == '\r' {
                let i = byte_of_char(line@, line@.len() - 1);
                assert(bytes@.skip(i + 1).len() == encode_utf8(line@.skip(line@.len() as int)).len());
            }
        }
        line
    }
}

/// The lines of `s`, in order.
pub fn split_lines(s: &str) -> (lines: Vec<String>)
    ensures
        strings(lines@) == text_lines(s@),
{
    let mut lines: Vec<String> = Vec::new();
    let mut rest = s;
    while !rest.is_empty()
        invariant
            strings(lines@) + text_lines(rest@) == text_lines(s@),
        decreases rest@.len(),
    {
        let ghost before = lines@;
        proof {
            rest@.index_of_first_ensures('\n');
        }
        match split_once(rest, '\n') {
            Some((line, after)) => {
                let line = strip_cr(line);
                lines.push(line.to_owned());
                assert(strings(lines@) == strings(before) + seq![line@]);
                assert(text_lines(rest@) == seq![line@] + text_lines(after@));
                assert(strings(lines@) + text_lines(after@) == strings(before) + (seq![line@]
                    + text_lines(after@)));
                rest = after;
            },
            None => {
                lines.push(rest.to_owned());
                assert(strings(lines@) == strings(before) + seq![rest@]);
                rest = "";
                proof {
                    reveal_strlit("");
                }
                assert(text_lines(rest@) == Seq::<Seq<char>>::empty());
            },
        }
    }
    assert(text_lines(rest@) == Seq::<Seq<char>>::empty());
    lines
}

/// The decimal digit with the value `d`, as a string.
fn digit_str(d: usize) -> (s: &'static str)
    requires
        d < 10,
    ensures
        s@ == seq![digit(d as nat)],
{
    proof {
        reveal_strlit("0");
        reveal_strlit("1");
        reveal_strlit("2");
        reveal_strlit("3");
        reveal_strlit("4");
        reveal_strlit("5");
        reveal_strlit("6");
        reveal_strlit("7");
        reveal_strlit("8");
        reveal_strlit("9");
    }
    match d {
        0 => "0",
        1 => "1",
        2 => "2",
        3 => "3",
        4 => "4",
        5 => "5",
        6 => "6",
        7 => "7",
        8 => "8",
        _ => "9",
    }
}

/// `n` in decimal.
pub fn to_decimal(n: usize) -> (s: String)
    ensures
        s@ == decimal(n as nat),
    decreases n,
{
    if n < 10 {
        digit_str(n).to_owned()
    } else {
        let mut s = to_decimal(n / 10);
        s.append(digit_str(n % 10));
        assert(s@ == decimal(n as nat));
        s
    }
}

} // verus!
