//! Rendering of raw bytes as text, in ASCII or as two-digit hex, and the
//! accumulator that composes a byte out of two typed hex digits.
use vstd::prelude::*;

verus! {

/// The character of a hex digit `n` (0 to 15), upper case.
pub open spec fn hex_digit(n: u8) -> char {
    if n < 10 {
        (('0' as u8) + n) as char
    } else {
        (('A' as u8) + n - 10) as char
    }
}

/// The value of a hex digit character, either case; `None` for any other
/// character.
pub open spec fn hex_value(c: char) -> Option<u8> {
    if '0' <= c && c <= '9' {
        Some((c as u8 - '0' as u8) as u8)
    } else if 'a' <= c && c <= 'f' {
        Some((c as u8 - 'a' as u8 + 10) as u8)
    } else if 'A' <= c && c <= 'F' {
        Some((c as u8 - 'A' as u8 + 10) as u8)
    } else {
        None
    }
}

/// The glyphs of a byte in ASCII rendering: a tab becomes four spaces, any
/// other byte the character with that code.
pub open spec fn ascii_glyphs(b: u8) -> Seq<char> {
    if b == 9 {
        seq![' ', ' ', ' ', ' ']
    } else {
        seq![b as char]
    }
}

/// The glyphs of a byte in hex rendering: two upper-case digits and a space.
pub open spec fn hex_glyphs(b: u8) -> Seq<char> {
    seq![hex_digit(b / 16), hex_digit(b % 16), ' ']
}

/// The glyphs of one byte in the chosen rendering.
pub open spec fn glyphs(b: u8, hex: bool) -> Seq<char> {
    if hex {
        hex_glyphs(b)
    } else {
        ascii_glyphs(b)
    }
}

/// The text of a whole byte sequence: the glyphs of each byte, in order.
pub open spec fn render(raw: Seq<u8>, hex: bool) -> Seq<char>
    decreases raw.len(),
{
    if raw.len() == 0 {
        Seq::empty()
    } else {
        render(raw.drop_last(), hex) + glyphs(raw.last(), hex)
    }
}

/// Rendering a prefix one byte longer adds that byte's glyphs.
pub proof fn lemma_render_take(raw: Seq<u8>, hex: bool, i: int)
    requires
        0 <= i < raw.len(),
    ensures
        render(raw.take(i + 1), hex) == render(raw.take(i), hex) + glyphs(raw[i], hex),
{
    assert(raw.take(i + 1).drop_last() =~= raw.take(i));
}

pub fn hex_char(n: u8) -> (c: char)
    requires
        n < 16,
    ensures
        c == hex_digit(n),
{
    if n < 10 {
        (48u8 + n) as char
    } else {
        (55u8 + n) as char
    }
}

/// The value of a hex digit character, as `char::to_digit(16)` gives it.
pub fn hex_char_value(c: char) -> (r: Option<u8>)
    ensures
        r == hex_value(c),
        r matches Some(d) ==> d < 16 && hex_digit(d) == upper_hex(c),
{
    if '0' <= c && c <= '9' {
        Some((c as u8) - 48)
    } else if 'a' <= c && c <= 'f' {
        Some((c as u8) - 87)
    } else if 'A' <= c && c <= 'F' {
        Some((c as u8) - 55)
    } else {
        None
    }
}

/// A hex digit in upper case; any other character is left as it is.
pub open spec fn upper_hex(c: char) -> char {
    if 'a' <= c && c <= 'f' {
        ((c as u8) - 32) as char
    } else {
        c
    }
}

/// Appends the ASCII rendering of a byte.
pub fn push_ascii(s: &mut String, byte: u8)
    ensures
        final(s)@ == old(s)@ + ascii_glyphs(byte),
{
    if byte == 9 {
        s.push(' ');
        s.push(' ');
        s.push(' ');
        s.push(' ');
    } else {
        s.push(byte as char);
    }
    assert(final(s)@ =~= old(s)@ + ascii_glyphs(byte));
}

/// Appends the hex rendering of a byte: two upper-case digits and a space.
pub fn push_hex(s: &mut String, byte: u8)
    ensures
        final(s)@ == old(s)@ + hex_glyphs(byte),
{
    s.push(hex_char(byte / 16));
    s.push(hex_char(byte % 16));
    s.push(' ');
    assert(final(s)@ =~= old(s)@ + hex_glyphs(byte));
}

/// Appends the rendering of a byte in either mode.
pub fn push_glyphs(s: &mut String, byte: u8, hex: bool)
    ensures
        final(s)@ == old(s)@ + glyphs(byte, hex),
{
    if hex {
        push_hex(s, byte);
    } else {
        push_ascii(s, byte);
    }
}

/// Appends the rendering of every byte of `raw`.
pub fn push_all(s: &mut String, raw: &Vec<u8>, hex: bool)
    ensures
        final(s)@ == old(s)@ + render(raw@, hex),
{
    let mut i: usize = 0;
    assert(raw@.take(0) =~= Seq::<u8>::empty());
    while i < raw.len()
        invariant
            i <= raw@.len(),
            s@ == old(s)@ + render(raw@.take(i as int), hex),
        decreases raw@.len() - i,
    {
        proof {
            lemma_render_take(raw@, hex, i as int);
        }
        push_glyphs(s, raw[i], hex);
        assert(s@ =~= old(s)@ + render(raw@.take(i + 1), hex));
        i += 1;
    }
    assert(raw@.take(i as int) =~= raw@);
}

/// The UTF-8 encoding of a character.
pub open spec fn utf8(c: char) -> Seq<u8> {
    let v = c as u32;
    if v < 0x80 {
        seq![v as u8]
    } else if v < 0x800 {
        seq![(0xC0 | (v >> 6)) as u8, (0x80 | (v & 0x3F)) as u8]
    } else if v < 0x10000 {
        seq![(0xE0 | (v >> 12)) as u8, (0x80 | ((v >> 6) & 0x3F)) as u8, (0x80 | (v & 0x3F)) as u8]
    } else {
        seq![
            (0xF0 | (v >> 18)) as u8,
            (0x80 | ((v >> 12) & 0x3F)) as u8,
            (0x80 | ((v >> 6) & 0x3F)) as u8,
            (0x80 | (v & 0x3F)) as u8,
        ]
    }
}

/// Encodes a character as UTF-8.
pub fn encode_utf8(c: char) -> (r: Vec<u8>)
    ensures
        r@ == utf8(c),
{
    let v = c as u32;
    if v < 0x80 {
        vec![v as u8]
    } else if v < 0x800 {
        vec![(0xC0 | (v >> 6)) as u8, (0x80 | (v & 0x3F)) as u8]
    } else if v < 0x10000 {
        vec![(0xE0 | (v >> 12)) as u8, (0x80 | ((v >> 6) & 0x3F)) as u8, (0x80 | (v & 0x3F)) as u8]
    } else {
        vec![
            (0xF0 | (v >> 18)) as u8,
            (0x80 | ((v >> 12) & 0x3F)) as u8,
            (0x80 | ((v >> 6) & 0x3F)) as u8,
            (0x80 | (v & 0x3F)) as u8,
        ]
    }
}

/// Buffers the high nibble of a byte typed as two hex digits.
#[derive(Debug, Clone, Copy, PartialEq, Eq, Structural)]
pub struct ByteBuffer {
    pub buf: Option<u8>,
}

impl ByteBuffer {
    /// A pending digit is a nibble.
    pub open spec fn wf(self) -> bool {
        self.buf matches Some(h) ==> h < 16
    }

    /// Takes one hex digit. The first of a pair is held; the second completes
    /// the byte, high nibble first, and empties the buffer.
    pub fn push(&mut self, hex: u8) -> (r: Option<u8>)
        requires
            old(self).wf(),
            hex < 16,
        ensures
            final(self).wf(),
            match old(self).buf {
                Some(h) => r == Some((h * 16 + hex) as u8) && final(self).buf is None,
                None => r is None && final(self).buf == Some(hex),
            },
    {
        if let Some(b) = self.buf {
            self.buf = None;
            Some(b * 16 + hex)
        } else {
            self.buf = Some(hex);
            None
        }
    }
}

/// How a transcript renders its bytes; hex carries the digit typed so far.
#[derive(Debug, Clone, Copy, PartialEq, Eq, Structural)]
pub enum DisplayMode {
    Ascii,
    Hex(ByteBuffer),
}

impl DisplayMode {
    pub open spec fn is_hex(self) -> bool {
        self is Hex
    }

    pub open spec fn wf(self) -> bool {
        self matches DisplayMode::Hex(b) ==> b.wf()
    }

    /// The hex digit typed but not yet completed into a byte, if any.
    pub open spec fn pending(self) -> Option<u8> {
        match self {
            DisplayMode::Hex(b) => b.buf,
            DisplayMode::Ascii => None,
        }
    }

    /// The same mode with no pending digit.
    pub open spec fn cleared(self) -> DisplayMode {
        match self {
            DisplayMode::Hex(_) => DisplayMode::Hex(ByteBuffer { buf: None }),
            DisplayMode::Ascii => DisplayMode::Ascii,
        }
    }

    /// Discards a pending digit.
    pub fn clear(&mut self)
        ensures
            *final(self) == old(self).cleared(),
    {
        if let DisplayMode::Hex(b) = self {
            b.buf = None;
        }
    }
}

} // verus!
