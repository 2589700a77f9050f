//! Transcripts: the raw bytes of one direction of the link, and their text
//! in the chosen rendering.
use vstd::prelude::*;
use crate::channel::{ByteChannel, Channel, ChannelError};
use crate::codec::{
    ascii_glyphs, glyphs, hex_char, hex_char_value, hex_digit, hex_value, push_all, push_ascii,
    push_glyphs, render, ByteBuffer, DisplayMode,
};

verus! {

/// What a transcript holds: its raw bytes, its text, and how it renders.
pub struct TranscriptView {
    pub raw: Seq<u8>,
    pub text: Seq<char>,
    pub mode: DisplayMode,
}

impl TranscriptView {
    pub open spec fn hex(self) -> bool {
        self.mode.is_hex()
    }

    /// The text of a typed hex digit that has not yet made a byte.
    pub open spec fn pending_text(self) -> Seq<char> {
        match self.mode.pending() {
            Some(h) => seq![hex_digit(h)],
            None => Seq::empty(),
        }
    }

    /// The text is the rendering of the raw bytes, from the first to the
    /// last, followed by the pending digit if there is one.
    pub open spec fn wf(self) -> bool {
        &&& self.mode.wf()
        &&& self.text == render(self.raw, self.hex()) + self.pending_text()
    }

    /// Everything emptied, a pending digit discarded.
    pub open spec fn cleared(self) -> TranscriptView {
        TranscriptView { raw: Seq::empty(), text: Seq::empty(), mode: self.mode.cleared() }
    }

    /// The other rendering, the text rebuilt from the raw bytes.
    pub open spec fn switched(self) -> TranscriptView {
        let mode = if self.hex() {
            DisplayMode::Ascii
        } else {
            DisplayMode::Hex(ByteBuffer { buf: None })
        };
        TranscriptView { raw: self.raw, text: render(self.raw, !self.hex()), mode }
    }

    /// Undoes the last unit: a pending digit if there is one, else the last
    /// byte together with its glyphs.
    pub open spec fn popped(self) -> TranscriptView {
        if self.mode.pending() is Some {
            TranscriptView {
                raw: self.raw,
                text: self.text.drop_last(),
                mode: DisplayMode::Hex(ByteBuffer { buf: None }),
            }
        } else if self.raw.len() == 0 {
            self
        } else {
            TranscriptView {
                raw: self.raw.drop_last(),
                text: render(self.raw.drop_last(), self.hex()),
                mode: self.mode,
            }
        }
    }

    /// The raw byte that `popped` removes.
    pub open spec fn popped_byte(self) -> Option<u8> {
        if self.mode.pending() is Some || self.raw.len() == 0 {
            None
        } else {
            Some(self.raw.last())
        }
    }

    /// One typed byte. In ASCII it is taken as it is. In hex only a hex
    /// digit counts: the first of a pair is shown and held, the second
    /// completes a byte and is shown followed by a space.
    pub open spec fn pushed_char(self, ch: u8) -> TranscriptView {
        match self.mode {
            DisplayMode::Ascii => TranscriptView {
                raw: self.raw.push(ch),
                text: self.text + ascii_glyphs(ch),
                mode: self.mode,
            },
            DisplayMode::Hex(bb) => match hex_value(ch as char) {
                None => self,
                Some(d) => match bb.buf {
                    None => TranscriptView {
                        raw: self.raw,
                        text: self.text.push(hex_digit(d)),
                        mode: DisplayMode::Hex(ByteBuffer { buf: Some(d) }),
                    },
                    Some(h) => TranscriptView {
                        raw: self.raw.push((h * 16 + d) as u8),
                        text: self.text + seq![hex_digit(d), ' '],
                        mode: DisplayMode::Hex(ByteBuffer { buf: None }),
                    },
                },
            },
        }
    }

    /// The raw byte that typing `ch` emits, if any.
    pub open spec fn char_output(self, ch: u8) -> Option<u8> {
        match self.mode {
            DisplayMode::Ascii => Some(ch),
            DisplayMode::Hex(bb) => match (hex_value(ch as char), bb.buf) {
                (Some(d), Some(h)) => Some((h * 16 + d) as u8),
                _ => None,
            },
        }
    }

    /// Received bytes appended; a pending digit stays last in the text.
    pub open spec fn pushed_bytes(self, bytes: Seq<u8>) -> TranscriptView {
        TranscriptView {
            raw: self.raw + bytes,
            text: render(self.raw + bytes, self.hex()) + self.pending_text(),
            mode: self.mode,
        }
    }
}

/// Rendering one more byte appends its glyphs.
pub proof fn lemma_render_push(raw: Seq<u8>, b: u8, hex: bool)
    ensures
        render(raw.push(b), hex) == render(raw, hex) + glyphs(b, hex),
{
    assert(raw.push(b).drop_last() =~= raw);
}

/// Every operation on a transcript keeps its text the rendering of its
/// raw bytes.
pub proof fn lemma_pushed_char_wf(v: TranscriptView, ch: u8)
    requires
        v.wf(),
    ensures
        v.pushed_char(ch).wf(),
{
    match v.mode {
        DisplayMode::Ascii => {
            lemma_render_push(v.raw, ch, false);
            assert(v.pushed_char(ch).text =~= render(v.raw.push(ch), false));
        },
        DisplayMode::Hex(bb) => {
            if let Some(d) = hex_value(ch as char) {
                if let Some(h) = bb.buf {
                    let b = (h * 16 + d) as u8;
                    assert(b / 16 == h && b % 16 == d) by (nonlinear_arith)
                        requires
                            h < 16,
                            d < 16,
                            b == h * 16 + d,
                    ;
                    lemma_render_push(v.raw, b, true);
                    assert(v.pushed_char(ch).text =~= render(v.raw.push(b), true));
                } else {
                    assert(v.pushed_char(ch).text =~= render(v.raw, true) + seq![hex_digit(d)]);
                }
            }
        },
    }
}

/// Switching the rendering there and back gives the transcript back as it
/// was, text included, whenever no hex digit is pending (always so in
/// ASCII).
pub proof fn lemma_switch_round_trip(v: TranscriptView)
    requires
        v.wf(),
        v.mode.pending() is None,
    ensures
        v.switched().switched() == v,
{
    if v.hex() {
        assert(v.mode == DisplayMode::Hex(ByteBuffer { buf: None }));
    }
    assert(v.text =~= render(v.raw, v.hex()));
}

/// In hex, two hex digits typed one after the other emit exactly one raw
/// byte, high nibble first, and the text grows by the two digits and a
/// space.
pub proof fn lemma_hex_pair(v: TranscriptView, hi: u8, lo: u8)
    requires
        v.wf(),
        v.hex(),
        v.mode.pending() is None,
        hex_value(hi as char) is Some,
        hex_value(lo as char) is Some,
    ensures
        ({
            let h = hex_value(hi as char)->Some_0;
            let l = hex_value(lo as char)->Some_0;
            let w = v.pushed_char(hi).pushed_char(lo);
            &&& v.char_output(hi) is None
            &&& v.pushed_char(hi).char_output(lo) == Some((h * 16 + l) as u8)
            &&& w.raw == v.raw.push((h * 16 + l) as u8)
            &&& w.text == v.text + seq![hex_digit(h), hex_digit(l), ' ']
            &&& w.mode.pending() is None
        }),
{
    let w = v.pushed_char(hi).pushed_char(lo);
    assert(w.text =~= v.text + seq![hex_digit(hex_value(hi as char)->Some_0), hex_digit(hex_value(lo as char)->Some_0), ' ']);
}

/// In hex, a single typed digit emits nothing: the raw bytes stay, the
/// digit is shown and held.
pub proof fn lemma_hex_single_digit(v: TranscriptView, c: u8)
    requires
        v.wf(),
        v.hex(),
        v.mode.pending() is None,
        hex_value(c as char) is Some,
    ensures
        v.char_output(c) is None,
        v.pushed_char(c).raw == v.raw,
        v.pushed_char(c).mode.pending() == hex_value(c as char),
        v.pushed_char(c).text == v.text.push(hex_digit(hex_value(c as char)->Some_0)),
{
}

/// Undoing a byte completed in hex removes exactly that byte and its three
/// characters, and gives back the transcript as it was before the pair.
pub proof fn lemma_pop_after_pair(v: TranscriptView, hi: u8, lo: u8)
    requires
        v.wf(),
        v.hex(),
        v.mode.pending() is None,
        hex_value(hi as char) is Some,
        hex_value(lo as char) is Some,
    ensures
        ({
            let w = v.pushed_char(hi).pushed_char(lo);
            &&& w.popped() == v
            &&& w.popped_byte() == v.pushed_char(hi).char_output(lo)
            &&& w.popped().text.len() + 3 == w.text.len()
            &&& w.popped().raw.len() + 1 == w.raw.len()
        }),
{
    let w = v.pushed_char(hi).pushed_char(lo);
    lemma_pushed_char_wf(v, hi);
    lemma_pushed_char_wf(v.pushed_char(hi), lo);
    lemma_hex_pair(v, hi, lo);
    assert(w.raw.drop_last() =~= v.raw);
    assert(v.mode == DisplayMode::Hex(ByteBuffer { buf: None }));
    assert(v.text =~= render(v.raw, true));
}

/// Undoing a pending hex digit removes only that digit from the text and
/// empties the accumulator; the raw bytes stay.
pub proof fn lemma_pop_pending(v: TranscriptView, c: u8)
    requires
        v.wf(),
        v.hex(),
        v.mode.pending() is None,
        hex_value(c as char) is Some,
    ensures
        v.pushed_char(c).popped() == v,
        v.pushed_char(c).popped_byte() is None,
        v.pushed_char(c).popped().text.len() + 1 == v.pushed_char(c).text.len(),
        v.pushed_char(c).popped().raw == v.pushed_char(c).raw,
{
    assert(v.mode == DisplayMode::Hex(ByteBuffer { buf: None }));
    assert(v.pushed_char(c).text.drop_last() =~= v.text);
}

/// A transcript: raw bytes, their text, and the rendering in use.
pub struct Display {
    buffer: Vec<u8>,
    show: String,
    display_mode: DisplayMode,
}

impl View for Display {
    type V = TranscriptView;

    closed spec fn view(&self) -> TranscriptView {
        TranscriptView { raw: self.buffer@, text: self.show@, mode: self.display_mode }
    }
}

impl Display {
    pub open spec fn wf(&self) -> bool {
        self@.wf()
    }

    /// The view of a new transcript: empty, in ASCII.
    pub open spec fn new_view() -> TranscriptView {
        TranscriptView { raw: Seq::empty(), text: Seq::empty(), mode: DisplayMode::Ascii }
    }

    /// An empty transcript in ASCII.
    pub fn new() -> (r: Self)
        ensures
            r.wf(),
            r@ == Display::new_view(),
    {
        Display { buffer: Vec::new(), show: String::new(), display_mode: DisplayMode::Ascii }
    }

    /// Empties the bytes and the text and discards a pending digit; the
    /// rendering stays.
    pub fn clear(&mut self)
        ensures
            final(self).wf(),
            final(self)@ == old(self)@.cleared(),
    {
        self.buffer.clear();
        self.show.clear();
        self.display_mode.clear();
    }

    /// Switches between ASCII and hex and renders every byte anew.
    pub fn switch_hex(&mut self)
        ensures
            final(self).wf(),
            final(self)@ == old(self)@.switched(),
    {
        self.display_mode = match self.display_mode {
            DisplayMode::Ascii => DisplayMode::Hex(ByteBuffer { buf: None }),
            DisplayMode::Hex(_) => DisplayMode::Ascii,
        };
        self.show.clear();
        let hex = self.is_hex();
        push_all(&mut self.show, &self.buffer, hex);
        assert(self.show@ =~= render(self.buffer@, hex));
        assert(self@.text =~= render(self@.raw, self@.hex()) + self@.pending_text());
    }

    /// Undoes the last unit: a pending digit, else the last byte and its
    /// glyphs. Returns the byte removed.
    pub fn pop(&mut self) -> (r: Option<u8>)
        requires
            old(self).wf(),
        ensures
            final(self).wf(),
            final(self)@ == old(self)@.popped(),
            r == old(self)@.popped_byte(),
    {
        if let DisplayMode::Hex(ByteBuffer { buf: Some(_) }) = self.display_mode {
            self.show.pop();
            self.display_mode = DisplayMode::Hex(ByteBuffer { buf: None });
            assert(self@.text =~= render(self@.raw, true));
            return None;
        }
        let n = self.buffer.len();
        if n == 0 {
            return None;
        }
        let hex = self.is_hex();
        let last = self.buffer[n - 1];
        let count: usize = if hex {
            3
        } else if last == 9 {
            4
        } else {
            1
        };
        proof {
            lemma_render_push(self.buffer@.drop_last(), last, hex);
            assert(self.buffer@.drop_last().push(last) =~= self.buffer@);
            assert(self.show@ =~= render(self.buffer@.drop_last(), hex) + glyphs(last, hex));
        }
        let ghost keep = render(self.buffer@.drop_last(), hex);
        let mut i: usize = 0;
        while i < count
            invariant
                i <= count,
                count == glyphs(last, hex).len(),
                self.show@ == keep + glyphs(last, hex).take(count - i),
                self.buffer == old(self).buffer,
                self.display_mode == old(self).display_mode,
            decreases count - i,
        {
            self.show.pop();
            assert(self.show@ =~= keep + glyphs(last, hex).take(count - i - 1));
            i += 1;
        }
        assert(self.show@ =~= keep);
        self.buffer.pop()
    }

    /// Takes one typed byte (see `TranscriptView::pushed_char`) and returns
    /// the raw byte it emits, if any.
    pub fn push_char(&mut self, ch: u8) -> (r: Option<u8>)
        requires
            old(self).wf(),
        ensures
            final(self).wf(),
            final(self)@ == old(self)@.pushed_char(ch),
            r == old(self)@.char_output(ch),
    {
        proof {
            lemma_pushed_char_wf(self@, ch);
        }
        let mut out = None;
        match &mut self.display_mode {
            DisplayMode::Ascii => {
                self.buffer.push(ch);
                push_ascii(&mut self.show, ch);
                out = Some(ch);
            },
            DisplayMode::Hex(byte_buf) => {
                if let Some(d) = hex_char_value(ch as char) {
                    let mut complete = false;
                    if let Some(b) = byte_buf.push(d) {
                        self.buffer.push(b);
                        out = Some(b);
                        complete = true;
                    }
                    self.show.push(hex_char(d));
                    if complete {
                        self.show.push(' ');
                    }
                }
            },
        }
        assert(self@.raw =~= old(self)@.pushed_char(ch).raw);
        assert(self@.text =~= old(self)@.pushed_char(ch).text);
        assert(self@.mode == old(self)@.pushed_char(ch).mode);
        out
    }

    /// Appends a received byte, rendered in the current mode. A hex digit
    /// typed and not yet completed stays last in the text, after the new
    /// byte, so the text remains the rendering of the raw bytes followed by
    /// that digit.
    pub fn push_byte(&mut self, byte: u8)
        requires
            old(self).wf(),
        ensures
            final(self).wf(),
            final(self)@ == old(self)@.pushed_bytes(seq![byte]),
    {
        self.buffer.push(byte);
        assert(self.buffer@.drop_last() =~= old(self)@.raw);
        self.show_push(byte);
        assert(old(self)@.raw + seq![byte] =~= old(self)@.raw.push(byte));
    }

    /// Renders a byte just appended to `buffer`, before a pending digit.
    fn show_push(&mut self, byte: u8)
        requires
            old(self).buffer@.len() > 0,
            old(self).buffer@.last() == byte,
            old(self).display_mode.wf(),
            old(self).show@ == render(old(self).buffer@.drop_last(), old(self)@.hex())
                + old(self)@.pending_text(),
        ensures
            final(self).wf(),
            final(self).buffer == old(self).buffer,
            final(self).display_mode == old(self).display_mode,
    {
        let hex = self.is_hex();
        let pending = self.pending();
        if pending.is_some() {
            self.show.pop();
        }
        push_glyphs(&mut self.show, byte, hex);
        if let Some(h) = pending {
            self.show.push(hex_char(h));
        }
        proof {
            lemma_render_push(self.buffer@.drop_last(), byte, hex);
            assert(self.buffer@.drop_last().push(byte) =~= self.buffer@);
        }
        assert(self.show@ =~= render(self.buffer@, hex) + self@.pending_text());
    }

    pub fn is_hex(&self) -> (r: bool)
        ensures
            r == self@.hex(),
    {
        matches!(self.display_mode, DisplayMode::Hex(_))
    }

    pub fn is_ascii(&self) -> (r: bool)
        ensures
            r == !self@.hex(),
    {
        !self.is_hex()
    }

    /// The hex digit typed and not yet completed into a byte, if any.
    pub fn pending(&self) -> (r: Option<u8>)
        ensures
            r == self@.mode.pending(),
    {
        match self.display_mode {
            DisplayMode::Hex(b) => b.buf,
            DisplayMode::Ascii => None,
        }
    }

    pub fn raw(&self) -> (r: &[u8])
        ensures
            r@ == self@.raw,
    {
        self.buffer.as_slice()
    }

    pub fn text(&self) -> (r: &str)
        ensures
            r@ == self@.text,
    {
        self.show.as_str()
    }
}

/// The bytes that go on the wire for an emitted byte: a newline is followed
/// by a carriage return when that mapping is on.
pub open spec fn wire(lf_crlf: bool, b: u8) -> Seq<u8> {
    if lf_crlf && b == 10 {
        seq![10u8, 13u8]
    } else {
        seq![b]
    }
}

/// The outbound transcript, and whether a newline is sent with a carriage
/// return after it.
pub struct Tx {
    pub display: Display,
    pub lf_crlf: bool,
}

impl Tx {
    pub open spec fn wf(&self) -> bool {
        self.display.wf()
    }

    pub fn new() -> (r: Self)
        ensures
            r.wf(),
            r.display@ == Display::new_view(),
            !r.lf_crlf,
    {
        Tx { display: Display::new(), lf_crlf: false }
    }

    /// The text with the cursor glyph after it, for one render pass.
    pub fn with_cursor(&self, cursor: char) -> (r: WithCursor)
        ensures
            r@ == self.display@.text.push(cursor),
    {
        WithCursor::new(&self.display.show, cursor)
    }

    /// Switches the rendering between ASCII and hex.
    pub fn switch_hex(&mut self)
        ensures
            final(self).wf(),
            final(self).display@ == old(self).display@.switched(),
            final(self).lf_crlf == old(self).lf_crlf,
    {
        self.display.switch_hex();
    }

    pub fn is_ascii(&self) -> (r: bool)
        ensures
            r == !self.display@.hex(),
    {
        self.display.is_ascii()
    }

    /// The wire bytes for emitted byte `b`.
    pub fn wire_bytes(&self, b: u8) -> (r: Vec<u8>)
        ensures
            r@ == wire(self.lf_crlf, b),
    {
        if self.lf_crlf && b == 10 {
            vec![10u8, 13u8]
        } else {
            vec![b]
        }
    }

    /// Takes the outcome of writing the byte last emitted: on failure that
    /// byte leaves the transcript again. Returns the outcome unchanged.
    pub fn settle(&mut self, res: Result<(), ChannelError>) -> (r: Result<(), ChannelError>)
        requires
            old(self).wf(),
        ensures
            final(self).wf(),
            final(self).lf_crlf == old(self).lf_crlf,
            r == res,
            res is Ok ==> final(self).display@ == old(self).display@,
            res is Err ==> final(self).display@ == old(self).display@.popped(),
    {
        if res.is_err() {
            self.display.pop();
        }
        res
    }

    /// Takes one typed byte into the transcript and, when it emits a byte,
    /// writes that byte's wire bytes to `port` once. If the write fails the
    /// byte is taken back out, so the transcript shows only what was sent,
    /// and the failure is returned. When no byte is emitted the port is not
    /// used.
    pub fn send<C: ByteChannel>(&mut self, ch: u8, port: &mut Channel<C>) -> (r: Result<(), ChannelError>)
        requires
            old(self).wf(),
        ensures
            final(self).wf(),
            final(self).lf_crlf == old(self).lf_crlf,
            old(self).display@.char_output(ch) is None ==> r is Ok && *final(port) == *old(port),
            r is Ok ==> final(self).display@ == old(self).display@.pushed_char(ch),
            r is Err ==> final(self).display@ == old(self).display@.pushed_char(ch).popped(),
            old(self).display@.char_output(ch) is Some ==> final(port).attempted()
                == old(port).attempted() + wire(
                old(self).lf_crlf,
                old(self).display@.char_output(ch)->Some_0,
            ),
            old(self).display@.char_output(ch) is Some && r is Ok ==> final(port).written()
                == old(port).written() + wire(
                old(self).lf_crlf,
                old(self).display@.char_output(ch)->Some_0,
            ),
            r is Err ==> final(port).written() == old(port).written(),
            r is Ok ==> final(port).failures() == old(port).failures(),
            r is Err ==> final(port).failures() == old(port).failures() + 1,
            final(port).read() == old(port).read(),
            final(port).rate_set() == old(port).rate_set(),
    {
        let c = match self.display.push_char(ch) {
            Some(c) => c,
            None => {
                return Ok(());
            },
        };
        let bytes = self.wire_bytes(c);
        let res = port.write_all(bytes.as_slice());
        self.settle(res)
    }
}

/// The inbound transcript.
pub struct Rx {
    pub display: Display,
}

impl Rx {
    pub open spec fn wf(&self) -> bool {
        self.display.wf()
    }

    pub fn new() -> (r: Self)
        ensures
            r.wf(),
            r.display@ == Display::new_view(),
    {
        Rx { display: Display::new() }
    }

    /// The text with the cursor glyph after it, for one render pass.
    pub fn with_cursor(&self, cursor: char) -> (r: WithCursor)
        ensures
            r@ == self.display@.text.push(cursor),
    {
        WithCursor::new(&self.display.show, cursor)
    }

    pub fn is_ascii(&self) -> (r: bool)
        ensures
            r == !self.display@.hex(),
    {
        self.display.is_ascii()
    }

    /// Appends received bytes, each rendered in the current mode.
    pub fn receive(&mut self, bytes: &[u8])
        requires
            old(self).wf(),
        ensures
            final(self).wf(),
            final(self).display@ == old(self).display@.pushed_bytes(bytes@),
    {
        let mut i: usize = 0;
        assert(old(self).display@.raw + bytes@.take(0) =~= old(self).display@.raw);
        assert(old(self).display@.pushed_bytes(bytes@.take(0)) =~= old(self).display@);
        while i < bytes.len()
            invariant
                i <= bytes@.len(),
                self.wf(),
                self.display@ == old(self).display@.pushed_bytes(bytes@.take(i as int)),
            decreases bytes@.len() - i,
        {
            self.display.push_byte(bytes[i]);
            assert(old(self).display@.raw + bytes@.take(i as int) + seq![bytes@[i as int]]
                =~= old(self).display@.raw + bytes@.take(i + 1));
            i += 1;
        }
        assert(bytes@.take(i as int) =~= bytes@);
    }

    /// Takes the outcome of a read: the bytes read are appended, a failure
    /// appends nothing and is returned.
    pub fn settle_read(&mut self, res: Result<Vec<u8>, ChannelError>) -> (r: Result<(), ChannelError>)
        requires
            old(self).wf(),
        ensures
            final(self).wf(),
            res matches Ok(v) ==> r is Ok && final(self).display@ == old(self).display@.pushed_bytes(v@),
            res matches Err(e) ==> r == Err::<(), ChannelError>(e) && final(self).display@ == old(self).display@,
    {
        match res {
            Ok(v) => {
                self.receive(v.as_slice());
                Ok(())
            },
            Err(e) => Err(e),
        }
    }

    /// Reads every byte that `port` has ready and appends exactly the bytes
    /// read. On failure nothing is appended and the failure is returned.
    pub fn recv<C: ByteChannel>(&mut self, port: &mut Channel<C>) -> (r: Result<(), ChannelError>)
        requires
            old(self).wf(),
        ensures
            final(self).wf(),
            final(port).written() == old(port).written(),
            final(port).rate_set() == old(port).rate_set(),
            r is Ok ==> final(port).read().len() >= old(port).read().len() && final(port).read()
                == old(port).read() + final(port).read().skip(old(port).read().len() as int)
                && final(self).display@ == old(self).display@.pushed_bytes(
                final(port).read().skip(old(port).read().len() as int),
            ),
            r is Err ==> final(self).display@ == old(self).display@,
            r is Ok ==> final(port).failures() == old(port).failures(),
            r is Err ==> final(port).failures() == old(port).failures() + 1,
    {
        let n = match port.bytes_to_read() {
            Ok(n) => n,
            Err(e) => {
                return Err(e);
            },
        };
        let res = port.read_exact(n);
        proof {
            if res is Ok {
                assert(port.read().skip(old(port).read().len() as int) =~= res->Ok_0@);
            }
        }
        self.settle_read(res)
    }
}

/// A copy of a transcript's text with the cursor glyph at its end. The
/// glyph never enters the transcript itself.
pub struct WithCursor {
    s: String,
}

impl View for WithCursor {
    type V = Seq<char>;

    closed spec fn view(&self) -> Seq<char> {
        self.s@
    }
}

impl WithCursor {
    pub fn new(s: &String, cursor: char) -> (r: Self)
        ensures
            r@ == s@.push(cursor),
    {
        let mut s = s.clone();
        s.push(cursor);
        WithCursor { s }
    }

    pub fn as_str(&self) -> (r: &str)
        ensures
            r@ == self@,
    {
        self.s.as_str()
    }
}

} // verus!
