//! The session: a modal state machine that turns keystrokes into mode
//! changes and outgoing bytes, and drains received bytes once per tick.
use vstd::prelude::*;
use crate::channel::{ByteChannel, Channel, ChannelError};
use crate::codec::{encode_utf8, render, utf8};
use crate::cursor::Cursor;
use crate::screen::{wire, Rx, TranscriptView, Tx};

verus! {

/// Whether the session goes on after a tick.
#[derive(Debug, Clone, Copy, PartialEq, Eq, Structural)]
pub enum Control {
    Continue,
    Exit,
}

impl Control {
    pub fn exit(self) -> (r: bool)
        ensures
            r == (self is Exit),
    {
        matches!(self, Control::Exit)
    }
}

/// A key the session reacts to.
#[derive(Debug, Clone, Copy, PartialEq, Eq, Structural)]
pub enum Key {
    Char(char),
    Esc,
    Enter,
    Tab,
    Backspace,
    Other,
}

/// What keys mean at the moment. Only in `Insert` are keys sent as data.
pub enum Mode {
    Normal,
    Insert,
    Config,
    WannaQuit,
    BaudInput(String),
}

/// A mode, with the baud rate typed so far as a character sequence.
pub enum ModeView {
    Normal,
    Insert,
    Config,
    WannaQuit,
    BaudInput(Seq<char>),
}

impl View for Mode {
    type V = ModeView;

    open spec fn view(&self) -> ModeView {
        match self {
            Mode::Normal => ModeView::Normal,
            Mode::Insert => ModeView::Insert,
            Mode::Config => ModeView::Config,
            Mode::WannaQuit => ModeView::WannaQuit,
            Mode::BaudInput(s) => ModeView::BaudInput(s@),
        }
    }
}

impl Mode {
    pub fn is_insert(&self) -> (r: bool)
        ensures
            r == (*self is Insert),
    {
        matches!(self, Mode::Insert)
    }

    pub fn is_normal(&self) -> (r: bool)
        ensures
            r == (*self is Normal),
    {
        matches!(self, Mode::Normal)
    }

    pub fn is_config(&self) -> (r: bool)
        ensures
            r == (*self is Config),
    {
        matches!(self, Mode::Config)
    }

    pub fn wanna_quit(&self) -> (r: bool)
        ensures
            r == (*self is WannaQuit),
    {
        matches!(self, Mode::WannaQuit)
    }
}

/// The bytes that a data key stands for: a character's UTF-8 encoding, a
/// tab, or a newline for Enter.
pub open spec fn key_bytes(k: Key) -> Seq<u8> {
    match k {
        Key::Char(c) => utf8(c),
        Key::Tab => seq![9u8],
        Key::Enter => seq![10u8],
        _ => Seq::empty(),
    }
}

pub open spec fn is_data_key(k: Key) -> bool {
    k is Char || k is Tab || k is Enter
}

/// Typed bytes taken into a transcript one after another.
pub open spec fn pushed_chars(v: TranscriptView, bytes: Seq<u8>) -> TranscriptView
    decreases bytes.len(),
{
    if bytes.len() == 0 {
        v
    } else {
        pushed_chars(v, bytes.drop_last()).pushed_char(bytes.last())
    }
}

/// The wire bytes written while typed bytes are taken into a transcript one
/// after another: those of each byte they emit, in order.
pub open spec fn emitted_wire(v: TranscriptView, bytes: Seq<u8>, lf_crlf: bool) -> Seq<u8>
    decreases bytes.len(),
{
    if bytes.len() == 0 {
        Seq::empty()
    } else {
        let before = pushed_chars(v, bytes.drop_last());
        emitted_wire(v, bytes.drop_last(), lf_crlf) + match before.char_output(bytes.last()) {
            Some(c) => wire(lf_crlf, c),
            None => Seq::empty(),
        }
    }
}

/// Typed bytes of which the `i`-th failed to go out: those before it stay,
/// that one is taken back.
pub open spec fn failed_send(v: TranscriptView, bytes: Seq<u8>, i: int) -> TranscriptView {
    pushed_chars(v, bytes.take(i)).pushed_char(bytes[i]).popped()
}

pub open spec fn is_digit(c: char) -> bool {
    '0' <= c && c <= '9'
}

/// The number that a string of decimal digits writes.
pub open spec fn decimal_value(s: Seq<char>) -> nat
    decreases s.len(),
{
    if s.len() == 0 {
        0
    } else {
        (decimal_value(s.drop_last()) * 10 + (s.last() as int - '0' as int)) as nat
    }
}

/// A baud rate as typed: one or more decimal digits, at most `u32::MAX`.
pub open spec fn parse_baud(s: Seq<char>) -> Option<u32> {
    if s.len() > 0 && (forall|i: int| 0 <= i < s.len() ==> is_digit(#[trigger] s[i]))
        && decimal_value(s) <= u32::MAX {
        Some(decimal_value(s) as u32)
    } else {
        None
    }
}

/// What a session holds, but for its device.
pub struct SessionView {
    pub tx: TranscriptView,
    pub lf_crlf: bool,
    pub rx: TranscriptView,
    pub mode: ModeView,
    pub cursor: Cursor,
    pub connected: bool,
    pub baud_error: bool,
}

impl SessionView {
    pub open spec fn wf(self) -> bool {
        self.tx.wf() && self.rx.wf()
    }

    /// Whether a key, in this state, makes the session use its device.
    pub open spec fn uses_channel(self, k: Key) -> bool {
        &&& self.connected
        &&& match self.mode {
            ModeView::Insert => is_data_key(k),
            ModeView::BaudInput(buf) => k is Enter && parse_baud(buf) is Some,
            _ => false,
        }
    }

    /// The control result of a key: only `y` while asked whether to quit
    /// ends the session.
    pub open spec fn control(self, k: Key) -> Control {
        if self.mode is WannaQuit && k == Key::Char('y') {
            Control::Exit
        } else {
            Control::Continue
        }
    }

    /// The state after a key, where the device does whatever is asked of it.
    pub open spec fn after_key(self, k: Key) -> SessionView {
        match self.mode {
            ModeView::Normal => match k {
                Key::Esc => SessionView { mode: ModeView::WannaQuit, ..self },
                Key::Char(c) => if c == 'q' {
                    SessionView { mode: ModeView::WannaQuit, ..self }
                } else if c == 'i' {
                    SessionView { mode: ModeView::Insert, cursor: Cursor::Insert { on: true, timer: 0 }, ..self }
                } else if c == 'h' {
                    SessionView { rx: self.rx.switched(), ..self }
                } else if c == 'H' {
                    SessionView { tx: self.tx.switched(), ..self }
                } else if c == 'l' {
                    SessionView { lf_crlf: !self.lf_crlf, ..self }
                } else if c == 'c' {
                    SessionView { rx: self.rx.cleared(), ..self }
                } else if c == 'C' {
                    SessionView { tx: self.tx.cleared(), ..self }
                } else if c == 'b' {
                    SessionView { mode: ModeView::BaudInput(Seq::empty()), baud_error: false, ..self }
                } else {
                    self
                },
                _ => self,
            },
            ModeView::Insert => if k is Esc {
                SessionView { mode: ModeView::Normal, cursor: Cursor::Normal, ..self }
            } else if is_data_key(k) && self.connected {
                SessionView { tx: pushed_chars(self.tx, key_bytes(k)), ..self }
            } else {
                self
            },
            ModeView::WannaQuit => if k is Esc || k == Key::Char('n') || k == Key::Char('q') {
                SessionView { mode: ModeView::Normal, ..self }
            } else {
                self
            },
            ModeView::BaudInput(buf) => match k {
                Key::Esc => SessionView { mode: ModeView::Normal, baud_error: false, ..self },
                Key::Char(c) => if is_digit(c) {
                    SessionView { mode: ModeView::BaudInput(buf.push(c)), baud_error: false, ..self }
                } else {
                    self
                },
                Key::Backspace => SessionView {
                    mode: ModeView::BaudInput(
                        if buf.len() > 0 {
                            buf.drop_last()
                        } else {
                            buf
                        },
                    ),
                    baud_error: false,
                    ..self
                },
                Key::Enter => if parse_baud(buf) is Some {
                    SessionView { mode: ModeView::Normal, baud_error: false, ..self }
                } else {
                    SessionView { baud_error: true, ..self }
                },
                _ => self,
            },
            ModeView::Config => self,
        }
    }

    /// The state after a data key whose `i`-th byte failed to go out: the
    /// bytes before it stay, that byte is taken back.
    pub open spec fn after_failed_send(self, k: Key, i: int) -> SessionView {
        SessionView {
            tx: failed_send(self.tx, key_bytes(k), i),
            ..self
        }
    }

    /// What handling key `k` may give: state `t` and result `r`. A key that
    /// needs no device has one outcome; one that does succeeds as
    /// `after_key` says, or fails with the state rolled back.
    pub open spec fn handled(self, k: Key, t: SessionView, r: Result<Control, ChannelError>) -> bool {
        if !self.uses_channel(k) {
            r == Ok::<Control, ChannelError>(self.control(k)) && t == self.after_key(k)
        } else {
            match r {
                Ok(c) => c == Control::Continue && t == self.after_key(k),
                Err(_) => if self.mode is Insert {
                    exists|i: int| 0 <= i < key_bytes(k).len() && t == #[trigger] self.after_failed_send(k, i)
                } else {
                    t == self
                },
            }
        }
    }
}

/// Reads a baud rate typed as decimal digits. Only digits are accepted: a
/// sign, which `str::parse` would take, is not, since the baud prompt only
/// ever holds digits.
pub fn parse_baud_rate(s: &str) -> (r: Option<u32>)
    ensures
        r == parse_baud(s@),
{
    let n = s.unicode_len();
    if n == 0 {
        return None;
    }
    let mut acc: u64 = 0;
    let mut i: usize = 0;
    while i < n
        invariant
            n == s@.len(),
            i <= n,
            acc <= u32::MAX,
            acc == decimal_value(s@.take(i as int)),
            forall|j: int| 0 <= j < i ==> is_digit(#[trigger] s@[j]),
        decreases n - i,
    {
        let c = s.get_char(i);
        if !('0' <= c && c <= '9') {
            return None;
        }
        let ghost before = s@.take(i as int);
        assert(s@.take(i + 1).drop_last() =~= before);
        acc = acc * 10 + ((c as u32) - 48) as u64;
        if acc > 0xFFFF_FFFFu64 {
            proof {
                if forall|j: int| 0 <= j < s@.len() ==> is_digit(#[trigger] s@[j]) {
                    lemma_decimal_grows(s@, i as int + 1);
                }
            }
            return None;
        }
        i += 1;
    }
    assert(s@.take(n as int) =~= s@);
    Some(acc as u32)
}

/// The value of a digit string is at least that of any prefix.
pub proof fn lemma_decimal_grows(s: Seq<char>, i: int)
    requires
        0 <= i <= s.len(),
        forall|j: int| 0 <= j < s.len() ==> is_digit(#[trigger] s[j]),
    ensures
        decimal_value(s) >= decimal_value(s.take(i)),
    decreases s.len() - i,
{
    if i < s.len() {
        let t = s.take(i + 1);
        assert(t.drop_last() =~= s.take(i));
        assert(t[i] == s[i]);
        lemma_decimal_grows(s, i + 1);
    } else {
        assert(s.take(i) =~= s);
    }
}

/// Whether a device operation failed because the device is gone.
pub open spec fn vanished<T>(r: Result<T, ChannelError>) -> bool {
    r matches Err(ChannelError::NotFound)
}

impl SessionView {
    /// The key step of a tick, with a vanished device taken as a
    /// disconnection rather than an error.
    pub open spec fn key_settled(self, key: Option<Key>, t: SessionView, r: Result<Control, ChannelError>) -> bool {
        match key {
            None => t == self && r == Ok::<Control, ChannelError>(Control::Continue),
            Some(k) => exists|mid: SessionView, kr: Result<Control, ChannelError>|
                #[trigger] self.handled(k, mid, kr) && if vanished(kr) {
                    t == (SessionView { connected: false, ..mid }) && r == Ok::<Control, ChannelError>(Control::Continue)
                } else {
                    t == mid && r == kr
                },
        }
    }

    /// The drain step of a tick, in which the device gave the bytes `got`.
    /// Without a device nothing happens. With one, the bytes read are
    /// appended, or a vanished device disconnects, or another failure
    /// leaves everything as it was.
    pub open spec fn drained(self, got: Seq<u8>, t: SessionView, r: Result<(), ChannelError>) -> bool {
        if !self.connected {
            t == self && r is Ok
        } else {
            match r {
                Ok(_) => t == self.with_rx(self.rx.pushed_bytes(got)) || t == (SessionView {
                    connected: false,
                    ..self
                }),
                Err(e) => !vanished(r) && t == self,
            }
        }
    }

    pub open spec fn with_rx(self, rx: TranscriptView) -> SessionView {
        SessionView { rx, ..self }
    }
}

/// From normal mode, `i` enters insert mode with the bar shown, and Esc
/// then returns to normal mode with the block cursor. Neither key touches
/// the device or ends the session.
pub proof fn lemma_insert_then_escape(s: SessionView)
    requires
        s.mode is Normal,
    ensures
        ({
            let i = Key::Char('i');
            let ins = s.after_key(i);
            let back = ins.after_key(Key::Esc);
            &&& !s.uses_channel(i) && s.control(i) == Control::Continue
            &&& ins.mode is Insert && ins.cursor == (Cursor::Insert { on: true, timer: 0 })
            &&& !ins.uses_channel(Key::Esc) && ins.control(Key::Esc) == Control::Continue
            &&& back.mode is Normal
            &&& back.cursor == Cursor::Normal
            &&& back.cursor.glyph() == crate::cursor::NORMAL_GLYPH
            &&& back.tx == s.tx && back.rx == s.rx
        }),
{
}

/// From normal mode, `q` asks whether to quit: `n` then returns to normal
/// mode and the session goes on, while `y` ends it.
pub proof fn lemma_quit_prompt(s: SessionView)
    requires
        s.mode is Normal,
    ensures
        ({
            let q = s.after_key(Key::Char('q'));
            &&& !s.uses_channel(Key::Char('q')) && s.control(Key::Char('q')) == Control::Continue
            &&& q.mode is WannaQuit
            &&& !q.uses_channel(Key::Char('n')) && q.control(Key::Char('n')) == Control::Continue
            &&& q.after_key(Key::Char('n')).mode is Normal
            &&& !q.uses_channel(Key::Char('y')) && q.control(Key::Char('y')) == Control::Exit
        }),
{
}

/// In ASCII, a one-byte character whose write fails leaves the outbound
/// transcript exactly as it was.
pub proof fn lemma_failed_ascii_send(s: SessionView, c: char)
    requires
        s.wf(),
        s.mode is Insert,
        !s.tx.hex(),
        (c as u32) < 0x80,
    ensures
        key_bytes(Key::Char(c)).len() == 1,
        s.after_failed_send(Key::Char(c), 0) == s,
{
    let b = key_bytes(Key::Char(c));
    assert(b.take(0) =~= Seq::<u8>::empty());
    let w = s.tx.pushed_char(b[0]);
    assert(w.raw.drop_last() =~= s.tx.raw);
    crate::screen::lemma_render_push(s.tx.raw, b[0], false);
    assert(w.text =~= render(s.tx.raw, false) + crate::codec::glyphs(b[0], false));
}

/// Takes a vanished device as a disconnection, so the session goes on;
/// any other result passes through.
pub fn is_connected(res: Result<Control, ChannelError>, connected: &mut bool) -> (r: Result<Control, ChannelError>)
    ensures
        vanished(res) ==> r == Ok::<Control, ChannelError>(Control::Continue) && !*final(connected),
        !vanished(res) ==> r == res && *final(connected) == *old(connected),
{
    match res {
        Err(ChannelError::NotFound) => {
            *connected = false;
            Ok(Control::Continue)
        },
        res => res,
    }
}

/// The bytes of a data key.
fn data_bytes(key: Key) -> (r: Vec<u8>)
    ensures
        r@ == key_bytes(key),
{
    match key {
        Key::Char(c) => encode_utf8(c),
        Key::Tab => vec![9u8],
        Key::Enter => vec![10u8],
        _ => Vec::new(),
    }
}

/// A session over device `C`.
pub struct App<C: ByteChannel> {
    pub serial: Channel<C>,
    pub tx: Tx,
    pub rx: Rx,
    pub mode: Mode,
    cursor: Cursor,
    connected: bool,
    baud_error: bool,
}

impl<C: ByteChannel> View for App<C> {
    type V = SessionView;

    closed spec fn view(&self) -> SessionView {
        SessionView {
            tx: self.tx.display@,
            lf_crlf: self.tx.lf_crlf,
            rx: self.rx.display@,
            mode: self.mode@,
            cursor: self.cursor,
            connected: self.connected,
            baud_error: self.baud_error,
        }
    }
}

impl<C: ByteChannel> App<C> {
    pub open spec fn wf(&self) -> bool {
        self@.wf()
    }

    /// The device.
    pub closed spec fn device(&self) -> Channel<C> {
        self.serial
    }

    /// A new session: both transcripts empty and in ASCII, in normal mode,
    /// connected.
    pub fn new(serial: C) -> (r: Self)
        ensures
            r.wf(),
            r.device().inner() == serial,
            r.device().written() == Seq::<u8>::empty(),
            r.device().read() == Seq::<u8>::empty(),
            r.device().rate_set() is None,
            r@.tx == crate::screen::Display::new_view(),
            r@.rx == crate::screen::Display::new_view(),
            !r@.lf_crlf,
            r@.mode is Normal,
            r@.cursor == Cursor::Normal,
            r@.connected,
            !r@.baud_error,
    {
        App {
            serial: Channel::new(serial),
            tx: Tx::new(),
            rx: Rx::new(),
            mode: Mode::Normal,
            cursor: Cursor::normal(),
            connected: true,
            baud_error: false,
        }
    }

    /// Whether the device is still there.
    pub fn is_connected(&self) -> (r: bool)
        ensures
            r == self@.connected,
    {
        self.connected
    }

    /// Whether the baud rate last entered could not be read.
    pub fn baud_error(&self) -> (r: bool)
        ensures
            r == self@.baud_error,
    {
        self.baud_error
    }

    pub fn enter_insert(&mut self)
        ensures
            final(self)@ == (SessionView {
                mode: ModeView::Insert,
                cursor: Cursor::Insert { on: true, timer: 0 },
                ..old(self)@
            }),
            final(self).device() == old(self).device(),
    {
        self.mode = Mode::Insert;
        self.cursor = Cursor::insert();
    }

    pub fn leave_insert(&mut self)
        ensures
            final(self)@ == (SessionView { mode: ModeView::Normal, cursor: Cursor::Normal, ..old(self)@ }),
            final(self).device() == old(self).device(),
    {
        self.mode = Mode::Normal;
        self.cursor = Cursor::normal();
    }

    /// The cursor glyph to draw.
    pub fn cursor(&self) -> (r: char)
        ensures
            r == self@.cursor.glyph(),
    {
        self.cursor.cursor()
    }

    /// Sends typed bytes one after another; the first failure stops the
    /// rest, with the failed byte taken back out of the transcript.
    fn send_bytes(&mut self, bytes: &Vec<u8>) -> (r: Result<(), ChannelError>)
        requires
            old(self).wf(),
        ensures
            final(self).wf(),
            r is Ok ==> final(self)@ == (SessionView { tx: pushed_chars(old(self)@.tx, bytes@), ..old(self)@ }),
            r is Ok ==> final(self).device().written() == old(self).device().written() + emitted_wire(
                old(self)@.tx,
                bytes@,
                old(self)@.lf_crlf,
            ),
            final(self).device().read() == old(self).device().read(),
            final(self).device().rate_set() == old(self).device().rate_set(),
            r is Err ==> exists|i: int|
                0 <= i < bytes@.len() && final(self)@ == (SessionView {
                    tx: #[trigger] failed_send(old(self)@.tx, bytes@, i),
                    ..old(self)@
                }),
    {
        let mut i: usize = 0;
        assert(bytes@.take(0) =~= Seq::<u8>::empty());
        while i < bytes.len()
            invariant
                i <= bytes@.len(),
                self.wf(),
                self@ == (SessionView { tx: pushed_chars(old(self)@.tx, bytes@.take(i as int)), ..old(self)@ }),
                self.serial.written() == old(self).serial.written() + emitted_wire(
                    old(self)@.tx,
                    bytes@.take(i as int),
                    old(self)@.lf_crlf,
                ),
                self.serial.read() == old(self).serial.read(),
                self.serial.rate_set() == old(self).serial.rate_set(),
            decreases bytes@.len() - i,
        {
            assert(bytes@.take(i + 1).drop_last() =~= bytes@.take(i as int));
            match self.tx.send(bytes[i], &mut self.serial) {
                Ok(()) => {},
                Err(e) => {
                    assert(self@ == (SessionView {
                        tx: failed_send(old(self)@.tx, bytes@, i as int),
                        ..old(self)@
                    }));
                    return Err(e);
                },
            }
            assert(self.serial.written() =~= old(self).serial.written() + emitted_wire(
                old(self)@.tx,
                bytes@.take(i + 1),
                old(self)@.lf_crlf,
            ));
            i += 1;
        }
        assert(bytes@.take(i as int) =~= bytes@);
        Ok(())
    }
    /// Handles one key in the current mode; see `SessionView::handled` for
    /// every outcome.
    pub fn handle_key(&mut self, key: Key) -> (r: Result<Control, ChannelError>)
        requires
            old(self).wf(),
        ensures
            final(self).wf(),
            old(self)@.handled(key, final(self)@, r),
            !old(self)@.uses_channel(key) ==> final(self).device() == old(self).device(),
            final(self).device().read() == old(self).device().read(),
            old(self)@.uses_channel(key) && old(self)@.mode is Insert ==> final(self).device().rate_set()
                == old(self).device().rate_set(),
            old(self)@.uses_channel(key) && old(self)@.mode is Insert && r is Ok ==> final(self).device().written() == old(self).device().written() + emitted_wire(
                old(self)@.tx,
                key_bytes(key),
                old(self)@.lf_crlf,
            ),
            old(self)@.uses_channel(key) && old(self)@.mode is BaudInput ==> final(self).device().written()
                == old(self).device().written(),
            old(self)@.uses_channel(key) && old(self)@.mode is BaudInput && r is Ok ==> final(self).device().rate_set() == parse_baud(old(self)@.mode->BaudInput_0),
    {
        if self.mode.is_insert() {
            match key {
                Key::Esc => self.leave_insert(),
                Key::Char(_) | Key::Tab | Key::Enter => {
                    if self.connected {
                        let bytes = data_bytes(key);
                        match self.send_bytes(&bytes) {
                            Ok(()) => {},
                            Err(e) => {
                                proof {
                                    let i = choose|i: int|
                                        0 <= i < bytes@.len() && self@ == (SessionView {
                                            tx: #[trigger] failed_send(old(self)@.tx, bytes@, i),
                                            ..old(self)@
                                        });
                                    assert(self@ == old(self)@.after_failed_send(key, i));
                                }
                                return Err(e);
                            },
                        }
                    }
                },
                _ => {},
            }
            Ok(Control::Continue)
        } else if self.mode.is_normal() {
            match key {
                Key::Esc => self.mode = Mode::WannaQuit,
                Key::Char(c) => {
                    if c == 'q' {
                        self.mode = Mode::WannaQuit;
                    } else if c == 'i' {
                        self.enter_insert();
                    } else if c == 'h' {
                        self.rx.display.switch_hex();
                    } else if c == 'H' {
                        self.tx.switch_hex();
                    } else if c == 'l' {
                        self.tx.lf_crlf = !self.tx.lf_crlf;
                    } else if c == 'c' {
                        self.rx.display.clear();
                    } else if c == 'C' {
                        self.tx.display.clear();
                    } else if c == 'b' {
                        self.mode = Mode::BaudInput(String::new());
                        self.baud_error = false;
                    }
                },
                _ => {},
            }
            Ok(Control::Continue)
        } else if self.mode.wanna_quit() {
            match key {
                Key::Esc => self.mode = Mode::Normal,
                Key::Char(c) => {
                    if c == 'n' || c == 'q' {
                        self.mode = Mode::Normal;
                    } else if c == 'y' {
                        return Ok(Control::Exit);
                    }
                },
                _ => {},
            }
            Ok(Control::Continue)
        } else if self.mode.is_config() {
            Ok(Control::Continue)
        } else {
            self.baud_key(key)
        }
    }

    /// A key while a baud rate is typed: digits are added, Backspace takes
    /// the last one off, Esc gives up. Enter applies a rate that parses and
    /// returns to normal mode; one that does not is flagged and kept.
    fn baud_key(&mut self, key: Key) -> (r: Result<Control, ChannelError>)
        requires
            old(self).wf(),
            old(self).mode is BaudInput,
        ensures
            final(self).wf(),
            old(self)@.handled(key, final(self)@, r),
            !old(self)@.uses_channel(key) ==> final(self).device() == old(self).device(),
            final(self).device().read() == old(self).device().read(),
            final(self).device().written() == old(self).device().written(),
            old(self)@.uses_channel(key) && r is Ok ==> final(self).device().rate_set() == parse_baud(
                old(self)@.mode->BaudInput_0,
            ),
    {
        match key {
            Key::Esc => {
                self.mode = Mode::Normal;
                self.baud_error = false;
            },
            Key::Char(c) => {
                if '0' <= c && c <= '9' {
                    if let Mode::BaudInput(buf) = &mut self.mode {
                        buf.push(c);
                    }
                    self.baud_error = false;
                }
            },
            Key::Backspace => {
                if let Mode::BaudInput(buf) = &mut self.mode {
                    buf.pop();
                }
                self.baud_error = false;
            },
            Key::Enter => {
                let parsed = match &self.mode {
                    Mode::BaudInput(buf) => parse_baud_rate(buf.as_str()),
                    _ => None,
                };
                match parsed {
                    None => {
                        self.baud_error = true;
                    },
                    Some(rate) => {
                        if self.connected {
                            match self.serial.set_baud_rate(rate) {
                                Ok(()) => {},
                                Err(e) => {
                                    return Err(e);
                                },
                            }
                        }
                        self.mode = Mode::Normal;
                        self.baud_error = false;
                    },
                }
            },
            _ => {},
        }
        Ok(Control::Continue)
    }

    /// One tick: the key, if any, is handled; then the bytes the device has
    /// ready are read and appended to the inbound transcript (`drained` is
    /// given every byte the device's read log gained in the tick); then the cursor blink
    /// advances by `elapsed` nanoseconds. A vanished device disconnects the
    /// session instead of failing it, and a disconnected session no longer
    /// uses its device. Any other device failure ends the tick with that
    /// error.
    pub fn update(&mut self, key: Option<Key>, elapsed: u64) -> (r: Result<Control, ChannelError>)
        requires
            old(self).wf(),
        ensures
            final(self).wf(),
            exists|mid: SessionView, kr: Result<Control, ChannelError>|
                #[trigger] old(self)@.key_settled(key, mid, kr) && match kr {
                    Err(_) => r == kr && final(self)@ == mid,
                    Ok(c) => exists|t: SessionView, dr: Result<(), ChannelError>|
                        #[trigger] mid.drained(
                            final(self).device().read().skip(old(self).device().read().len() as int),
                            t,
                            dr,
                        ) && match dr {
                            Err(e) => r == Err::<Control, ChannelError>(e) && final(self)@ == t,
                            Ok(_) => r == Ok::<Control, ChannelError>(c) && final(self)@ == (SessionView {
                                cursor: t.cursor.updated(key is Some, elapsed),
                                ..t
                            }),
                        },
                },
    {
        let ghost s0 = self@;
        let ghost r0 = self.serial.read();
        let mut ctl = Control::Continue;
        let mut key_pressed = false;
        if let Some(k) = key {
            let res = self.handle_key(k);
            let ghost kmid = self@;
            let ghost kr = res;
            let settled = is_connected(res, &mut self.connected);
            assert(s0.handled(k, kmid, kr));
            assert(s0.key_settled(key, self@, settled));
            match settled {
                Ok(c) => {
                    ctl = c;
                },
                Err(e) => {
                    return Err(e);
                },
            }
            key_pressed = true;
        }
        let ghost mid = self@;
        assert(s0.key_settled(key, mid, Ok::<Control, ChannelError>(ctl)));
        if self.connected {
            let res = match self.rx.recv(&mut self.serial) {
                Ok(()) => Ok(Control::Continue),
                Err(e) => Err(e),
            };
            let ghost got = self.serial.read().skip(r0.len() as int);
            proof {
                if res is Ok {
                    assert(self@ == mid.with_rx(mid.rx.pushed_bytes(got)));
                }
            }
            match is_connected(res, &mut self.connected) {
                Ok(_) => {},
                Err(e) => {
                    assert(mid.drained(got, self@, Err::<(), ChannelError>(e)));
                    assert(got == self.device().read().skip(old(self).device().read().len() as int));
                    return Err(e);
                },
            }
            assert(mid.drained(got, self@, Ok::<(), ChannelError>(())));
        } else {
            assert(mid.drained(self.serial.read().skip(r0.len() as int), self@, Ok::<(), ChannelError>(())));
        }
        let ghost t = self@;
        let ghost dev = self.device();
        assert(mid.drained(
            self.device().read().skip(old(self).device().read().len() as int),
            t,
            Ok::<(), ChannelError>(()),
        ));
        self.cursor.update(key_pressed, elapsed);
        assert(self.device() == dev);
        assert(self@ == (SessionView { cursor: t.cursor.updated(key is Some, elapsed), ..t }));
        Ok(ctl)
    }
}

} // verus!
