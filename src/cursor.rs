//! The cursor: a solid block outside insert mode, a blinking bar inside it.
use vstd::prelude::*;

verus! {

/// How long the bar stays in one state, in nanoseconds.
pub const BLINK_SPEED: u64 = 500_000_000;

/// The glyph of the cursor in insert mode, while it is shown.
pub const INSERT_GLYPH: char = '\u{258E}';

/// The glyph of the cursor outside insert mode.
pub const NORMAL_GLYPH: char = '\u{2589}';

#[derive(Debug, Clone, Copy, PartialEq, Eq, Structural)]
pub enum Cursor {
    /// Not editing: the block, always shown.
    Normal,
    /// Editing: the bar, shown while `on`; `timer` is the time in
    /// nanoseconds since it last changed.
    Insert { on: bool, timer: u64 },
}

/// `a + b`, or `u64::MAX` where that does not fit.
pub open spec fn add_capped(a: u64, b: u64) -> u64 {
    if a + b > u64::MAX {
        u64::MAX
    } else {
        (a + b) as u64
    }
}

/// While blinking with no keypress, the bar flips once the time gathered
/// since the last flip exceeds `BLINK_SPEED`, and what exceeds it carries
/// into the next period; until then it only gathers time. A keypress shows
/// the bar and restarts the count, whatever had gathered.
pub proof fn lemma_blink(on: bool, timer: u64, elapsed: u64)
    requires
        timer + elapsed <= u64::MAX,
    ensures
        timer + elapsed > BLINK_SPEED ==> (Cursor::Insert { on, timer }).updated(false, elapsed)
            == (Cursor::Insert { on: !on, timer: (timer + elapsed - BLINK_SPEED) as u64 }),
        timer + elapsed <= BLINK_SPEED ==> (Cursor::Insert { on, timer }).updated(false, elapsed)
            == (Cursor::Insert { on, timer: (timer + elapsed) as u64 }),
        (Cursor::Insert { on, timer }).updated(true, elapsed) == (Cursor::Insert { on: true, timer: 0 }),
{
}

impl Cursor {
    /// The state after one tick in which `elapsed` nanoseconds passed.
    pub open spec fn updated(self, key_pressed: bool, elapsed: u64) -> Cursor {
        match self {
            Cursor::Normal => Cursor::Normal,
            Cursor::Insert { on, timer } => if key_pressed {
                Cursor::Insert { on: true, timer: 0 }
            } else {
                let t = add_capped(timer, elapsed);
                if t > BLINK_SPEED {
                    Cursor::Insert { on: !on, timer: (t - BLINK_SPEED) as u64 }
                } else {
                    Cursor::Insert { on, timer: t }
                }
            },
        }
    }

    /// The glyph shown for this state.
    pub open spec fn glyph(self) -> char {
        match self {
            Cursor::Normal => NORMAL_GLYPH,
            Cursor::Insert { on: true, .. } => INSERT_GLYPH,
            Cursor::Insert { on: false, .. } => ' ',
        }
    }

    pub fn normal() -> (r: Self)
        ensures
            r == Cursor::Normal,
    {
        Cursor::Normal
    }

    /// Blinking starts shown, with no time elapsed.
    pub fn insert() -> (r: Self)
        ensures
            r == (Cursor::Insert { on: true, timer: 0 }),
    {
        Cursor::Insert { on: true, timer: 0 }
    }

    /// Advances the blink by one tick. A keypress shows the bar and restarts
    /// the timer; otherwise the elapsed time accumulates and, once it exceeds
    /// `BLINK_SPEED`, the bar flips and `BLINK_SPEED` is taken off, so the
    /// overshoot carries into the next period. Outside insert mode nothing
    /// changes.
    pub fn update(&mut self, key_pressed: bool, elapsed: u64)
        ensures
            *final(self) == old(self).updated(key_pressed, elapsed),
            *old(self) is Normal ==> *final(self) is Normal,
            *old(self) is Insert && key_pressed ==> *final(self) == (Cursor::Insert {
                on: true,
                timer: 0,
            }),
    {
        if let Cursor::Insert { on, timer } = self {
            if key_pressed {
                *on = true;
                *timer = 0;
                return ;
            }
            if elapsed > u64::MAX - *timer {
                *timer = u64::MAX;
            } else {
                *timer = *timer + elapsed;
            }
            if *timer > BLINK_SPEED {
                *on = !*on;
                *timer = *timer - BLINK_SPEED;
            }
        }
    }

    /// The glyph to draw at the end of the transcript.
    pub fn cursor(&self) -> (r: char)
        ensures
            r == self.glyph(),
    {
        match *self {
            Cursor::Normal => NORMAL_GLYPH,
            Cursor::Insert { on: true, .. } => INSERT_GLYPH,
            Cursor::Insert { on: false, .. } => ' ',
        }
    }
}

} // verus!
