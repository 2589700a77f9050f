//! Autoscroll: how many screen rows a transcript's text takes in a box, and
//! how far to scroll so that its end stays in view.
use vstd::prelude::*;
use vstd::string::StringSliceAdditionalSpecFns;

verus! {

/// The most rows counted; a scroll offset cannot go further.
pub const MAX_ROWS: u16 = 0xFFFF;

/// The rows that a line of `len` bytes takes in a box `width` columns wide:
/// one, and one more for each further `width` bytes. With no width nothing
/// wraps.
pub open spec fn line_rows(len: nat, width: nat) -> nat
    decreases len,
{
    if width == 0 || len <= width {
        1
    } else {
        1 + line_rows((len - width) as nat, width)
    }
}

/// Reading `b` from the start: the rows of the lines that a newline has
/// ended, and the length of the line begun after the last newline. A
/// carriage return just before a newline is not part of the line.
pub open spec fn scan(b: Seq<u8>, width: nat) -> (nat, nat)
    decreases b.len(),
{
    if b.len() == 0 {
        (0, 0)
    } else {
        let (rows, cur) = scan(b.drop_last(), width);
        if b.last() == 10 {
            let len: nat = if cur > 0 && b.drop_last().last() == 13 {
                (cur - 1) as nat
            } else {
                cur
            };
            (rows + line_rows(len, width), 0)
        } else {
            (rows, cur + 1)
        }
    }
}

/// The rows that text takes: those of each line, where a last line left
/// empty by a final newline is no line.
pub open spec fn text_rows(b: Seq<u8>, width: nat) -> nat {
    let (rows, cur) = scan(b, width);
    if cur > 0 {
        rows + line_rows(cur, width)
    } else {
        rows
    }
}

pub open spec fn capped(n: nat) -> nat {
    if n > MAX_ROWS {
        MAX_ROWS as nat
    } else {
        n
    }
}

/// The rows of one line, at most `MAX_ROWS`.
fn line_rows_capped(len: usize, width: u16) -> (r: u32)
    ensures
        r == capped(line_rows(len as nat, width as nat)),
{
    let mut rows: u32 = 1;
    let mut left: usize = len;
    while width > 0 && left > width as usize && rows < MAX_ROWS as u32
        invariant
            1 <= rows <= MAX_ROWS,
            left <= len,
            rows + line_rows(left as nat, width as nat) == 1 + line_rows(len as nat, width as nat),
        decreases left,
    {
        rows += 1;
        left -= width as usize;
    }
    proof {
        if rows >= MAX_ROWS && !(width == 0 || left <= width) {
            assert(line_rows(left as nat, width as nat) >= 1);
        }
    }
    rows
}

/// The rows that `s` takes in a box `width` columns wide, at most
/// `MAX_ROWS`.
pub fn rows(s: &str, width: u16) -> (r: u16)
    ensures
        r == capped(text_rows(s.spec_bytes(), width as nat)),
{
    let b = s.as_bytes();
    let mut total: u32 = 0;
    let mut cur: usize = 0;
    let mut i: usize = 0;
    while i < b.len()
        invariant
            i <= b@.len(),
            b@ == s.spec_bytes(),
            total <= MAX_ROWS,
            total == capped(scan(b@.take(i as int), width as nat).0),
            cur == scan(b@.take(i as int), width as nat).1,
            cur <= i,
            cur > 0 ==> b@.take(i as int).last() == b@[i - 1],
        decreases b@.len() - i,
    {
        assert(b@.take(i + 1).drop_last() =~= b@.take(i as int));
        if b[i] == 10 {
            let len = if cur > 0 && b[i - 1] == 13 {
                cur - 1
            } else {
                cur
            };
            let more = line_rows_capped(len, width);
            total = if total + more > MAX_ROWS as u32 {
                MAX_ROWS as u32
            } else {
                total + more
            };
            cur = 0;
        } else {
            cur += 1;
        }
        i += 1;
    }
    assert(b@.take(i as int) =~= b@);
    if cur > 0 {
        let more = line_rows_capped(cur, width);
        if total + more > MAX_ROWS as u32 {
            MAX_ROWS
        } else {
            (total + more) as u16
        }
    } else {
        total as u16
    }
}

/// How far to scroll text taking `rows(s, width)` rows so that its last
/// row is the last one of a box `height` rows high.
pub fn scroll_amount(s: &str, width: u16, height: u16) -> (r: u16)
    ensures
        ({
            let n = capped(text_rows(s.spec_bytes(), width as nat));
            r == if n > height {
                n - height
            } else {
                0
            }
        }),
{
    let lines = rows(s, width);
    if lines > height {
        lines - height
    } else {
        0
    }
}

} // verus!
