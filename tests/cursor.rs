use tuicom::cursor::{Cursor, BLINK_SPEED, INSERT_GLYPH, NORMAL_GLYPH};

const MS: u64 = 1_000_000;

#[test]
fn normal_cursor_is_the_block() {
    let mut c = Cursor::normal();
    assert_eq!(c.cursor(), NORMAL_GLYPH);
    c.update(false, 2000 * MS);
    assert_eq!(c, Cursor::Normal);
}

#[test]
fn insert_cursor_starts_shown() {
    let c = Cursor::insert();
    assert_eq!(c, Cursor::Insert { on: true, timer: 0 });
    assert_eq!(c.cursor(), INSERT_GLYPH);
}

#[test]
fn blink_toggles_after_each_half_second_with_carry() {
    let mut c = Cursor::insert();
    c.update(false, 300 * MS);
    assert_eq!(c, Cursor::Insert { on: true, timer: 300 * MS });
    c.update(false, 300 * MS);
    assert_eq!(c, Cursor::Insert { on: false, timer: 100 * MS });
    assert_eq!(c.cursor(), ' ');
    c.update(false, 401 * MS);
    assert_eq!(c, Cursor::Insert { on: true, timer: 1 * MS });
}

#[test]
fn blink_needs_more_than_the_period() {
    let mut c = Cursor::insert();
    c.update(false, BLINK_SPEED);
    assert_eq!(c, Cursor::Insert { on: true, timer: BLINK_SPEED });
    c.update(false, 1);
    assert_eq!(c, Cursor::Insert { on: false, timer: 1 });
}

#[test]
fn keypress_shows_bar_and_resets_timer() {
    let mut c = Cursor::Insert { on: false, timer: 499 * MS };
    c.update(true, 900 * MS);
    assert_eq!(c, Cursor::Insert { on: true, timer: 0 });
}

#[test]
fn huge_elapsed_time_saturates() {
    let mut c = Cursor::Insert { on: true, timer: 10 };
    c.update(false, u64::MAX);
    assert_eq!(c, Cursor::Insert { on: false, timer: u64::MAX - BLINK_SPEED });
}
