use rusty_player::cursor::Cursor;
use rusty_player::input::Command;
use rusty_player::menu::{menu_step, MenuOutcome};

#[test]
fn new_cursor_starts_on_first_entry() {
    let c = Cursor::new(3).unwrap();
    assert_eq!(c.index(), 0);
    assert_eq!(c.bound(), 3);
}

#[test]
fn no_cursor_over_an_empty_list() {
    assert_eq!(Cursor::new(0), None);
    assert_eq!(Cursor::at(0, 0), None);
}

#[test]
fn cursor_at_accepts_only_positions_of_the_list() {
    assert_eq!(Cursor::at(2, 3).unwrap().index(), 2);
    assert_eq!(Cursor::at(3, 3), None);
    assert_eq!(Cursor::at(7, 3), None);
}

#[test]
fn up_on_first_entry_stays() {
    let c = Cursor::new(4).unwrap();
    assert_eq!(c.up().index(), 0);
    assert_eq!(c.up().up().index(), 0);
    assert_eq!(c.up().bound(), 4);
}

#[test]
fn down_on_last_entry_stays() {
    let c = Cursor::at(3, 4).unwrap();
    assert_eq!(c.down().index(), 3);
    assert_eq!(c.down().down().index(), 3);
    assert_eq!(c.down().bound(), 4);
}

#[test]
fn cursor_moves_by_one_inside_the_list() {
    let c = Cursor::at(1, 4).unwrap();
    assert_eq!(c.up().index(), 0);
    assert_eq!(c.down().index(), 2);
    assert_eq!(c.down().down().up().index(), 2);
}

#[test]
fn single_entry_list_never_moves() {
    let c = Cursor::new(1).unwrap();
    assert_eq!(c.up().index(), 0);
    assert_eq!(c.down().index(), 0);
}

#[test]
fn cursor_stays_in_range_under_any_moves() {
    for bound in 1..6usize {
        for start in 0..bound {
            let mut c = Cursor::at(start, bound).unwrap();
            for step in 0..20usize {
                c = if step % 3 == 0 { c.up() } else { c.down() };
                assert!(c.index() < c.bound());
                assert_eq!(c.bound(), bound);
            }
        }
    }
}

#[test]
fn menu_step_moves_selects_cancels_and_quits() {
    let c = Cursor::at(1, 3).unwrap();
    assert_eq!(menu_step(c, Command::Up), MenuOutcome::Continue(Cursor::at(0, 3).unwrap()));
    assert_eq!(menu_step(c, Command::Down), MenuOutcome::Continue(Cursor::at(2, 3).unwrap()));
    assert_eq!(menu_step(c, Command::Select), MenuOutcome::Selected(1));
    assert_eq!(menu_step(c, Command::Back), MenuOutcome::Cancelled);
    assert_eq!(menu_step(c, Command::Quit), MenuOutcome::Quit);
}

#[test]
fn menu_step_ignores_pause() {
    let c = Cursor::at(2, 3).unwrap();
    assert_eq!(menu_step(c, Command::Pause), MenuOutcome::Continue(c));
}

#[test]
fn menu_step_clamps_at_both_ends() {
    let first = Cursor::new(2).unwrap();
    let last = Cursor::at(1, 2).unwrap();
    assert_eq!(menu_step(first, Command::Up), MenuOutcome::Continue(first));
    assert_eq!(menu_step(last, Command::Down), MenuOutcome::Continue(last));
}
