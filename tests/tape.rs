use trm_sim::{Direction, Tape};

#[test]
fn test_str_iter() {
    let s = String::from("0101");
    let mut iter = s.chars();
    assert_eq!(iter.next(), Some('0'));
    assert_eq!(iter.next(), Some('1'));
    assert_eq!(iter.next(), Some('0'));
    assert_eq!(iter.next(), Some('1'));
    assert_eq!(iter.next(), None);

    let s_unicode = String::from("\u{1F44D}\u{1F44D}\u{1F44D}\u{1F44D}");
    let mut iter_char = s_unicode.chars();
    let mut iter_byte = s_unicode.bytes();
    assert_eq!(iter_char.next(), Some('\u{1F44D}'));
    println!("{:?}", iter_char.next());
    assert_eq!(iter_byte.next(), Some(240));
    println!("{:?}", iter_byte.next());
}

#[test]
fn test_vec_range() {
    let vec1 = vec![1, 2, 3, 4, 5];
    let len = vec1.len();
    for i in 0..len {
        assert!(vec1.get(i).is_some());
    }
    let range = 0..len;
    for i in range {
        assert!(vec1.get(i).is_some());
    }
}

#[test]
fn test_tape_usage() {
    let mut tape = Tape::new("0101");
    assert_eq!(tape.len(), 4);
    assert_eq!(tape.head(), 0);
    assert_eq!(tape.offset(), 0);
    assert_eq!(tape.read(), Some('0'));
    assert_eq!(tape.cell(0), Some('0'));
    tape.write('1');
    assert_eq!(tape.read(), Some('1'));
    tape.move_left();
    assert_eq!(tape.read(), None);
    assert_eq!(tape.head(), 0);
    assert_eq!(tape.offset(), -1);

    let mut null_tape = Tape::new("");
    let mut null_tape2 = null_tape.clone();
    let mut null_tape3 = null_tape.clone();
    assert_eq!(null_tape.read(), None);
    null_tape.move_left();
    assert_eq!(null_tape.read(), None);
    assert_eq!(null_tape.head(), 0);
    assert_eq!(null_tape.offset(), -1);
    null_tape.move_right();
    assert_eq!(null_tape.read(), None);
    assert_eq!(null_tape.head(), 1);
    assert_eq!(null_tape.offset(), -1);
    null_tape.write('1');
    assert_eq!(null_tape.read(), Some('1'));
    assert_eq!(null_tape.head(), 1);
    assert_eq!(null_tape.offset(), -1);

    assert_eq!(null_tape2.read(), None);
    null_tape2.move_right();
    assert_eq!(null_tape2.read(), None);
    null_tape2.move_left();
    assert_eq!(null_tape2.read(), None);

    assert_eq!(null_tape3.read(), None);
    null_tape3.write('1');
    assert_eq!(null_tape3.read(), Some('1'));
    null_tape3.move_left();
    assert_eq!(null_tape3.read(), None);
    null_tape3.move_right();
    assert_eq!(null_tape3.read(), Some('1'));
}

#[test]
fn test_tape_freeze() {
    let tape = Tape::new(" 0101 ");
    let frozen = tape.freeze(' ');
    assert_eq!(frozen.tape, " 0101");
    assert_eq!(frozen.head, 0);
    assert_eq!(frozen.range, 0..5);

    let tape2 = Tape::new("");
    let frozen2 = tape2.freeze(' ');
    println!("{:#?}", frozen2);
}

#[test]
fn fresh_tape_freezes_to_its_text() {
    let frozen = Tape::new("abc").freeze('_');
    assert_eq!(frozen.tape, "abc");
    assert_eq!(frozen.head, 0);
    assert_eq!(frozen.range, 0..3);
}

#[test]
fn empty_input_gives_one_blank_cell() {
    let tape = Tape::new("");
    assert_eq!(tape.len(), 1);
    assert_eq!(tape.read(), None);
    let frozen = tape.freeze('_');
    assert_eq!(frozen.tape, "");
    assert_eq!(frozen.head, 0);
    assert_eq!(frozen.range, 0..1);
}

#[test]
fn move_left_at_the_edge_keeps_symbols() {
    let mut tape = Tape::new("ab");
    tape.move_left();
    tape.move_left();
    assert_eq!(tape.offset(), -2);
    tape.write('z');
    let frozen = tape.freeze('_');
    assert_eq!(frozen.tape, "z_ab");
    assert_eq!(frozen.head, -2);
    assert_eq!(frozen.range, -2..2);
    assert_eq!(tape.cell(2), Some('a'));
    assert_eq!(tape.cell(3), Some('b'));
}

#[test]
fn freeze_shows_blank_cells_as_the_blank_char() {
    let mut tape = Tape::new("a");
    tape.move_right();
    tape.move_right();
    tape.write('b');
    tape.move_left();
    let frozen = tape.freeze('_');
    assert_eq!(frozen.tape, "a_b");
    assert_eq!(frozen.head, 1);
    assert_eq!(frozen.range, 0..3);

    let marked_blank = Tape::new("__x__").freeze('_');
    assert_eq!(marked_blank.tape, "__x");
    assert_eq!(marked_blank.range, 0..3);
}

#[test]
fn write_blank_clears_the_cell() {
    let mut tape = Tape::new("01");
    tape.write_blank();
    assert_eq!(tape.read(), None);
    assert_eq!(tape.len(), 2);
}

#[test]
fn move_to_follows_the_direction() {
    let mut tape = Tape::new("xy");
    tape.move_to(Direction::Right);
    assert_eq!(tape.read(), Some('y'));
    tape.move_to(Direction::Stay);
    assert_eq!(tape.read(), Some('y'));
    tape.move_to(Direction::Left);
    assert_eq!(tape.read(), Some('x'));
    tape.move_to(Direction::Left);
    assert_eq!(tape.read(), None);
    assert_eq!(tape.offset(), -1);
}

#[test]
fn tape_holding_only_the_blank_char_freezes_to_empty_text() {
    let frozen = Tape::new("__").freeze('_');
    assert_eq!(frozen.tape, "");
    assert_eq!(frozen.head, 0);
    assert_eq!(frozen.range, 0..1);
}
