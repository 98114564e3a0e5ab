use game_25::controls::Controls;
use game_25::names::{map_file_coords, parse_room_key, room_key, room_name};
use game_25::strings::{before_char, replace_all, find_char, i32_to_string, parse_i32, same_text, split_once_char};
use game_25::text::{layout_text, Glyph};

#[test]
fn parse_accepts_plain_and_signed_numbers() {
    assert_eq!(parse_i32("42"), Some(42));
    assert_eq!(parse_i32("-7"), Some(-7));
    assert_eq!(parse_i32("+3"), Some(3));
    assert_eq!(parse_i32("007"), Some(7));
    assert_eq!(parse_i32("2147483647"), Some(i32::MAX));
    assert_eq!(parse_i32("-2147483648"), Some(i32::MIN));
}

#[test]
fn parse_refuses_what_std_refuses() {
    for s in ["", "-", "+", "2147483648", "-2147483649", "1a", " 1", "1 ", "--1", "+-1", "99999999999999"] {
        assert_eq!(parse_i32(s), s.parse::<i32>().ok(), "input {:?}", s);
        assert_eq!(parse_i32(s), None);
    }
}

#[test]
fn decimal_form_matches_to_string() {
    for x in [0, 5, 10, -1, -15, 123456, i32::MAX, i32::MIN] {
        assert_eq!(i32_to_string(x), x.to_string());
        assert_eq!(parse_i32(&i32_to_string(x)), Some(x));
    }
}

#[test]
fn searching_and_splitting() {
    assert_eq!(find_char("ab_c_d", '_'), Some(2));
    assert_eq!(find_char("abc", '_'), None);
    assert_eq!(split_once_char("a1_2_3", '_'), Some(("a1", "2_3")));
    assert_eq!(split_once_char("a1", '_'), None);
    assert_eq!(before_char("3.tmj", '.'), "3");
    assert_eq!(before_char("3", '.'), "3");
    assert!(same_text("solid", "solid"));
    assert!(!same_text("solid", "soli"));
}

#[test]
fn room_names_are_written_and_read_back() {
    assert_eq!(room_name("a1", 0, -2), "a1_0_-2");
    assert_eq!(room_key(3, -4), "3_-4");
    assert_eq!(parse_room_key("3_-4"), Some((3, -4)));
    assert_eq!(parse_room_key("3-4"), None);
    assert_eq!(parse_room_key("3_4_5"), None);
    let name = room_name("a2", -1, 7);
    let (area, key) = split_once_char(&name, '_').unwrap();
    assert_eq!(area, "a2");
    assert_eq!(parse_room_key(key), Some((-1, 7)));
}

#[test]
fn map_file_names_give_room_coordinates() {
    assert_eq!(map_file_coords("assets/maps/a1_2_3.tmj"), Some((2, 3)));
    assert_eq!(map_file_coords("assets/maps/a1_-1_0.tmj"), Some((-1, 0)));
    assert_eq!(map_file_coords("assets/maps/a1_2.tmj"), None);
    assert_eq!(map_file_coords("assets/maps/a1_x_3.tmj"), None);
    let path = format!("assets/maps/{}.tmj", room_name("b", 9, -9));
    assert_eq!(map_file_coords(&path), Some((9, -9)));
}

#[test]
fn text_layout_places_letters_and_breaks_lines() {
    let g = layout_text("ab\nc");
    assert_eq!(
        g,
        vec![
            Glyph { col: 0, row: 0, code: b'a' },
            Glyph { col: 1, row: 0, code: b'b' },
            Glyph { col: 0, row: 1, code: b'c' },
        ]
    );
    assert!(layout_text("").is_empty());
    assert_eq!(layout_text("\n\n").len(), 0);
    assert_eq!(layout_text("é")[0].code, 0xe9);
}

#[test]
fn replacing_every_occurrence() {
    assert_eq!(replace_all("Press KEY to open", "KEY", "Z"), "Press Z to open");
    assert_eq!(replace_all("KEYKEY", "KEY", "B"), "BB");
    assert_eq!(replace_all("aaa", "aa", "b"), "ba");
    assert_eq!(replace_all("", "KEY", "Z"), "");
    assert_eq!(replace_all("KE", "KEY", "Z"), "KE");
    let mut c = Controls::new();
    assert_eq!(c.hint_text("Press KEY"), "Press Z");
    c.update(Some(0), false);
    assert_eq!(c.hint_text("Press KEY"), "Press B");
}
