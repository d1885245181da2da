use wl_keys::error::Error;
use wl_keys::keycode::{same_text, str_to_key, KEY_BACKSPACE, KEY_ENTER, KEY_SPACE};

#[test]
fn letters_have_the_codes_of_their_rows() {
    let top = ["q", "w", "e", "r", "t", "y", "u", "i", "o", "p"];
    for (i, name) in top.iter().enumerate() {
        assert_eq!(str_to_key(name), Ok(16 + i as u32));
    }
    let home = ["a", "s", "d", "f", "g", "h", "j", "k", "l"];
    for (i, name) in home.iter().enumerate() {
        assert_eq!(str_to_key(name), Ok(30 + i as u32));
    }
    let bottom = ["z", "x", "c", "v", "b", "n", "m"];
    for (i, name) in bottom.iter().enumerate() {
        assert_eq!(str_to_key(name), Ok(44 + i as u32));
    }
}

#[test]
fn digits_have_the_codes_of_the_number_row() {
    let row = ["1", "2", "3", "4", "5", "6", "7", "8", "9", "0"];
    for (i, name) in row.iter().enumerate() {
        assert_eq!(str_to_key(name), Ok(2 + i as u32));
    }
}

#[test]
fn named_keys_have_their_codes() {
    assert_eq!(str_to_key("ENTER"), Ok(28));
    assert_eq!(str_to_key("BACKSPACE"), Ok(14));
    assert_eq!(str_to_key("SPACE"), Ok(57));
    assert_eq!(KEY_ENTER, 28);
    assert_eq!(KEY_BACKSPACE, 14);
    assert_eq!(KEY_SPACE, 57);
}

#[test]
fn table_holds_thirty_nine_names() {
    let mut known = 0;
    for c in 0u8..128 {
        let name = (c as char).to_string();
        if str_to_key(&name).is_ok() {
            known += 1;
        }
    }
    assert_eq!(known, 36);
}

#[test]
fn unknown_names_are_refused_without_panic() {
    for name in ["", "A", "enter", "Enter", "ENTER ", "ab", "é", "-", " ", "SPACEBAR", "TAB", "10"] {
        assert_eq!(str_to_key(name), Err(Error::UnknownKey));
    }
}

#[test]
fn same_text_compares_by_characters() {
    assert!(same_text("", ""));
    assert!(same_text("eww", "eww"));
    assert!(same_text("héllo", "héllo"));
    assert!(!same_text("eww", "ew"));
    assert!(!same_text("eww", "ewx"));
    assert!(!same_text("é", "e"));
}
