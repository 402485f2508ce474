//! Fixed placements for well-known key names.
//!
//! Some applications expect conventional scan codes for common characters and
//! functions. Bin 0 holds the unshifted glyphs and named keys, bin 1 the shifted
//! glyph that shares its key with an unshifted one.
use vstd::prelude::*;
use crate::keyboard::KeyCode;
use crate::keycodes::{
    KEYCODE_OFFSET,
    KEY_0,
    KEY_1,
    KEY_2,
    KEY_3,
    KEY_4,
    KEY_5,
    KEY_6,
    KEY_7,
    KEY_8,
    KEY_9,
    KEY_A,
    KEY_APOSTROPHE,
    KEY_B,
    KEY_BACKSLASH,
    KEY_BACKSPACE,
    KEY_C,
    KEY_COMMA,
    KEY_D,
    KEY_DELETE,
    KEY_DOT,
    KEY_DOWN,
    KEY_E,
    KEY_END,
    KEY_ENTER,
    KEY_EQUAL,
    KEY_ESC,
    KEY_F,
    KEY_F1,
    KEY_F10,
    KEY_F11,
    KEY_F12,
    KEY_F2,
    KEY_F3,
    KEY_F4,
    KEY_F5,
    KEY_F6,
    KEY_F7,
    KEY_F8,
    KEY_F9,
    KEY_G,
    KEY_GRAVE,
    KEY_H,
    KEY_HOME,
    KEY_I,
    KEY_INSERT,
    KEY_J,
    KEY_K,
    KEY_L,
    KEY_LEFT,
    KEY_LEFTBRACE,
    KEY_M,
    KEY_MENU,
    KEY_MINUS,
    KEY_N,
    KEY_O,
    KEY_P,
    KEY_PAGEDOWN,
    KEY_PAGEUP,
    KEY_PAUSE,
    KEY_Q,
    KEY_R,
    KEY_RIGHT,
    KEY_RIGHTBRACE,
    KEY_S,
    KEY_SEMICOLON,
    KEY_SLASH,
    KEY_SPACE,
    KEY_T,
    KEY_TAB,
    KEY_U,
    KEY_UP,
    KEY_V,
    KEY_W,
    KEY_X,
    KEY_Y,
    KEY_Z,
};

verus! {

/// The keycode of the evdev key `key` in bin `bin`.
pub open spec fn placed(key: u32, bin: usize) -> KeyCode {
    KeyCode { code: (key + KEYCODE_OFFSET) as u32, keymap_idx: bin }
}

/// Names placed in bin 0, with their keycodes.
pub open spec fn base_placements() -> Seq<(Seq<char>, KeyCode)> {
    seq![
        ("Escape"@, placed(KEY_ESC, 0)),
        ("1"@, placed(KEY_1, 0)),
        ("2"@, placed(KEY_2, 0)),
        ("3"@, placed(KEY_3, 0)),
        ("4"@, placed(KEY_4, 0)),
        ("5"@, placed(KEY_5, 0)),
        ("6"@, placed(KEY_6, 0)),
        ("7"@, placed(KEY_7, 0)),
        ("8"@, placed(KEY_8, 0)),
        ("9"@, placed(KEY_9, 0)),
        ("0"@, placed(KEY_0, 0)),
        ("U002D"@, placed(KEY_MINUS, 0)),
        ("U003D"@, placed(KEY_EQUAL, 0)),
        ("BackSpace"@, placed(KEY_BACKSPACE, 0)),
        ("Tab"@, placed(KEY_TAB, 0)),
        ("q"@, placed(KEY_Q, 0)),
        ("w"@, placed(KEY_W, 0)),
        ("e"@, placed(KEY_E, 0)),
        ("r"@, placed(KEY_R, 0)),
        ("t"@, placed(KEY_T, 0)),
        ("y"@, placed(KEY_Y, 0)),
        ("u"@, placed(KEY_U, 0)),
        ("i"@, placed(KEY_I, 0)),
        ("o"@, placed(KEY_O, 0)),
        ("p"@, placed(KEY_P, 0)),
        ("U005B"@, placed(KEY_LEFTBRACE, 0)),
        ("U005D"@, placed(KEY_RIGHTBRACE, 0)),
        ("Return"@, placed(KEY_ENTER, 0)),
        ("a"@, placed(KEY_A, 0)),
        ("s"@, placed(KEY_S, 0)),
        ("d"@, placed(KEY_D, 0)),
        ("f"@, placed(KEY_F, 0)),
        ("g"@, placed(KEY_G, 0)),
        ("h"@, placed(KEY_H, 0)),
        ("j"@, placed(KEY_J, 0)),
        ("k"@, placed(KEY_K, 0)),
        ("l"@, placed(KEY_L, 0)),
        ("U003B"@, placed(KEY_SEMICOLON, 0)),
        ("U0027"@, placed(KEY_APOSTROPHE, 0)),
        ("U00B4"@, placed(KEY_GRAVE, 0)),
        ("U005C"@, placed(KEY_BACKSLASH, 0)),
        ("z"@, placed(KEY_Z, 0)),
        ("x"@, placed(KEY_X, 0)),
        ("c"@, placed(KEY_C, 0)),
        ("v"@, placed(KEY_V, 0)),
        ("b"@, placed(KEY_B, 0)),
        ("n"@, placed(KEY_N, 0)),
        ("m"@, placed(KEY_M, 0)),
        ("U002C"@, placed(KEY_COMMA, 0)),
        ("U002E"@, placed(KEY_DOT, 0)),
        ("U002F"@, placed(KEY_SLASH, 0)),
        ("U0020"@, placed(KEY_SPACE, 0)),
        ("F1"@, placed(KEY_F1, 0)),
        ("F2"@, placed(KEY_F2, 0)),
        ("F3"@, placed(KEY_F3, 0)),
        ("F4"@, placed(KEY_F4, 0)),
        ("F5"@, placed(KEY_F5, 0)),
        ("F6"@, placed(KEY_F6, 0)),
        ("F7"@, placed(KEY_F7, 0)),
        ("F8"@, placed(KEY_F8, 0)),
        ("F9"@, placed(KEY_F9, 0)),
        ("F10"@, placed(KEY_F10, 0)),
        ("F11"@, placed(KEY_F11, 0)),
        ("F12"@, placed(KEY_F12, 0)),
        ("Home"@, placed(KEY_HOME, 0)),
        ("Up"@, placed(KEY_UP, 0)),
        ("Page_Up"@, placed(KEY_PAGEUP, 0)),
        ("Left"@, placed(KEY_LEFT, 0)),
        ("Right"@, placed(KEY_RIGHT, 0)),
        ("End"@, placed(KEY_END, 0)),
        ("Down"@, placed(KEY_DOWN, 0)),
        ("Page_Down"@, placed(KEY_PAGEDOWN, 0)),
        ("Insert"@, placed(KEY_INSERT, 0)),
        ("Delete"@, placed(KEY_DELETE, 0)),
        ("Pause"@, placed(KEY_PAUSE, 0)),
        ("Menu"@, placed(KEY_MENU, 0))
    ]
}

/// Names placed in bin 1, each on the key of its unshifted counterpart.
pub open spec fn shifted_placements() -> Seq<(Seq<char>, KeyCode)> {
    seq![
        ("U0021"@, placed(KEY_1, 1)),
        ("U0040"@, placed(KEY_2, 1)),
        ("U0023"@, placed(KEY_3, 1)),
        ("U0024"@, placed(KEY_4, 1)),
        ("U0025"@, placed(KEY_5, 1)),
        ("U005E"@, placed(KEY_6, 1)),
        ("U0026"@, placed(KEY_7, 1)),
        ("U002A"@, placed(KEY_8, 1)),
        ("U0028"@, placed(KEY_9, 1)),
        ("U0029"@, placed(KEY_0, 1)),
        ("U005F"@, placed(KEY_MINUS, 1)),
        ("U002B"@, placed(KEY_EQUAL, 1)),
        ("Q"@, placed(KEY_Q, 1)),
        ("W"@, placed(KEY_W, 1)),
        ("E"@, placed(KEY_E, 1)),
        ("R"@, placed(KEY_R, 1)),
        ("T"@, placed(KEY_T, 1)),
        ("Y"@, placed(KEY_Y, 1)),
        ("U"@, placed(KEY_U, 1)),
        ("I"@, placed(KEY_I, 1)),
        ("O"@, placed(KEY_O, 1)),
        ("P"@, placed(KEY_P, 1)),
        ("U007B"@, placed(KEY_LEFTBRACE, 1)),
        ("U007D"@, placed(KEY_RIGHTBRACE, 1)),
        ("A"@, placed(KEY_A, 1)),
        ("S"@, placed(KEY_S, 1)),
        ("D"@, placed(KEY_D, 1)),
        ("F"@, placed(KEY_F, 1)),
        ("G"@, placed(KEY_G, 1)),
        ("H"@, placed(KEY_H, 1)),
        ("J"@, placed(KEY_J, 1)),
        ("K"@, placed(KEY_K, 1)),
        ("L"@, placed(KEY_L, 1)),
        ("U003A"@, placed(KEY_SEMICOLON, 1)),
        ("U0022"@, placed(KEY_APOSTROPHE, 1)),
        ("U007E"@, placed(KEY_GRAVE, 1)),
        ("U007C"@, placed(KEY_BACKSLASH, 1)),
        ("Z"@, placed(KEY_Z, 1)),
        ("X"@, placed(KEY_X, 1)),
        ("C"@, placed(KEY_C, 1)),
        ("V"@, placed(KEY_V, 1)),
        ("B"@, placed(KEY_B, 1)),
        ("N"@, placed(KEY_N, 1)),
        ("M"@, placed(KEY_M, 1)),
        ("U003C"@, placed(KEY_COMMA, 1)),
        ("U003E"@, placed(KEY_DOT, 1)),
        ("U003F"@, placed(KEY_SLASH, 1))
    ]
}

/// All fixed placements.
pub open spec fn placements() -> Seq<(Seq<char>, KeyCode)> {
    base_placements() + shifted_placements()
}

/// The views of a table of names and keycodes.
pub open spec fn entries_view(t: Seq<(String, KeyCode)>) -> Seq<(Seq<char>, KeyCode)> {
    t.map_values(|e: (String, KeyCode)| (e.0@, e.1))
}

fn base_table() -> (t: Vec<(String, KeyCode)>)
    ensures
        entries_view(t@) == base_placements(),
{
    let mut t: Vec<(String, KeyCode)> = Vec::new();
    t.push((String::from_str("Escape"), KeyCode { code: KEY_ESC + KEYCODE_OFFSET, keymap_idx: 0 }));
    t.push((String::from_str("1"), KeyCode { code: KEY_1 + KEYCODE_OFFSET, keymap_idx: 0 }));
    t.push((String::from_str("2"), KeyCode { code: KEY_2 + KEYCODE_OFFSET, keymap_idx: 0 }));
    t.push((String::from_str("3"), KeyCode { code: KEY_3 + KEYCODE_OFFSET, keymap_idx: 0 }));
    t.push((String::from_str("4"), KeyCode { code: KEY_4 + KEYCODE_OFFSET, keymap_idx: 0 }));
    t.push((String::from_str("5"), KeyCode { code: KEY_5 + KEYCODE_OFFSET, keymap_idx: 0 }));
    t.push((String::from_str("6"), KeyCode { code: KEY_6 + KEYCODE_OFFSET, keymap_idx: 0 }));
    t.push((String::from_str("7"), KeyCode { code: KEY_7 + KEYCODE_OFFSET, keymap_idx: 0 }));
    t.push((String::from_str("8"), KeyCode { code: KEY_8 + KEYCODE_OFFSET, keymap_idx: 0 }));
    t.push((String::from_str("9"), KeyCode { code: KEY_9 + KEYCODE_OFFSET, keymap_idx: 0 }));
    t.push((String::from_str("0"), KeyCode { code: KEY_0 + KEYCODE_OFFSET, keymap_idx: 0 }));
    t.push((String::from_str("U002D"), KeyCode { code: KEY_MINUS + KEYCODE_OFFSET, keymap_idx: 0 }));
    t.push((String::from_str("U003D"), KeyCode { code: KEY_EQUAL + KEYCODE_OFFSET, keymap_idx: 0 }));
    t.push((String::from_str("BackSpace"), KeyCode { code: KEY_BACKSPACE + KEYCODE_OFFSET, keymap_idx: 0 }));
    t.push((String::from_str("Tab"), KeyCode { code: KEY_TAB + KEYCODE_OFFSET, keymap_idx: 0 }));
    t.push((String::from_str("q"), KeyCode { code: KEY_Q + KEYCODE_OFFSET, keymap_idx: 0 }));
    t.push((String::from_str("w"), KeyCode { code: KEY_W + KEYCODE_OFFSET, keymap_idx: 0 }));
    t.push((String::from_str("e"), KeyCode { code: KEY_E + KEYCODE_OFFSET, keymap_idx: 0 }));
    t.push((String::from_str("r"), KeyCode { code: KEY_R + KEYCODE_OFFSET, keymap_idx: 0 }));
    t.push((String::from_str("t"), KeyCode { code: KEY_T + KEYCODE_OFFSET, keymap_idx: 0 }));
    t.push((String::from_str("y"), KeyCode { code: KEY_Y + KEYCODE_OFFSET, keymap_idx: 0 }));
    t.push((String::from_str("u"), KeyCode { code: KEY_U + KEYCODE_OFFSET, keymap_idx: 0 }));
    t.push((String::from_str("i"), KeyCode { code: KEY_I + KEYCODE_OFFSET, keymap_idx: 0 }));
    t.push((String::from_str("o"), KeyCode { code: KEY_O + KEYCODE_OFFSET, keymap_idx: 0 }));
    t.push((String::from_str("p"), KeyCode { code: KEY_P + KEYCODE_OFFSET, keymap_idx: 0 }));
    t.push((String::from_str("U005B"), KeyCode { code: KEY_LEFTBRACE + KEYCODE_OFFSET, keymap_idx: 0 }));
    t.push((String::from_str("U005D"), KeyCode { code: KEY_RIGHTBRACE + KEYCODE_OFFSET, keymap_idx: 0 }));
    t.push((String::from_str("Return"), KeyCode { code: KEY_ENTER + KEYCODE_OFFSET, keymap_idx: 0 }));
    t.push((String::from_str("a"), KeyCode { code: KEY_A + KEYCODE_OFFSET, keymap_idx: 0 }));
    t.push((String::from_str("s"), KeyCode { code: KEY_S + KEYCODE_OFFSET, keymap_idx: 0 }));
    t.push((String::from_str("d"), KeyCode { code: KEY_D + KEYCODE_OFFSET, keymap_idx: 0 }));
    t.push((String::from_str("f"), KeyCode { code: KEY_F + KEYCODE_OFFSET, keymap_idx: 0 }));
    t.push((String::from_str("g"), KeyCode { code: KEY_G + KEYCODE_OFFSET, keymap_idx: 0 }));
    t.push((String::from_str("h"), KeyCode { code: KEY_H + KEYCODE_OFFSET, keymap_idx: 0 }));
    t.push((String::from_str("j"), KeyCode { code: KEY_J + KEYCODE_OFFSET, keymap_idx: 0 }));
    t.push((String::from_str("k"), KeyCode { code: KEY_K + KEYCODE_OFFSET, keymap_idx: 0 }));
    t.push((String::from_str("l"), KeyCode { code: KEY_L + KEYCODE_OFFSET, keymap_idx: 0 }));
    t.push((String::from_str("U003B"), KeyCode { code: KEY_SEMICOLON + KEYCODE_OFFSET, keymap_idx: 0 }));
    t.push((String::from_str("U0027"), KeyCode { code: KEY_APOSTROPHE + KEYCODE_OFFSET, keymap_idx: 0 }));
    t.push((String::from_str("U00B4"), KeyCode { code: KEY_GRAVE + KEYCODE_OFFSET, keymap_idx: 0 }));
    t.push((String::from_str("U005C"), KeyCode { code: KEY_BACKSLASH + KEYCODE_OFFSET, keymap_idx: 0 }));
    t.push((String::from_str("z"), KeyCode { code: KEY_Z + KEYCODE_OFFSET, keymap_idx: 0 }));
    t.push((String::from_str("x"), KeyCode { code: KEY_X + KEYCODE_OFFSET, keymap_idx: 0 }));
    t.push((String::from_str("c"), KeyCode { code: KEY_C + KEYCODE_OFFSET, keymap_idx: 0 }));
    t.push((String::from_str("v"), KeyCode { code: KEY_V + KEYCODE_OFFSET, keymap_idx: 0 }));
    t.push((String::from_str("b"), KeyCode { code: KEY_B + KEYCODE_OFFSET, keymap_idx: 0 }));
    t.push((String::from_str("n"), KeyCode { code: KEY_N + KEYCODE_OFFSET, keymap_idx: 0 }));
    t.push((String::from_str("m"), KeyCode { code: KEY_M + KEYCODE_OFFSET, keymap_idx: 0 }));
    t.push((String::from_str("U002C"), KeyCode { code: KEY_COMMA + KEYCODE_OFFSET, keymap_idx: 0 }));
    t.push((String::from_str("U002E"), KeyCode { code: KEY_DOT + KEYCODE_OFFSET, keymap_idx: 0 }));
    t.push((String::from_str("U002F"), KeyCode { code: KEY_SLASH + KEYCODE_OFFSET, keymap_idx: 0 }));
    t.push((String::from_str("U0020"), KeyCode { code: KEY_SPACE + KEYCODE_OFFSET, keymap_idx: 0 }));
    t.push((String::from_str("F1"), KeyCode { code: KEY_F1 + KEYCODE_OFFSET, keymap_idx: 0 }));
    t.push((String::from_str("F2"), KeyCode { code: KEY_F2 + KEYCODE_OFFSET, keymap_idx: 0 }));
    t.push((String::from_str("F3"), KeyCode { code: KEY_F3 + KEYCODE_OFFSET, keymap_idx: 0 }));
    t.push((String::from_str("F4"), KeyCode { code: KEY_F4 + KEYCODE_OFFSET, keymap_idx: 0 }));
    t.push((String::from_str("F5"), KeyCode { code: KEY_F5 + KEYCODE_OFFSET, keymap_idx: 0 }));
    t.push((String::from_str("F6"), KeyCode { code: KEY_F6 + KEYCODE_OFFSET, keymap_idx: 0 }));
    t.push((String::from_str("F7"), KeyCode { code: KEY_F7 + KEYCODE_OFFSET, keymap_idx: 0 }));
    t.push((String::from_str("F8"), KeyCode { code: KEY_F8 + KEYCODE_OFFSET, keymap_idx: 0 }));
    t.push((String::from_str("F9"), KeyCode { code: KEY_F9 + KEYCODE_OFFSET, keymap_idx: 0 }));
    t.push((String::from_str("F10"), KeyCode { code: KEY_F10 + KEYCODE_OFFSET, keymap_idx: 0 }));
    t.push((String::from_str("F11"), KeyCode { code: KEY_F11 + KEYCODE_OFFSET, keymap_idx: 0 }));
    t.push((String::from_str("F12"), KeyCode { code: KEY_F12 + KEYCODE_OFFSET, keymap_idx: 0 }));
    t.push((String::from_str("Home"), KeyCode { code: KEY_HOME + KEYCODE_OFFSET, keymap_idx: 0 }));
    t.push((String::from_str("Up"), KeyCode { code: KEY_UP + KEYCODE_OFFSET, keymap_idx: 0 }));
    t.push((String::from_str("Page_Up"), KeyCode { code: KEY_PAGEUP + KEYCODE_OFFSET, keymap_idx: 0 }));
    t.push((String::from_str("Left"), KeyCode { code: KEY_LEFT + KEYCODE_OFFSET, keymap_idx: 0 }));
    t.push((String::from_str("Right"), KeyCode { code: KEY_RIGHT + KEYCODE_OFFSET, keymap_idx: 0 }));
    t.push((String::from_str("End"), KeyCode { code: KEY_END + KEYCODE_OFFSET, keymap_idx: 0 }));
    t.push((String::from_str("Down"), KeyCode { code: KEY_DOWN + KEYCODE_OFFSET, keymap_idx: 0 }));
    t.push((String::from_str("Page_Down"), KeyCode { code: KEY_PAGEDOWN + KEYCODE_OFFSET, keymap_idx: 0 }));
    t.push((String::from_str("Insert"), KeyCode { code: KEY_INSERT + KEYCODE_OFFSET, keymap_idx: 0 }));
    t.push((String::from_str("Delete"), KeyCode { code: KEY_DELETE + KEYCODE_OFFSET, keymap_idx: 0 }));
    t.push((String::from_str("Pause"), KeyCode { code: KEY_PAUSE + KEYCODE_OFFSET, keymap_idx: 0 }));
    t.push((String::from_str("Menu"), KeyCode { code: KEY_MENU + KEYCODE_OFFSET, keymap_idx: 0 }));
    assert(entries_view(t@) =~= base_placements());
    t
}

fn shifted_table() -> (t: Vec<(String, KeyCode)>)
    ensures
        entries_view(t@) == shifted_placements(),
{
    let mut t: Vec<(String, KeyCode)> = Vec::new();
    t.push((String::from_str("U0021"), KeyCode { code: KEY_1 + KEYCODE_OFFSET, keymap_idx: 1 }));
    t.push((String::from_str("U0040"), KeyCode { code: KEY_2 + KEYCODE_OFFSET, keymap_idx: 1 }));
    t.push((String::from_str("U0023"), KeyCode { code: KEY_3 + KEYCODE_OFFSET, keymap_idx: 1 }));
    t.push((String::from_str("U0024"), KeyCode { code: KEY_4 + KEYCODE_OFFSET, keymap_idx: 1 }));
    t.push((String::from_str("U0025"), KeyCode { code: KEY_5 + KEYCODE_OFFSET, keymap_idx: 1 }));
    t.push((String::from_str("U005E"), KeyCode { code: KEY_6 + KEYCODE_OFFSET, keymap_idx: 1 }));
    t.push((String::from_str("U0026"), KeyCode { code: KEY_7 + KEYCODE_OFFSET, keymap_idx: 1 }));
    t.push((String::from_str("U002A"), KeyCode { code: KEY_8 + KEYCODE_OFFSET, keymap_idx: 1 }));
    t.push((String::from_str("U0028"), KeyCode { code: KEY_9 + KEYCODE_OFFSET, keymap_idx: 1 }));
    t.push((String::from_str("U0029"), KeyCode { code: KEY_0 + KEYCODE_OFFSET, keymap_idx: 1 }));
    t.push((String::from_str("U005F"), KeyCode { code: KEY_MINUS + KEYCODE_OFFSET, keymap_idx: 1 }));
    t.push((String::from_str("U002B"), KeyCode { code: KEY_EQUAL + KEYCODE_OFFSET, keymap_idx: 1 }));
    t.push((String::from_str("Q"), KeyCode { code: KEY_Q + KEYCODE_OFFSET, keymap_idx: 1 }));
    t.push((String::from_str("W"), KeyCode { code: KEY_W + KEYCODE_OFFSET, keymap_idx: 1 }));
    t.push((String::from_str("E"), KeyCode { code: KEY_E + KEYCODE_OFFSET, keymap_idx: 1 }));
    t.push((String::from_str("R"), KeyCode { code: KEY_R + KEYCODE_OFFSET, keymap_idx: 1 }));
    t.push((String::from_str("T"), KeyCode { code: KEY_T + KEYCODE_OFFSET, keymap_idx: 1 }));
    t.push((String::from_str("Y"), KeyCode { code: KEY_Y + KEYCODE_OFFSET, keymap_idx: 1 }));
    t.push((String::from_str("U"), KeyCode { code: KEY_U + KEYCODE_OFFSET, keymap_idx: 1 }));
    t.push((String::from_str("I"), KeyCode { code: KEY_I + KEYCODE_OFFSET, keymap_idx: 1 }));
    t.push((String::from_str("O"), KeyCode { code: KEY_O + KEYCODE_OFFSET, keymap_idx: 1 }));
    t.push((String::from_str("P"), KeyCode { code: KEY_P + KEYCODE_OFFSET, keymap_idx: 1 }));
    t.push((String::from_str("U007B"), KeyCode { code: KEY_LEFTBRACE + KEYCODE_OFFSET, keymap_idx: 1 }));
    t.push((String::from_str("U007D"), KeyCode { code: KEY_RIGHTBRACE + KEYCODE_OFFSET, keymap_idx: 1 }));
    t.push((String::from_str("A"), KeyCode { code: KEY_A + KEYCODE_OFFSET, keymap_idx: 1 }));
    t.push((String::from_str("S"), KeyCode { code: KEY_S + KEYCODE_OFFSET, keymap_idx: 1 }));
    t.push((String::from_str("D"), KeyCode { code: KEY_D + KEYCODE_OFFSET, keymap_idx: 1 }));
    t.push((String::from_str("F"), KeyCode { code: KEY_F + KEYCODE_OFFSET, keymap_idx: 1 }));
    t.push((String::from_str("G"), KeyCode { code: KEY_G + KEYCODE_OFFSET, keymap_idx: 1 }));
    t.push((String::from_str("H"), KeyCode { code: KEY_H + KEYCODE_OFFSET, keymap_idx: 1 }));
    t.push((String::from_str("J"), KeyCode { code: KEY_J + KEYCODE_OFFSET, keymap_idx: 1 }));
    t.push((String::from_str("K"), KeyCode { code: KEY_K + KEYCODE_OFFSET, keymap_idx: 1 }));
    t.push((String::from_str("L"), KeyCode { code: KEY_L + KEYCODE_OFFSET, keymap_idx: 1 }));
    t.push((String::from_str("U003A"), KeyCode { code: KEY_SEMICOLON + KEYCODE_OFFSET, keymap_idx: 1 }));
    t.push((String::from_str("U0022"), KeyCode { code: KEY_APOSTROPHE + KEYCODE_OFFSET, keymap_idx: 1 }));
    t.push((String::from_str("U007E"), KeyCode { code: KEY_GRAVE + KEYCODE_OFFSET, keymap_idx: 1 }));
    t.push((String::from_str("U007C"), KeyCode { code: KEY_BACKSLASH + KEYCODE_OFFSET, keymap_idx: 1 }));
    t.push((String::from_str("Z"), KeyCode { code: KEY_Z + KEYCODE_OFFSET, keymap_idx: 1 }));
    t.push((String::from_str("X"), KeyCode { code: KEY_X + KEYCODE_OFFSET, keymap_idx: 1 }));
    t.push((String::from_str("C"), KeyCode { code: KEY_C + KEYCODE_OFFSET, keymap_idx: 1 }));
    t.push((String::from_str("V"), KeyCode { code: KEY_V + KEYCODE_OFFSET, keymap_idx: 1 }));
    t.push((String::from_str("B"), KeyCode { code: KEY_B + KEYCODE_OFFSET, keymap_idx: 1 }));
    t.push((String::from_str("N"), KeyCode { code: KEY_N + KEYCODE_OFFSET, keymap_idx: 1 }));
    t.push((String::from_str("M"), KeyCode { code: KEY_M + KEYCODE_OFFSET, keymap_idx: 1 }));
    t.push((String::from_str("U003C"), KeyCode { code: KEY_COMMA + KEYCODE_OFFSET, keymap_idx: 1 }));
    t.push((String::from_str("U003E"), KeyCode { code: KEY_DOT + KEYCODE_OFFSET, keymap_idx: 1 }));
    t.push((String::from_str("U003F"), KeyCode { code: KEY_SLASH + KEYCODE_OFFSET, keymap_idx: 1 }));
    assert(entries_view(t@) =~= shifted_placements());
    t
}

/// The fixed placements, as a table to search.
pub fn placement_table() -> (t: Vec<(String, KeyCode)>)
    ensures
        entries_view(t@) == placements(),
{
    let mut t = base_table();
    let mut s = shifted_table();
    let ghost t0 = t@;
    let ghost s0 = s@;
    t.append(&mut s);
    assert(entries_view(t@) =~= entries_view(t0) + entries_view(s0));
    t
}


/// Every entry of `base_placements` is in bin 0, with a code in 9..=147, and
/// the codes ascend strictly.
pub(crate) proof fn lemma_base_placements_ascend()
    ensures
        base_placements().len() == 76,
        forall|i: int| 0 <= i < 76 ==> (#[trigger] base_placements()[i]).1.keymap_idx == 0
            && 9 <= base_placements()[i].1.code <= 147,
        forall|i: int| 0 <= i < 75 ==> (#[trigger] base_placements()[i]).1.code < base_placements()[i + 1].1.code,
{
    let t = base_placements();
    assert forall|i: int| 0 <= i < 76 implies (#[trigger] t[i]).1.keymap_idx == 0
        && 9 <= t[i].1.code <= 147 && (i + 1 < 76 ==> t[i].1.code < t[i + 1].1.code) by {
        if i == 0 {
        } else if i == 1 {
        } else if i == 2 {
        } else if i == 3 {
        } else if i == 4 {
        } else if i == 5 {
        } else if i == 6 {
        } else if i == 7 {
        } else if i == 8 {
        } else if i == 9 {
        } else if i == 10 {
        } else if i == 11 {
        } else if i == 12 {
        } else if i == 13 {
        } else if i == 14 {
        } else if i == 15 {
        } else if i == 16 {
        } else if i == 17 {
        } else if i == 18 {
        } else if i == 19 {
        } else if i == 20 {
        } else if i == 21 {
        } else if i == 22 {
        } else if i == 23 {
        } else if i == 24 {
        } else if i == 25 {
        } else if i == 26 {
        } else if i == 27 {
        } else if i == 28 {
        } else if i == 29 {
        } else if i == 30 {
        } else if i == 31 {
        } else if i == 32 {
        } else if i == 33 {
        } else if i == 34 {
        } else if i == 35 {
        } else if i == 36 {
        } else if i == 37 {
        } else if i == 38 {
        } else if i == 39 {
        } else if i == 40 {
        } else if i == 41 {
        } else if i == 42 {
        } else if i == 43 {
        } else if i == 44 {
        } else if i == 45 {
        } else if i == 46 {
        } else if i == 47 {
        } else if i == 48 {
        } else if i == 49 {
        } else if i == 50 {
        } else if i == 51 {
        } else if i == 52 {
        } else if i == 53 {
        } else if i == 54 {
        } else if i == 55 {
        } else if i == 56 {
        } else if i == 57 {
        } else if i == 58 {
        } else if i == 59 {
        } else if i == 60 {
        } else if i == 61 {
        } else if i == 62 {
        } else if i == 63 {
        } else if i == 64 {
        } else if i == 65 {
        } else if i == 66 {
        } else if i == 67 {
        } else if i == 68 {
        } else if i == 69 {
        } else if i == 70 {
        } else if i == 71 {
        } else if i == 72 {
        } else if i == 73 {
        } else if i == 74 {
        } else if i == 75 {
        }
    }
}

/// Every entry of `shifted_placements` is in bin 1, with a code in 10..=61, and
/// the codes ascend strictly.
pub(crate) proof fn lemma_shifted_placements_ascend()
    ensures
        shifted_placements().len() == 47,
        forall|i: int| 0 <= i < 47 ==> (#[trigger] shifted_placements()[i]).1.keymap_idx == 1
            && 10 <= shifted_placements()[i].1.code <= 61,
        forall|i: int| 0 <= i < 46 ==> (#[trigger] shifted_placements()[i]).1.code < shifted_placements()[i + 1].1.code,
{
    let t = shifted_placements();
    assert forall|i: int| 0 <= i < 47 implies (#[trigger] t[i]).1.keymap_idx == 1
        && 10 <= t[i].1.code <= 61 && (i + 1 < 47 ==> t[i].1.code < t[i + 1].1.code) by {
        if i == 0 {
        } else if i == 1 {
        } else if i == 2 {
        } else if i == 3 {
        } else if i == 4 {
        } else if i == 5 {
        } else if i == 6 {
        } else if i == 7 {
        } else if i == 8 {
        } else if i == 9 {
        } else if i == 10 {
        } else if i == 11 {
        } else if i == 12 {
        } else if i == 13 {
        } else if i == 14 {
        } else if i == 15 {
        } else if i == 16 {
        } else if i == 17 {
        } else if i == 18 {
        } else if i == 19 {
        } else if i == 20 {
        } else if i == 21 {
        } else if i == 22 {
        } else if i == 23 {
        } else if i == 24 {
        } else if i == 25 {
        } else if i == 26 {
        } else if i == 27 {
        } else if i == 28 {
        } else if i == 29 {
        } else if i == 30 {
        } else if i == 31 {
        } else if i == 32 {
        } else if i == 33 {
        } else if i == 34 {
        } else if i == 35 {
        } else if i == 36 {
        } else if i == 37 {
        } else if i == 38 {
        } else if i == 39 {
        } else if i == 40 {
        } else if i == 41 {
        } else if i == 42 {
        } else if i == 43 {
        } else if i == 44 {
        } else if i == 45 {
        } else if i == 46 {
        }
    }
}

} // verus!
