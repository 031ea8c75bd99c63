use termioff::{ModeStack, Rgb, Termioff};

const WHITE: Rgb = Rgb { r: 255, g: 255, b: 255 };
const BLACK: Rgb = Rgb { r: 0, g: 0, b: 0 };

#[test]
fn test_a() {
    let s = String::from_utf8("ABC".into()).expect("utf8");
    let mut tm = Termioff::new(2, 80, 50);
    tm.begin();
    tm.wr(1, 50, 3, WHITE, BLACK, &s);
    tm.fin();
    assert_eq!(tm.w, 80);
    assert_eq!(tm.h, 50);
}

#[test]
fn scenario_mode_two_full_output() {
    let mut tm = Termioff::new(2, 80, 50);
    tm.begin();
    tm.wr(1, 50, 3, WHITE, BLACK, &String::from("ABC"));
    tm.fin();
    assert_eq!(tm.mode, ModeStack::RawMouse);
    assert_eq!(
        tm.take_output(),
        "\x1b[?25l\x1b[2J\x1b[1m\x1b[3m\x1b[50;1H\x1b[48;2;255;255;255m\x1b[38;2;0;0;0mABC\x1b[m\x1b[?25h"
    );
}

#[test]
fn each_code_selects_its_stack_and_keeps_size() {
    let expected = [
        ModeStack::Raw,
        ModeStack::RawAltScreen,
        ModeStack::RawMouse,
        ModeStack::RawMouseAltScreen,
        ModeStack::RawAltScreenMouse,
    ];
    for (k, m) in expected.iter().enumerate() {
        let tm = Termioff::new(k as u16, 132, 43);
        assert_eq!(tm.mode, *m);
        assert_eq!(tm.w, 132);
        assert_eq!(tm.h, 43);
        assert_eq!(tm.out, "");
    }
}

#[test]
fn unknown_codes_fall_back_to_raw() {
    for k in [5u16, 6, 100, u16::MAX] {
        assert_eq!(Termioff::new(k, 80, 24).mode, Termioff::new(0, 80, 24).mode);
        assert_eq!(ModeStack::from_code(k), ModeStack::Raw);
    }
}

#[test]
fn zero_size_is_kept() {
    let tm = Termioff::new(1, 0, 0);
    assert_eq!((tm.w, tm.h), (0, 0));
}

#[test]
fn begin_then_fin_ends_with_cursor_show() {
    let mut tm = Termioff::new(0, 80, 24);
    tm.begin();
    tm.fin();
    assert_eq!(tm.take_output(), "\x1b[?25l\x1b[2J\x1b[?25h");
}

#[test]
fn begin_twice_clears_twice() {
    let mut tm = Termioff::new(0, 80, 24);
    tm.begin();
    tm.begin();
    assert_eq!(tm.out, "\x1b[?25l\x1b[2J\x1b[?25l\x1b[2J");
}

#[test]
fn wr_without_styles() {
    let mut tm = Termioff::new(0, 80, 24);
    tm.wr(12, 7, 0, Rgb { r: 1, g: 20, b: 128 }, Rgb { r: 9, g: 10, b: 99 }, &String::from("hi"));
    assert_eq!(tm.out, "\x1b[7;12H\x1b[48;2;1;20;128m\x1b[38;2;9;10;99mhi\x1b[m");
}

#[test]
fn wr_bold_only_and_italic_only() {
    let mut bold = Termioff::new(0, 80, 24);
    bold.wr(1, 1, 1, BLACK, WHITE, &String::from("b"));
    assert_eq!(bold.out, "\x1b[1m\x1b[1;1H\x1b[48;2;0;0;0m\x1b[38;2;255;255;255mb\x1b[m");
    let mut italic = Termioff::new(0, 80, 24);
    italic.wr(1, 1, 2, BLACK, WHITE, &String::from("i"));
    assert_eq!(italic.out, "\x1b[3m\x1b[1;1H\x1b[48;2;0;0;0m\x1b[38;2;255;255;255mi\x1b[m");
}

#[test]
fn wr_high_flag_bits_ignored() {
    let msg = String::from("same");
    let mut a = Termioff::new(0, 80, 24);
    a.wr(3, 4, 3, WHITE, BLACK, &msg);
    let mut b = Termioff::new(0, 80, 24);
    b.wr(3, 4, 3 | 0x40, WHITE, BLACK, &msg);
    assert_eq!(a.out, b.out);
    let mut c = Termioff::new(0, 80, 24);
    c.wr(3, 4, 0xfffc, WHITE, BLACK, &msg);
    assert_eq!(c.out, "\x1b[4;3H\x1b[48;2;255;255;255m\x1b[38;2;0;0;0msame\x1b[m");
}

#[test]
fn wr_empty_message() {
    let mut tm = Termioff::new(0, 80, 24);
    tm.wr(65535, 65535, 0, WHITE, BLACK, &String::new());
    assert_eq!(tm.out, "\x1b[65535;65535H\x1b[48;2;255;255;255m\x1b[38;2;0;0;0m\x1b[m");
}

#[test]
fn style_appends_verbatim_and_persists() {
    let mut tm = Termioff::new(0, 80, 24);
    tm.style("\x1b[1m");
    tm.style("");
    tm.fin();
    assert_eq!(tm.out, "\x1b[1m\x1b[?25h");
}

#[test]
fn take_output_empties_and_keeps_session() {
    let mut tm = Termioff::new(4, 10, 5);
    tm.fin();
    assert_eq!(tm.take_output(), "\x1b[?25h");
    assert_eq!(tm.take_output(), "");
    assert_eq!((tm.w, tm.h, tm.mode), (10, 5, ModeStack::RawAltScreenMouse));
}
