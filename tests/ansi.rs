use simple_regex::ansi::{
    fg_black, fg_blue, fg_cyan, fg_green, fg_purple, fg_red, fg_white, fg_yellow,
};

#[test]
fn colors_wrap_text_in_codes() {
    assert_eq!(fg_black("x".to_string()), "\x1b[30mx\x1b[0m");
    assert_eq!(fg_red("x".to_string()), "\x1b[31mx\x1b[0m");
    assert_eq!(fg_green("true".to_string()), "\x1b[32mtrue\x1b[0m");
    assert_eq!(fg_yellow("x".to_string()), "\x1b[33mx\x1b[0m");
    assert_eq!(fg_blue("x".to_string()), "\x1b[34mx\x1b[0m");
    assert_eq!(fg_purple("x".to_string()), "\x1b[35mx\x1b[0m");
    assert_eq!(fg_cyan("x".to_string()), "\x1b[36mx\x1b[0m");
    assert_eq!(fg_white("x".to_string()), "\x1b[37mx\x1b[0m");
}

#[test]
fn color_of_empty_text() {
    assert_eq!(fg_red(String::new()), "\x1b[31m\x1b[0m");
}

#[test]
fn color_keeps_unicode_text() {
    assert_eq!(fg_blue("héllo ✓".to_string()), "\x1b[34mhéllo ✓\x1b[0m");
}
