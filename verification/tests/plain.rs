use ydcv::formatters::{Formatter, PlainFormatter};
use ydcv::output::Output;

fn stdout_text(out: Output) -> String {
    match out {
        Output::Stdout(text) => text,
        Output::Notification(_) => panic!("expected text for standard output"),
    }
}

#[test]
fn plain_default_is_identity() {
    let f = PlainFormatter;
    assert_eq!(f.default("hello"), "hello");
    assert_eq!(f.default(""), "");
}

#[test]
fn plain_colours_are_identity() {
    let f = PlainFormatter;
    assert_eq!(f.red("hello"), "hello");
    assert_eq!(f.yellow("hello"), "hello");
    assert_eq!(f.purple("hello"), "hello");
    assert_eq!(f.cyan("hello"), "hello");
    assert_eq!(f.underline("hello"), "hello");
}

#[test]
fn plain_keeps_empty_text_empty() {
    let f = PlainFormatter;
    assert_eq!(f.red(""), "");
    assert_eq!(f.yellow(""), "");
    assert_eq!(f.purple(""), "");
    assert_eq!(f.cyan(""), "");
    assert_eq!(f.underline(""), "");
}

#[test]
fn plain_keeps_markup_and_non_ascii_text() {
    let f = PlainFormatter;
    let s = "<u>caf\u{e9}</u> \x1b[0m \u{4f60}\u{597d}\n";
    assert_eq!(f.default(s), s);
    assert_eq!(f.red(s), s);
    assert_eq!(f.underline(s), s);
}

#[test]
fn plain_print_gives_the_body_as_a_line() {
    let mut f = PlainFormatter;
    let out = f.print("hello", "hello\nn. greeting");
    assert_eq!(stdout_text(out), "hello\nn. greeting\n");
}

#[test]
fn plain_print_of_empty_body_is_a_bare_newline() {
    let mut f = PlainFormatter;
    assert_eq!(stdout_text(f.print("word", "")), "\n");
}

#[test]
fn plain_print_ignores_the_word() {
    let mut f = PlainFormatter;
    let a = stdout_text(f.print("one", "body"));
    let b = stdout_text(f.print("two", "body"));
    assert_eq!(a, "body\n");
    assert_eq!(a, b);
}
