use idle_suspend::chars::{blank, is_whitespace};
use idle_suspend::command::{must_to_command, poweroff_command, split_words, CommandLine};
use idle_suspend::error::ConfigError;

fn owned(words: &[&str]) -> Vec<String> {
    words.iter().map(|w| w.to_string()).collect()
}

#[test]
pub fn test_must_to_command() {
    assert!(must_to_command("ls").is_ok());
    assert!(must_to_command("ls -alh").is_ok());
    assert!(must_to_command("/usr/bin/ls -l -a -h").is_ok());
}

#[test]
#[should_panic]
pub fn test_panic_must_to_command() {
    must_to_command("    ").unwrap();
}

#[test]
fn command_of_one_word_has_no_arguments() {
    let cmd = must_to_command("ls").unwrap();
    assert_eq!(cmd.program, "ls");
    assert!(cmd.args.is_empty());
}

#[test]
fn command_with_arguments_is_cut_at_white_space() {
    let cmd = must_to_command("cmd arg1 arg2").unwrap();
    assert_eq!(cmd, CommandLine { program: "cmd".to_string(), args: owned(&["arg1", "arg2"]) });
    let cmd = must_to_command("/usr/bin/ls -l -a -h").unwrap();
    assert_eq!(cmd.program, "/usr/bin/ls");
    assert_eq!(cmd.args, owned(&["-l", "-a", "-h"]));
    let cmd = must_to_command("ls -alh").unwrap();
    assert_eq!(cmd.program, "ls");
    assert_eq!(cmd.args, owned(&["-alh"]));
}

#[test]
fn white_space_around_and_between_words_is_dropped() {
    let cmd = must_to_command("  \t/usr/bin/systemctl \n\n  suspend\r\n").unwrap();
    assert_eq!(cmd.program, "/usr/bin/systemctl");
    assert_eq!(cmd.args, owned(&["suspend"]));
}

#[test]
fn blank_command_is_a_configuration_error() {
    assert_eq!(must_to_command(""), Err(ConfigError::EmptyCommand));
    assert_eq!(must_to_command("    "), Err(ConfigError::EmptyCommand));
    assert_eq!(must_to_command(" \t\r\n"), Err(ConfigError::EmptyCommand));
    assert_eq!(must_to_command("\u{a0}\u{2003}\u{3000}"), Err(ConfigError::EmptyCommand));
}

#[test]
fn quotes_do_not_group_words() {
    let cmd = must_to_command("sh -c 'echo hi'").unwrap();
    assert_eq!(cmd.program, "sh");
    assert_eq!(cmd.args, owned(&["-c", "'echo", "hi'"]));
}

#[test]
fn split_words_agrees_with_the_standard_split() {
    let samples = [
        "",
        " ",
        "a",
        " a",
        "a ",
        "a b",
        "  a  b  ",
        "one\ttwo\nthree\rfour",
        "\u{b}x\u{c}y",
        "caf\u{e9} na\u{ef}ve \u{65e5}\u{672c}\u{8a9e}",
        "a\u{a0}b\u{1680}c\u{2000}d\u{200a}e\u{2028}f\u{2029}g\u{202f}h\u{205f}i\u{3000}j\u{85}k",
        "zero\u{200b}width\u{feff}stays",
        "/usr/bin/systemctl suspend",
    ];
    for s in samples {
        let expected: Vec<String> = s.split_whitespace().map(|w| w.to_string()).collect();
        assert_eq!(split_words(s), expected, "splitting {:?}", s);
    }
}

#[test]
fn is_whitespace_agrees_with_the_standard_test_on_every_char() {
    let mut n: u32 = 0;
    while n <= 0x10FFFF {
        if let Some(c) = char::from_u32(n) {
            assert_eq!(is_whitespace(c), c.is_whitespace(), "code point {:#x}", n);
        }
        n += 1;
    }
}

#[test]
fn blank_tells_white_space_from_text() {
    assert!(blank(""));
    assert!(blank(" \t\n\u{3000}"));
    assert!(!blank("x"));
    assert!(!blank("   x   "));
    assert!(!blank("\u{200b}"));
}

#[test]
fn poweroff_command_is_systemctl_poweroff() {
    let cmd = poweroff_command();
    assert_eq!(cmd.program, "/usr/bin/systemctl");
    assert_eq!(cmd.args, owned(&["poweroff"]));
}
