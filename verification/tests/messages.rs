use simple_command::CommandError;
use simple_command::command_text;
use simple_command::render_status;

#[test]
fn status_renders_in_decimal() {
    assert_eq!(render_status(0), "0");
    assert_eq!(render_status(1), "1");
    assert_eq!(render_status(9), "9");
    assert_eq!(render_status(10), "10");
    assert_eq!(render_status(123), "123");
    assert_eq!(render_status(2147483647), "2147483647");
}

#[test]
fn negative_status_renders_with_sign() {
    assert_eq!(render_status(-1), "-1");
    assert_eq!(render_status(-7), "-7");
    assert_eq!(render_status(-128), "-128");
    assert_eq!(render_status(-2147483648), "-2147483648");
}

#[test]
fn command_text_joins_tokens_with_single_spaces() {
    let program = "cc".to_owned();
    let args = vec!["-c".to_owned(), "a.c".to_owned(), "-o".to_owned(), "a.out".to_owned()];
    assert_eq!(command_text(&program, &args), "cc -c a.c -o a.out");
    let no_args: Vec<String> = Vec::new();
    assert_eq!(command_text(&program, &no_args), "cc");
}

#[test]
fn parse_error_message_names_the_missing_quote() {
    assert_eq!(
        CommandError::ParseError.message(),
        "cannot parse command string: missing closing quote"
    );
}

#[test]
fn invalid_input_message_names_the_missing_program() {
    assert_eq!(
        CommandError::InvalidInput.message(),
        "cannot run an empty command: no program name was given"
    );
}

#[test]
fn nonzero_exit_message_holds_command_and_status() {
    let err = CommandError::NonZeroExit {
        program: "make".to_owned(),
        args: vec!["-j".to_owned(), "4".to_owned()],
        code: 2,
    };
    assert_eq!(err.message(), "command `make -j 4` failed with status: 2");
}
