use simple_command::CommandInput;
use simple_command::NormalizedCommand;
use simple_command::normalize;

/// Checks that the normalized command has the expected program and arguments.
fn check_command(cmd: &NormalizedCommand, expected_program: &str, expected_args: &[&str]) {
    assert_eq!(cmd.program, expected_program);
    let args: Vec<&str> = cmd.args.iter().map(|a| a.as_str()).collect();
    assert_eq!(args, expected_args);
}

#[test]
fn test_as_command_from_str_slice_reference() {
    let cmd: &[&str] = &["echo", "Hello, world!"];
    let cmd = normalize(CommandInput::from_token_strs(cmd)).unwrap();
    check_command(&cmd, "echo", &["Hello, world!"]);
}

#[test]
fn test_as_command_from_string_slice_reference() {
    let cmd: &[&str] = &["echo", "Hello, world!"];
    let cmd = normalize(CommandInput::from_token_strs(cmd)).unwrap();
    check_command(&cmd, "echo", &["Hello, world!"]);
}

#[test]
fn test_as_command_from_str_array() {
    let cmd: [&str; 2] = ["echo", "Hello, world!"];
    let cmd = normalize(CommandInput::from_token_strs(&cmd)).unwrap();
    check_command(&cmd, "echo", &["Hello, world!"]);
}

#[test]
fn test_as_command_from_string_array() {
    let cmd: [String; 2] = [String::from("echo"), String::from("Hello, world!")];
    let cmd = normalize(CommandInput::from_token_strings(&cmd)).unwrap();
    check_command(&cmd, "echo", &["Hello, world!"]);
}

#[test]
fn test_as_command_from_str_vector() {
    let cmd: Vec<&str> = vec!["echo", "Hello, world!"];
    let cmd = normalize(CommandInput::from_token_strs(cmd.as_slice())).unwrap();
    check_command(&cmd, "echo", &["Hello, world!"]);
}

#[test]
fn test_as_command_from_string_vector() {
    let cmd: Vec<String> = vec![String::from("echo"), String::from("Hello, world!")];
    let cmd = normalize(CommandInput::from_tokens(cmd)).unwrap();
    check_command(&cmd, "echo", &["Hello, world!"]);
}

#[test]
fn test_as_command_from_str() {
    let cmd: &str = "echo \"Hello, world!\"";
    let cmd = normalize(CommandInput::from_raw(cmd)).unwrap();
    check_command(&cmd, "echo", &["Hello, world!"]);
}

#[test]
fn test_as_command_from_string() {
    let cmd: String = "echo \"Hello, world!\"".into();
    let cmd = normalize(CommandInput::from_raw_string(cmd)).unwrap();
    check_command(&cmd, "echo", &["Hello, world!"]);
}
