use tm::cli::{parse_args, unknown_argument_message, version_line, CliAction, USAGE, VERSION};

fn args(list: &[&str]) -> Vec<String> {
    list.iter().map(|a| a.to_string()).collect()
}

#[test]
fn help_flag_shows_usage() {
    assert_eq!(parse_args(&args(&["--help"])), CliAction::Help);
    assert!(USAGE.contains("tm"));
    assert!(USAGE.contains("tmux session manager"));
    assert!(USAGE.contains("USAGE"));
    assert!(USAGE.contains("OPTIONS"));
    assert!(USAGE.contains("--help"));
    assert!(USAGE.contains("--version"));
}

#[test]
fn short_help_flag_shows_usage() {
    assert_eq!(parse_args(&args(&["-h"])), CliAction::Help);
    assert!(USAGE.contains("USAGE"));
}

#[test]
fn version_flag_shows_version() {
    assert_eq!(parse_args(&args(&["--version"])), CliAction::Version);
    let line = version_line();
    assert!(line.contains("tm"));
    assert!(line.contains(VERSION));
}

#[test]
fn short_version_flag_shows_version() {
    assert_eq!(parse_args(&args(&["-V"])), CliAction::Version);
    assert!(version_line().contains(VERSION));
}

#[test]
fn unknown_argument_shows_error() {
    let action = parse_args(&args(&["--invalid"]));
    assert_eq!(action, CliAction::Unknown("--invalid".to_string()));
    let message = unknown_argument_message("--invalid");
    assert!(message.contains("Unknown argument"));
    assert!(message.contains("--invalid"));
}

#[test]
fn no_arguments_run_the_interactive_flow() {
    assert_eq!(parse_args(&Vec::new()), CliAction::Interactive);
}

#[test]
fn any_unknown_argument_is_an_error() {
    assert_eq!(
        parse_args(&args(&["-V", "--bogus"])),
        CliAction::Unknown("--bogus".to_string())
    );
    assert_eq!(
        parse_args(&args(&["help"])),
        CliAction::Unknown("help".to_string())
    );
    assert_eq!(
        parse_args(&args(&["-h", "x", "y"])),
        CliAction::Unknown("x".to_string())
    );
}

#[test]
fn first_known_flag_decides() {
    assert_eq!(parse_args(&args(&["-V", "-h"])), CliAction::Version);
    assert_eq!(parse_args(&args(&["--help", "--version"])), CliAction::Help);
}

#[test]
fn version_line_is_exact() {
    assert_eq!(version_line(), format!("tm {}", VERSION));
}
