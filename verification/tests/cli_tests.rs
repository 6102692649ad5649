use fge_cli::CliError;
use fge_cli::Decoder;
use fge_cli::Encoder;
use fge_cli::Input;
use fge_cli::Output;
use fge_cli::casefold::eq_ignore_ascii_case;
use fge_cli::source::parse_input;
use fge_cli::source::parse_output;

#[test]
fn stdin_keyword_lowercase() {
    assert_eq!(parse_input("stdin", false), Ok(Input::Stdin));
}

#[test]
fn stdin_keyword_uppercase() {
    assert_eq!(parse_input("STDIN", false), Ok(Input::Stdin));
}

#[test]
fn stdin_keyword_mixed_case() {
    assert_eq!(parse_input("StdIn", false), Ok(Input::Stdin));
}

#[test]
fn stdin_keyword_beats_existing_file_of_that_name() {
    // The keyword is checked before the path: even when an entry named
    // "stdin" exists, the keyword wins.
    assert_eq!(parse_input("stdin", true), Ok(Input::Stdin));
}

#[test]
fn missing_input_path_is_reported_with_the_path() {
    let r = parse_input("/path/that/does/not/exist", false);
    assert_eq!(
        r,
        Err(CliError::InputNotFound { path: "/path/that/does/not/exist".to_string() })
    );
}

#[test]
fn existing_input_path_yields_file_variant() {
    let r = parse_input("data.bin", true);
    assert_eq!(r, Ok(Input::File { path: "data.bin".to_string() }));
}

#[test]
fn stdout_keyword_lowercase() {
    assert_eq!(parse_output("stdout", false), Ok(Output::Stdout));
}

#[test]
fn stdout_keyword_uppercase() {
    assert_eq!(parse_output("STDOUT", true), Ok(Output::Stdout));
}

#[test]
fn stdout_keyword_mixed_case() {
    assert_eq!(parse_output("StdOut", false), Ok(Output::Stdout));
}

#[test]
fn fresh_output_path_yields_file_variant() {
    let r = parse_output("out.bin", false);
    assert_eq!(r, Ok(Output::File { path: "out.bin".to_string() }));
}

#[test]
fn occupied_output_path_is_reported_with_the_path() {
    let r = parse_output("out.bin", true);
    assert_eq!(r, Err(CliError::OutputAlreadyExists { path: "out.bin".to_string() }));
}

#[test]
fn input_round_trip_recovers_the_original_path() {
    match parse_input("some/dir/data.bin", true) {
        Ok(Input::File { path }) => assert_eq!(path, "some/dir/data.bin"),
        other => panic!("expected the File variant, got {:?}", other),
    }
}

#[test]
fn output_round_trip_recovers_the_original_path() {
    match parse_output("some/dir/out.bin", false) {
        Ok(Output::File { path }) => assert_eq!(path, "some/dir/out.bin"),
        other => panic!("expected the File variant, got {:?}", other),
    }
}

#[test]
fn round_trip_keeps_non_ascii_paths() {
    match parse_input("méssages.bin", true) {
        Ok(Input::File { path }) => assert_eq!(path, "méssages.bin"),
        other => panic!("expected the File variant, got {:?}", other),
    }
}

#[test]
fn near_keywords_are_paths() {
    assert_eq!(
        parse_input("stdin2", false),
        Err(CliError::InputNotFound { path: "stdin2".to_string() })
    );
    assert_eq!(
        parse_input("stdi", false),
        Err(CliError::InputNotFound { path: "stdi".to_string() })
    );
    assert_eq!(
        parse_input("stdin ", true),
        Ok(Input::File { path: "stdin ".to_string() })
    );
    assert_eq!(
        parse_output("stdout.", false),
        Ok(Output::File { path: "stdout.".to_string() })
    );
}

#[test]
fn empty_token_is_a_path() {
    assert_eq!(parse_input("", false), Err(CliError::InputNotFound { path: String::new() }));
    assert_eq!(parse_output("", false), Ok(Output::File { path: String::new() }));
}

#[test]
fn omitted_encoder_arguments_equal_explicit_keywords() {
    let omitted = Encoder::from_args(None, None, Some(3), false, false);
    let explicit = Encoder::from_args(Some("stdin"), Some("stdout"), Some(3), false, false);
    assert_eq!(omitted, explicit);
    assert_eq!(
        omitted,
        Ok(Encoder { input: Input::Stdin, output: Output::Stdout, count: Some(3) })
    );
}

#[test]
fn omitted_decoder_argument_equals_explicit_keyword() {
    let omitted = Decoder::from_args(None, None, true);
    let explicit = Decoder::from_args(Some("stdin"), None, true);
    assert_eq!(omitted, explicit);
    assert_eq!(omitted, Ok(Decoder { input: Input::Stdin, count: None }));
}

#[test]
fn encoder_keeps_both_paths_and_the_count() {
    let r = Encoder::from_args(Some("in.bin"), Some("out.bin"), Some(12), true, false);
    assert_eq!(
        r,
        Ok(Encoder {
            input: Input::File { path: "in.bin".to_string() },
            output: Output::File { path: "out.bin".to_string() },
            count: Some(12),
        })
    );
}

#[test]
fn encoder_reports_the_input_failure_first() {
    // Both tokens are bad: the missing input path is reported, as the input
    // argument is resolved before the output argument.
    let r = Encoder::from_args(Some("in.bin"), Some("out.bin"), None, false, true);
    assert_eq!(r, Err(CliError::InputNotFound { path: "in.bin".to_string() }));
}

#[test]
fn encoder_reports_an_occupied_output_path() {
    let r = Encoder::from_args(Some("stdin"), Some("out.bin"), None, false, true);
    assert_eq!(r, Err(CliError::OutputAlreadyExists { path: "out.bin".to_string() }));
}

#[test]
fn decoder_reports_a_missing_input_path() {
    let r = Decoder::from_args(Some("in.bin"), Some(1), false);
    assert_eq!(r, Err(CliError::InputNotFound { path: "in.bin".to_string() }));
}

#[test]
fn case_insensitive_comparison_ignores_ascii_case_only() {
    assert!(eq_ignore_ascii_case("stdin", "STDIN"));
    assert!(eq_ignore_ascii_case("StDoUt", "stdout"));
    assert!(eq_ignore_ascii_case("", ""));
    assert!(!eq_ignore_ascii_case("stdin", "stdout"));
    assert!(!eq_ignore_ascii_case("stdin", "stdin "));
    // Only ASCII letters fold: a non-ASCII letter differs from its lowercase.
    assert!(!eq_ignore_ascii_case("É", "é"));
    assert!(eq_ignore_ascii_case("a{", "A{"));
}
