//! Stream-source resolution: a user-supplied token either selects a well-known
//! stream (the `stdin` / `stdout` keyword, matched ignoring ASCII case) or
//! names a filesystem path. An input path must exist, an output path must not.
//! Whether the path exists is handed in as a plain boolean, so resolution is
//! specified for every outcome of the filesystem probe.

use crate::casefold::ascii_eq_ignore_case;
use crate::casefold::eq_ignore_ascii_case;
use vstd::prelude::*;
use vstd::string::StringExecFns;

verus! {

/// Where a binary reads from: the process's standard input, or a named file.
#[derive(Debug, Clone, PartialEq, Eq)]
pub enum Input {
    Stdin,
    File { path: String },
}

/// Where a binary writes to: the process's standard output, or a named file.
#[derive(Debug, Clone, PartialEq, Eq)]
pub enum Output {
    Stdout,
    File { path: String },
}

/// Why a token was rejected: an input path that does not exist, or an output
/// path that already does.
#[derive(Debug, Clone, PartialEq, Eq)]
pub enum CliError {
    InputNotFound { path: String },
    OutputAlreadyExists { path: String },
}

/// Mathematical shape of an [`Input`]: the path as a character sequence.
pub enum InputV {
    Stdin,
    File { path: Seq<char> },
}

/// Mathematical shape of an [`Output`]: the path as a character sequence.
pub enum OutputV {
    Stdout,
    File { path: Seq<char> },
}

/// Mathematical shape of a [`CliError`]: the offending path as a character
/// sequence.
pub enum CliErrorV {
    InputNotFound { path: Seq<char> },
    OutputAlreadyExists { path: Seq<char> },
}

impl View for Input {
    type V = InputV;

    open spec fn view(&self) -> InputV {
        match self {
            Input::Stdin => InputV::Stdin,
            Input::File { path } => InputV::File { path: path@ },
        }
    }
}

impl View for Output {
    type V = OutputV;

    open spec fn view(&self) -> OutputV {
        match self {
            Output::Stdout => OutputV::Stdout,
            Output::File { path } => OutputV::File { path: path@ },
        }
    }
}

impl View for CliError {
    type V = CliErrorV;

    open spec fn view(&self) -> CliErrorV {
        match self {
            CliError::InputNotFound { path } => CliErrorV::InputNotFound { path: path@ },
            CliError::OutputAlreadyExists { path } => CliErrorV::OutputAlreadyExists {
                path: path@,
            },
        }
    }
}

/// Whether a token is the standard-input keyword, ignoring ASCII case.
pub open spec fn is_stdin_token(s: Seq<char>) -> bool {
    ascii_eq_ignore_case(s, "stdin"@)
}

/// Whether a token is the standard-output keyword, ignoring ASCII case.
pub open spec fn is_stdout_token(s: Seq<char>) -> bool {
    ascii_eq_ignore_case(s, "stdout"@)
}

/// What resolving an input token yields, given whether the token names an
/// existing filesystem entry: the keyword selects standard input; any other
/// token is a path that must exist.
pub open spec fn spec_parse_input(text: Seq<char>, path_exists: bool) -> Result<
    InputV,
    CliErrorV,
> {
    if is_stdin_token(text) {
        Ok(InputV::Stdin)
    } else if path_exists {
        Ok(InputV::File { path: text })
    } else {
        Err(CliErrorV::InputNotFound { path: text })
    }
}

/// What resolving an output token yields, given whether the token names an
/// existing filesystem entry: the keyword selects standard output; any other
/// token is a path that must not exist yet.
pub open spec fn spec_parse_output(text: Seq<char>, path_exists: bool) -> Result<
    OutputV,
    CliErrorV,
> {
    if is_stdout_token(text) {
        Ok(OutputV::Stdout)
    } else if path_exists {
        Err(CliErrorV::OutputAlreadyExists { path: text })
    } else {
        Ok(OutputV::File { path: text })
    }
}

/// Resolve an input token. `path_exists` reports whether the token, read as a
/// path, names an existing filesystem entry; it is only consulted when the
/// token is not the standard-input keyword.
pub fn parse_input(text: &str, path_exists: bool) -> (r: Result<Input, CliError>)
    ensures
        (match r {
            Ok(i) => spec_parse_input(text@, path_exists) == Ok::<InputV, CliErrorV>(i@),
            Err(e) => spec_parse_input(text@, path_exists) == Err::<InputV, CliErrorV>(e@),
        }),
{
    if eq_ignore_ascii_case(text, "stdin") {
        Ok(Input::Stdin)
    } else if path_exists {
        Ok(Input::File { path: String::from_str(text) })
    } else {
        Err(CliError::InputNotFound { path: String::from_str(text) })
    }
}

/// Resolve an output token. `path_exists` reports whether the token, read as a
/// path, names an existing filesystem entry; it is only consulted when the
/// token is not the standard-output keyword.
pub fn parse_output(text: &str, path_exists: bool) -> (r: Result<Output, CliError>)
    ensures
        (match r {
            Ok(o) => spec_parse_output(text@, path_exists) == Ok::<OutputV, CliErrorV>(o@),
            Err(e) => spec_parse_output(text@, path_exists) == Err::<OutputV, CliErrorV>(e@),
        }),
{
    if eq_ignore_ascii_case(text, "stdout") {
        Ok(Output::Stdout)
    } else if path_exists {
        Err(CliError::OutputAlreadyExists { path: String::from_str(text) })
    } else {
        Ok(Output::File { path: String::from_str(text) })
    }
}

/// Law: every spelling of the standard-input keyword resolves to the
/// standard-input variant, whatever the filesystem probe reported.
pub proof fn lemma_keyword_selects_stdin(text: Seq<char>, path_exists: bool)
    requires
        is_stdin_token(text),
    ensures
        spec_parse_input(text, path_exists) == Ok::<InputV, CliErrorV>(InputV::Stdin),
{
}

/// Law: every spelling of the standard-output keyword resolves to the
/// standard-output variant, whatever the filesystem probe reported.
pub proof fn lemma_keyword_selects_stdout(text: Seq<char>, path_exists: bool)
    requires
        is_stdout_token(text),
    ensures
        spec_parse_output(text, path_exists) == Ok::<OutputV, CliErrorV>(OutputV::Stdout),
{
}

/// Law: a token that is not the standard-input keyword and names an existing
/// path resolves to the File variant carrying exactly the original token.
pub proof fn lemma_parse_input_round_trip(text: Seq<char>)
    requires
        !is_stdin_token(text),
    ensures
        spec_parse_input(text, true) == Ok::<InputV, CliErrorV>(InputV::File { path: text }),
{
}

/// Law: a token that is not the standard-output keyword and names no existing
/// path resolves to the File variant carrying exactly the original token.
pub proof fn lemma_parse_output_round_trip(text: Seq<char>)
    requires
        !is_stdout_token(text),
    ensures
        spec_parse_output(text, false) == Ok::<OutputV, CliErrorV>(OutputV::File { path: text }),
{
}

} // verus!
