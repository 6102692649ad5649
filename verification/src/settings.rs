//! Settings for the two binaries, assembled from command-line tokens. An
//! omitted positional argument stands for the standard-stream keyword, so
//! leaving it out and passing `stdin` / `stdout` explicitly come to the same.

use crate::source::CliError;
use crate::source::CliErrorV;
use crate::source::Input;
use crate::source::InputV;
use crate::source::Output;
use crate::source::OutputV;
use crate::source::parse_input;
use crate::source::parse_output;
use crate::source::spec_parse_input;
use crate::source::spec_parse_output;
use vstd::prelude::*;

verus! {

/// Settings for the encoder binary: where to read, where to write, and an
/// optional limit on the number of messages to process.
#[derive(Debug, Clone, PartialEq, Eq)]
pub struct Encoder {
    pub input: Input,
    pub output: Output,
    pub count: Option<usize>,
}

/// Settings for the decoder binary: where to read, and an optional limit on
/// the number of messages to process.
#[derive(Debug, Clone, PartialEq, Eq)]
pub struct Decoder {
    pub input: Input,
    pub count: Option<usize>,
}

/// Mathematical shape of an [`Encoder`].
pub struct EncoderV {
    pub input: InputV,
    pub output: OutputV,
    pub count: Option<usize>,
}

/// Mathematical shape of a [`Decoder`].
pub struct DecoderV {
    pub input: InputV,
    pub count: Option<usize>,
}

impl View for Encoder {
    type V = EncoderV;

    open spec fn view(&self) -> EncoderV {
        EncoderV { input: self.input@, output: self.output@, count: self.count }
    }
}

impl View for Decoder {
    type V = DecoderV;

    open spec fn view(&self) -> DecoderV {
        DecoderV { input: self.input@, count: self.count }
    }
}

/// The token an optional argument stands for: its own value, or the given
/// fallback where it was omitted.
pub open spec fn token_or_fallback(arg: Option<Seq<char>>, fallback: Seq<char>) -> Seq<char> {
    match arg {
        Some(s) => s,
        None => fallback,
    }
}

/// The character sequences of optionally supplied argument text.
pub open spec fn arg_view(arg: Option<&str>) -> Option<Seq<char>> {
    match arg {
        Some(s) => Some(s@),
        None => None,
    }
}

/// What assembling encoder settings yields: the input token (or the
/// standard-input keyword where omitted) is resolved first, then the output
/// token (or the standard-output keyword where omitted); the first failure
/// wins, and the count is carried through unchanged.
pub open spec fn spec_encoder_settings(
    input_arg: Option<Seq<char>>,
    output_arg: Option<Seq<char>>,
    count: Option<usize>,
    input_path_exists: bool,
    output_path_exists: bool,
) -> Result<EncoderV, CliErrorV> {
    match spec_parse_input(token_or_fallback(input_arg, "stdin"@), input_path_exists) {
        Err(e) => Err(e),
        Ok(input) => match spec_parse_output(
            token_or_fallback(output_arg, "stdout"@),
            output_path_exists,
        ) {
            Err(e) => Err(e),
            Ok(output) => Ok(EncoderV { input, output, count }),
        },
    }
}

/// What assembling decoder settings yields: the input token (or the
/// standard-input keyword where omitted) is resolved, and the count is carried
/// through unchanged.
pub open spec fn spec_decoder_settings(
    input_arg: Option<Seq<char>>,
    count: Option<usize>,
    input_path_exists: bool,
) -> Result<DecoderV, CliErrorV> {
    match spec_parse_input(token_or_fallback(input_arg, "stdin"@), input_path_exists) {
        Err(e) => Err(e),
        Ok(input) => Ok(DecoderV { input, count }),
    }
}

impl Encoder {
    /// Assemble encoder settings from command-line tokens. `input_path_exists`
    /// and `output_path_exists` report whether the respective token, read as a
    /// path, names an existing filesystem entry.
    pub fn from_args(
        input_arg: Option<&str>,
        output_arg: Option<&str>,
        count: Option<usize>,
        input_path_exists: bool,
        output_path_exists: bool,
    ) -> (r: Result<Encoder, CliError>)
        ensures
            (match r {
                Ok(enc) => spec_encoder_settings(
                    arg_view(input_arg),
                    arg_view(output_arg),
                    count,
                    input_path_exists,
                    output_path_exists,
                ) == Ok::<EncoderV, CliErrorV>(enc@),
                Err(e) => spec_encoder_settings(
                    arg_view(input_arg),
                    arg_view(output_arg),
                    count,
                    input_path_exists,
                    output_path_exists,
                ) == Err::<EncoderV, CliErrorV>(e@),
            }),
    {
        let input_token: &str = match input_arg {
            Some(s) => s,
            None => "stdin",
        };
        let output_token: &str = match output_arg {
            Some(s) => s,
            None => "stdout",
        };
        let input = match parse_input(input_token, input_path_exists) {
            Ok(i) => i,
            Err(e) => {
                return Err(e);
            },
        };
        let output = match parse_output(output_token, output_path_exists) {
            Ok(o) => o,
            Err(e) => {
                return Err(e);
            },
        };
        Ok(Encoder { input, output, count })
    }
}

impl Decoder {
    /// Assemble decoder settings from command-line tokens. `input_path_exists`
    /// reports whether the token, read as a path, names an existing filesystem
    /// entry.
    pub fn from_args(input_arg: Option<&str>, count: Option<usize>, input_path_exists: bool) -> (r:
        Result<Decoder, CliError>)
        ensures
            (match r {
                Ok(dec) => spec_decoder_settings(arg_view(input_arg), count, input_path_exists)
                    == Ok::<DecoderV, CliErrorV>(dec@),
                Err(e) => spec_decoder_settings(arg_view(input_arg), count, input_path_exists)
                    == Err::<DecoderV, CliErrorV>(e@),
            }),
    {
        let input_token: &str = match input_arg {
            Some(s) => s,
            None => "stdin",
        };
        match parse_input(input_token, input_path_exists) {
            Ok(input) => Ok(Decoder { input, count }),
            Err(e) => Err(e),
        }
    }
}

/// Law: omitting the encoder's input argument comes to the same as passing the
/// standard-input keyword explicitly.
pub proof fn lemma_omitted_encoder_input_is_stdin(
    output_arg: Option<Seq<char>>,
    count: Option<usize>,
    input_path_exists: bool,
    output_path_exists: bool,
)
    ensures
        spec_encoder_settings(None, output_arg, count, input_path_exists, output_path_exists)
            == spec_encoder_settings(
            Some("stdin"@),
            output_arg,
            count,
            input_path_exists,
            output_path_exists,
        ),
{
}

/// Law: omitting the encoder's output argument comes to the same as passing
/// the standard-output keyword explicitly.
pub proof fn lemma_omitted_encoder_output_is_stdout(
    input_arg: Option<Seq<char>>,
    count: Option<usize>,
    input_path_exists: bool,
    output_path_exists: bool,
)
    ensures
        spec_encoder_settings(input_arg, None, count, input_path_exists, output_path_exists)
            == spec_encoder_settings(
            input_arg,
            Some("stdout"@),
            count,
            input_path_exists,
            output_path_exists,
        ),
{
}

/// Law: omitting the decoder's input argument comes to the same as passing the
/// standard-input keyword explicitly.
pub proof fn lemma_omitted_decoder_input_is_stdin(
    count: Option<usize>,
    input_path_exists: bool,
)
    ensures
        spec_decoder_settings(None, count, input_path_exists) == spec_decoder_settings(
            Some("stdin"@),
            count,
            input_path_exists,
        ),
{
}

} // verus!
