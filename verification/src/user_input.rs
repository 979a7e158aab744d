//! What is made of the user's answers once they have been read: which file to
//! work on, and which file to write.

use crate::error::TranscoderError;
use crate::media::video_check::{has_valid_extension, SupportedFormatSet};
use crate::string_utils::{change_file_extension, with_extension};
use vstd::prelude::*;

verus! {

/// The error, if any, that stops a request for `format` on the file at
/// `input`: a format that is not supported, or else a path that has no
/// extension to replace.
pub open spec fn output_file_error(
    input: Seq<char>,
    format: Seq<char>,
    formats: Set<Seq<char>>,
) -> Option<TranscoderError> {
    if !formats.contains(format) {
        Some(TranscoderError::InvalidCommand)
    } else if with_extension(input, "."@ + format) is None {
        Some(TranscoderError::NoExtension)
    } else {
        None
    }
}

/// Accepts the path of the input file if a file is there. `found` is what
/// the file system said: `None` where it could not tell.
pub fn ask_input_file(path: String, found: Option<bool>) -> (r: Result<String, TranscoderError>)
    ensures
        match found {
            Some(true) => r == Ok::<String, TranscoderError>(path),
            Some(false) => r == Err::<String, TranscoderError>(TranscoderError::FileNotFound(path)),
            None => r == Err::<String, TranscoderError>(
                TranscoderError::CouldNotCheckFileExistence(path),
            ),
        },
{
    match found {
        Some(found) => match found {
            true => Ok(path),
            false => Err(TranscoderError::FileNotFound(path)),
        },
        None => Err(TranscoderError::CouldNotCheckFileExistence(path)),
    }
}

/// Accepts the format of the output file if the tool supports it.
pub fn ask_output_format(format: String, formats: &SupportedFormatSet) -> (r: Result<
    String,
    TranscoderError,
>)
    ensures
        formats@.contains(format@) ==> r == Ok::<String, TranscoderError>(format),
        !formats@.contains(format@) ==> r == Err::<String, TranscoderError>(
            TranscoderError::InvalidCommand,
        ),
{
    match has_valid_extension(format.as_str(), formats) {
        true => Ok(format),
        false => Err(TranscoderError::InvalidCommand),
    }
}

/// The input file, the output file and the extension of the output file, for
/// a request to write the file at `input` in the format `format`. The output
/// file differs from the input file in its extension alone, which is a dot
/// and the format.
pub fn ask_input_and_output_file(input: String, format: String, formats: &SupportedFormatSet) -> (r:
    Result<(String, String, String), TranscoderError>)
    ensures
        match output_file_error(input@, format@, formats@) {
            Some(error) => r == Err::<(String, String, String), TranscoderError>(error),
            None => r matches Ok(files) && files.0 == input && Some(files.1@) == with_extension(
                input@,
                "."@ + format@,
            ) && files.2@ == "."@ + format@,
        },
{
    let format = match ask_output_format(format, formats) {
        Ok(format) => format,
        Err(error) => {
            return Err(error);
        },
    };
    let format = String::from_str(".").concat(format.as_str());
    let output = match change_file_extension(input.as_str(), format.as_str()) {
        Ok(output) => output,
        Err(_) => {
            return Err(TranscoderError::NoExtension);
        },
    };
    Ok((input, output, format))
}

} // verus!
