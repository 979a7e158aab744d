//! The four operations that the user can ask for. Each takes what was
//! collected from the user and from the tool, and gives the one command to
//! run or the reason why there is none.

use crate::command::ffmpeg_command::{
    builder,
    CommandType,
    FfmpegCommand,
    FfmpegCommandBuilderError,
    FfmpegCommandView,
};
use crate::error::TranscoderError;
use crate::media::codecs::{AudioCodec, CodecAsString, VideoCodec};
use crate::media::video_check::SupportedFormatSet;
use crate::number::{parse_i16, parse_i16_spec};
use crate::string_utils::{
    change_file_extension,
    file_extension,
    find_file_extension,
    lemma_extension_of_suffix,
    lemma_with_extension,
    with_extension,
};
use crate::text::{is_blank, is_blank_text, same_text};
use crate::user_input::{ask_input_and_output_file, output_file_error};
use vstd::prelude::*;

verus! {

/// Why a file is left as it is when it was to be prepared for upload.
pub const ALREADY_OPTIMIZED: &'static str =
    "The file already has recommended codecs and mp4 format.";

/// What the user answered when asked for the parts of a free-form command.
/// Each answer is the line as it was read, without the whitespace around it;
/// the last four may be left blank.
#[derive(Debug)]
pub struct MultiTaskAnswers {
    pub video_codec: String,
    pub audio_codec: String,
    pub scale: String,
    pub audio_bitrate: String,
    pub preset: String,
    pub crf: String,
}

/// A command without any of the optional parameters.
pub open spec fn plain_command(
    command_type: CommandType,
    input_file: Seq<char>,
    output_file: Seq<char>,
    audio_codec: AudioCodec,
    video_codec: VideoCodec,
) -> FfmpegCommandView {
    FfmpegCommandView {
        command_type,
        input_file,
        output_file,
        audio_codec,
        video_codec,
        scale: None,
        audio_bitrate: None,
        preset: None,
        crf: None,
    }
}

/// The error, if any, that stops a change of container: what stops the choice
/// of the output file, or else an input that already has the extension asked
/// for.
pub open spec fn convert_error(
    input: Seq<char>,
    format: Seq<char>,
    formats: Set<Seq<char>>,
) -> Option<TranscoderError> {
    if output_file_error(input, format, formats) is Some {
        output_file_error(input, format, formats)
    } else if file_extension(input) == Some("."@ + format) {
        Some(TranscoderError::SameInputAndOutput)
    } else {
        None
    }
}

/// Whether the codecs found in a file are the recommended ones: the
/// recommended audio codec and one of the two well-known video codecs.
pub open spec fn has_recommended_codecs(audio_codec: Seq<char>, video_codec: Seq<char>) -> bool {
    &&& audio_codec == AudioCodec::Aac.token()
    &&& (video_codec == VideoCodec::H264.token() || video_codec == VideoCodec::Libx264.token())
}

/// Whether a file is already as an upload wants it: recommended codecs in an
/// mp4 container.
pub open spec fn already_optimized(
    input: Seq<char>,
    audio_codec: Seq<char>,
    video_codec: Seq<char>,
) -> bool {
    has_recommended_codecs(audio_codec, video_codec) && file_extension(input) == Some(".mp4"@)
}

/// The number in an answer that may be left blank: none for a blank answer and
/// for one that is no 16-bit signed integer.
pub open spec fn optional_number(answer: Seq<char>) -> Option<i16> {
    if is_blank(answer) {
        None
    } else {
        parse_i16_spec(answer)
    }
}

/// The text of an answer that may be left blank.
pub open spec fn optional_text(answer: Seq<char>) -> Option<Seq<char>> {
    if is_blank(answer) {
        None
    } else {
        Some(answer)
    }
}

/// Whether an answer was meant as a number and is none: it is not blank and is
/// no 16-bit signed integer.
pub open spec fn is_rejected_number(answer: Seq<char>) -> bool {
    !is_blank(answer) && parse_i16_spec(answer) is None
}

/// The command of a free-form request.
pub open spec fn multi_task_command(
    input: Seq<char>,
    output: Seq<char>,
    answers: MultiTaskAnswers,
) -> FfmpegCommandView {
    FfmpegCommandView {
        command_type: CommandType::MultiTask,
        input_file: input,
        output_file: output,
        audio_codec: AudioCodec::Custom(answers.audio_codec),
        video_codec: VideoCodec::Custom(answers.video_codec),
        scale: optional_number(answers.scale@),
        audio_bitrate: optional_number(answers.audio_bitrate@),
        preset: optional_text(answers.preset@),
        crf: optional_number(answers.crf@),
    }
}

/// A file with the recommended codecs whose path ends in `.mp4` is already
/// optimized: asked to prepare it for upload, `youtube_optimized` gives the
/// abort error and no command.
pub proof fn lemma_recommended_mp4_is_already_optimized(
    input: Seq<char>,
    audio_codec: Seq<char>,
    video_codec: Seq<char>,
)
    requires
        audio_codec == "aac"@,
        video_codec == "h264"@ || video_codec == "libx264"@,
        ".mp4"@.is_suffix_of(input),
    ensures
        already_optimized(input, audio_codec, video_codec),
        with_extension(input, "_yt.mp4"@) is Some,
{
    reveal_strlit(".mp4");
    let ending = seq!['m', 'p', '4'];
    let stem = input.take(input.len() - 4);
    assert(".mp4"@ =~= seq!['.'] + ending);
    let tail = input.subrange(input.len() - 4, input.len() as int);
    assert(tail == seq!['.'] + ending);
    assert(tail[0] == '.' && tail[1] == 'm' && tail[2] == 'p' && tail[3] == '4');
    assert(input[input.len() - 4] == tail[0]);
    assert(input[input.len() - 3] == tail[1]);
    assert(input[input.len() - 2] == tail[2]);
    assert(input[input.len() - 1] == tail[3]);
    assert(input =~= stem + seq!['.'] + ending);
    lemma_extension_of_suffix(stem, ending);
}

/// Where a change of container is accepted and the format holds no dot, the
/// output file has the extension asked for, and the input file has another.
pub proof fn lemma_convert_changes_extension(
    input: Seq<char>,
    format: Seq<char>,
    formats: Set<Seq<char>>,
)
    requires
        convert_error(input, format, formats) is None,
        !format.contains('.'),
    ensures
        file_extension(with_extension(input, "."@ + format)->0) == Some("."@ + format),
        file_extension(with_extension(input, "."@ + format)->0) != file_extension(input),
{
    reveal_strlit(".");
    assert("."@ =~= seq!['.']);
    crate::string_utils::lemma_last_index_of(input, '.');
    lemma_with_extension(input, format);
}

/// Reads the number in an answer that may be left blank.
pub fn read_optional_number(answer: &str) -> (r: Option<i16>)
    ensures
        r == optional_number(answer@),
{
    if is_blank_text(answer) {
        None
    } else {
        parse_i16(answer)
    }
}

/// Whether an answer is to be reported as an invalid number.
pub fn rejects_number(answer: &str) -> (r: bool)
    ensures
        r == is_rejected_number(answer@),
{
    !is_blank_text(answer) && parse_i16(answer).is_none()
}

/// Changes the container of the file at `input` to `format`, leaving the
/// streams as they are.
pub fn convert(input: String, format: String, formats: &SupportedFormatSet) -> (r: Result<
    FfmpegCommand,
    TranscoderError,
>)
    ensures
        match convert_error(input@, format@, formats@) {
            Some(error) => r == Err::<FfmpegCommand, TranscoderError>(error),
            None => r matches Ok(command) && command@ == plain_command(
                CommandType::ConvertFormat,
                input@,
                with_extension(input@, "."@ + format@)->0,
                AudioCodec::Aac,
                VideoCodec::Libx264,
            ),
        },
{
    let (input, output, format) = match ask_input_and_output_file(input, format, formats) {
        Ok(files) => files,
        Err(error) => {
            return Err(error);
        },
    };
    match find_file_extension(input.as_str()) {
        Ok(extension) => {
            if same_text(extension.as_str(), format.as_str()) {
                return Err(TranscoderError::SameInputAndOutput);
            }
        },
        Err(_) => {},
    }
    let cmd = builder().command_type(CommandType::ConvertFormat).input_file(
        input.as_str(),
    ).output_file(output.as_str()).audio_codec(AudioCodec::default()).video_codec(
        VideoCodec::default(),
    ).build();

    unwrap_ffmpeg_command(cmd)
}

/// Compresses the file at `input` into an mp4 file beside it.
pub fn compress(input: String) -> (r: Result<FfmpegCommand, TranscoderError>)
    ensures
        match with_extension(input@, "_compressed.mp4"@) {
            Some(output) => r matches Ok(command) && command@ == plain_command(
                CommandType::Compress,
                input@,
                output,
                AudioCodec::Aac,
                VideoCodec::Libx264,
            ),
            None => r == Err::<FfmpegCommand, TranscoderError>(TranscoderError::NoExtension),
        },
{
    let output = match change_file_extension(input.as_str(), "_compressed.mp4") {
        Ok(output) => output,
        Err(_) => {
            return Err(TranscoderError::NoExtension);
        },
    };
    let cmd = builder().command_type(CommandType::Compress).input_file(
        input.as_str(),
    ).output_file(output.as_str()).audio_codec(AudioCodec::Aac).video_codec(
        VideoCodec::Libx264,
    ).build();

    unwrap_ffmpeg_command(cmd)
}

/// Prepares the file at `input` for upload, unless it is already as an upload
/// wants it. `audio_codec` and `video_codec` are the codecs that were found in
/// the file, each empty where none was found.
pub fn youtube_optimized(input: String, audio_codec: &str, video_codec: &str) -> (r: Result<
    FfmpegCommand,
    TranscoderError,
>)
    ensures
        match with_extension(input@, "_yt.mp4"@) {
            Some(output) => if already_optimized(input@, audio_codec@, video_codec@) {
                r matches Err(TranscoderError::AbortTranscoding(reason)) && reason@
                    == ALREADY_OPTIMIZED@
            } else {
                r matches Ok(command) && command@ == plain_command(
                    CommandType::YoutubeOptimized,
                    input@,
                    output,
                    AudioCodec::Aac,
                    VideoCodec::Libx264,
                )
            },
            None => r == Err::<FfmpegCommand, TranscoderError>(TranscoderError::NoExtension),
        },
{
    let h264 = same_text(VideoCodec::H264.as_string().as_str(), video_codec);
    let libx264 = same_text(VideoCodec::Libx264.as_string().as_str(), video_codec);

    let video = h264 || libx264;
    let audio = same_text(AudioCodec::Aac.as_string().as_str(), audio_codec);
    let ext = match find_file_extension(input.as_str()) {
        Ok(ext) => ext,
        Err(_) => {
            return Err(TranscoderError::NoExtension);
        },
    };
    let ext = same_text(ext.as_str(), ".mp4");

    if audio && video && ext {
        return Err(TranscoderError::AbortTranscoding(ALREADY_OPTIMIZED.to_owned()));
    }
    let output = match change_file_extension(input.as_str(), "_yt.mp4") {
        Ok(output) => output,
        Err(_) => {
            return Err(TranscoderError::NoExtension);
        },
    };
    let cmd = builder().command_type(CommandType::YoutubeOptimized).input_file(
        input.as_str(),
    ).output_file(output.as_str()).audio_codec(AudioCodec::Aac).video_codec(
        VideoCodec::Libx264,
    ).build();

    unwrap_ffmpeg_command(cmd)
}

/// Puts together a free-form command on the file at `input`, to be written in
/// the format `format`. Of the four optional parameters, each one is part of
/// the command if its answer is not blank and, for a number, is one.
pub fn multi_task(
    input: String,
    format: String,
    formats: &SupportedFormatSet,
    answers: MultiTaskAnswers,
) -> (r: Result<FfmpegCommand, TranscoderError>)
    ensures
        match output_file_error(input@, format@, formats@) {
            Some(error) => r == Err::<FfmpegCommand, TranscoderError>(error),
            None => r matches Ok(command) && command@ == multi_task_command(
                input@,
                with_extension(input@, "."@ + format@)->0,
                answers,
            ),
        },
{
    let (input, output, _) = match ask_input_and_output_file(input, format, formats) {
        Ok(files) => files,
        Err(error) => {
            return Err(error);
        },
    };
    let scale = read_optional_number(answers.scale.as_str());
    let audio_bitrate = read_optional_number(answers.audio_bitrate.as_str());
    let crf = read_optional_number(answers.crf.as_str());
    let keep_preset = !is_blank_text(answers.preset.as_str());

    let mut cmd = builder();
    cmd.command_type(CommandType::MultiTask).input_file(input.as_str()).output_file(
        output.as_str(),
    ).video_codec(VideoCodec::Custom(answers.video_codec)).audio_codec(
        AudioCodec::Custom(answers.audio_codec),
    );
    if let Some(scale) = scale {
        cmd.scale(scale);
    }
    if let Some(audio_bitrate) = audio_bitrate {
        cmd.audio_bitrate(audio_bitrate);
    }
    if keep_preset {
        cmd.preset(answers.preset);
    }
    if let Some(crf) = crf {
        cmd.crf(crf);
    }
    unwrap_ffmpeg_command(cmd.build())
}

/// The command that a builder gave, or the error that stands for a builder
/// that could not give one.
pub fn unwrap_ffmpeg_command(cmd: Result<FfmpegCommand, FfmpegCommandBuilderError>) -> (r: Result<
    FfmpegCommand,
    TranscoderError,
>)
    ensures
        match cmd {
            Ok(command) => r == Ok::<FfmpegCommand, TranscoderError>(command),
            Err(_) => r == Err::<FfmpegCommand, TranscoderError>(TranscoderError::InvalidCommand),
        },
{
    match cmd {
        Ok(cmd) => Ok(cmd),
        Err(_) => Err(TranscoderError::InvalidCommand),
    }
}

} // verus!
