//! A transcoding command: what it holds, how it is built, and the command line
//! that it stands for.

use crate::media::codecs::{AudioCodec, CodecAsString, VideoCodec};
use crate::number::{decimal, decimal_string};
use crate::string_utils::{quoted, wrap_with_quotes_if_whitespace};
use crate::text::{contains_text, lemma_not_across, lemma_occurs_within, occurs_at};
use vstd::prelude::*;

verus! {

/// The operation that a command performs.
#[derive(Debug, Clone, Copy, PartialEq, Eq, Structural)]
pub enum CommandType {
    Compress,
    ConvertFormat,
    YoutubeOptimized,
    MultiTask,
}

impl Default for CommandType {
    fn default() -> (r: Self)
        ensures
            r == CommandType::Compress,
    {
        CommandType::Compress
    }
}

/// One transcoding operation on one input file, ready to be written out as a
/// command line.
#[derive(Debug)]
pub struct FfmpegCommand {
    command_type: CommandType,
    input_file: String,
    output_file: String,
    audio_codec: AudioCodec,
    video_codec: VideoCodec,
    scale: Option<i16>,
    audio_bitrate: Option<i16>,
    preset: Option<String>,
    crf: Option<i16>,
}

/// What a command holds, with each text as a sequence of characters.
pub struct FfmpegCommandView {
    pub command_type: CommandType,
    pub input_file: Seq<char>,
    pub output_file: Seq<char>,
    pub audio_codec: AudioCodec,
    pub video_codec: VideoCodec,
    pub scale: Option<i16>,
    pub audio_bitrate: Option<i16>,
    pub preset: Option<Seq<char>>,
    pub crf: Option<i16>,
}

/// The view of a text that may be absent.
pub open spec fn text_view(text: Option<String>) -> Option<Seq<char>> {
    match text {
        Some(t) => Some(t@),
        None => None,
    }
}

impl View for FfmpegCommand {
    type V = FfmpegCommandView;

    closed spec fn view(&self) -> FfmpegCommandView {
        FfmpegCommandView {
            command_type: self.command_type,
            input_file: self.input_file@,
            output_file: self.output_file@,
            audio_codec: self.audio_codec,
            video_codec: self.video_codec,
            scale: self.scale,
            audio_bitrate: self.audio_bitrate,
            preset: text_view(self.preset),
            crf: self.crf,
        }
    }
}

/// The flags that select the video and the audio codec.
pub open spec fn codec_selection(video: Seq<char>, audio: Seq<char>) -> Seq<char> {
    " -c:v "@ + video + " -c:a "@ + audio
}

/// The start of the command line: the tool, the input file and, unless the
/// operation only changes the container, the codecs.
pub open spec fn command_head(c: FfmpegCommandView) -> Seq<char> {
    "ffmpeg -i "@ + quoted(c.input_file) + if c.command_type is ConvertFormat {
        Seq::<char>::empty()
    } else {
        codec_selection(c.video_codec.token(), c.audio_codec.token())
    }
}

/// The flag that scales the video to a width, keeping its proportions.
pub open spec fn scale_flag(scale: Option<i16>) -> Seq<char> {
    match scale {
        Some(width) => " -vf \"scale="@ + decimal(width as int) + ":-2\""@,
        None => Seq::empty(),
    }
}

/// The flag that sets the audio bitrate, in kilobits per second.
pub open spec fn audio_bitrate_flag(audio_bitrate: Option<i16>) -> Seq<char> {
    match audio_bitrate {
        Some(rate) => " -b:a "@ + decimal(rate as int) + "k"@,
        None => Seq::empty(),
    }
}

/// The flag that names the encoding preset.
pub open spec fn preset_flag(preset: Option<Seq<char>>) -> Seq<char> {
    match preset {
        Some(name) => " -preset "@ + name,
        None => Seq::empty(),
    }
}

/// The flag that sets the constant rate factor.
pub open spec fn crf_flag(crf: Option<i16>) -> Seq<char> {
    match crf {
        Some(factor) => " -crf "@ + decimal(factor as int),
        None => Seq::empty(),
    }
}

/// The flags that belong to the operation itself.
pub open spec fn operation_flags(c: FfmpegCommandView) -> Seq<char> {
    match c.command_type {
        CommandType::ConvertFormat => Seq::empty(),
        CommandType::Compress => " -vf \"scale=1280:-2\" -preset veryslow -crf 24"@,
        CommandType::YoutubeOptimized => " -crf 23 -preset medium -b:a 320k -qscale 0"@,
        CommandType::MultiTask => scale_flag(c.scale) + audio_bitrate_flag(c.audio_bitrate)
            + preset_flag(c.preset) + crf_flag(c.crf),
    }
}

/// The command line of a command: head, flags of the operation, and the output
/// file after one space. A path that holds a space stands between double
/// quotes.
pub open spec fn command_line(c: FfmpegCommandView) -> Seq<char> {
    command_head(c) + operation_flags(c) + " "@ + quoted(c.output_file)
}

/// Whether a command line selects a codec: every flag that does begins with
/// `-c:`.
pub open spec fn has_codec_flag(line: Seq<char>) -> bool {
    contains_text(line, "-c:"@)
}

/// The command line depends on nothing but the operation, the two paths, the
/// names of the two codecs as the tool knows them, and the four optional
/// parameters: commands that agree in these have the same command line, and
/// so the same bytes.
pub proof fn lemma_command_line_is_determined(a: FfmpegCommandView, b: FfmpegCommandView)
    requires
        a.command_type == b.command_type,
        a.input_file == b.input_file,
        a.output_file == b.output_file,
        a.audio_codec.token() == b.audio_codec.token(),
        a.video_codec.token() == b.video_codec.token(),
        a.scale == b.scale,
        a.audio_bitrate == b.audio_bitrate,
        a.preset == b.preset,
        a.crf == b.crf,
    ensures
        command_line(a) == command_line(b),
        vstd::utf8::encode_utf8(command_line(a)) == vstd::utf8::encode_utf8(command_line(b)),
{
}

/// What stands in a quoted path, and holds no double quote, stands in the path.
proof fn lemma_within_quotes(path: Seq<char>, needle: Seq<char>)
    requires
        needle.len() > 0,
        !needle.contains('"'),
        contains_text(quoted(path), needle),
    ensures
        contains_text(path, needle),
{
    if path.contains(' ') {
        let empty = Seq::<char>::empty();
        assert(quoted(path) =~= (seq!['"'] + path) + seq!['"'] + empty);
        lemma_not_across(seq!['"'] + path, '"', empty, needle);
        assert(!contains_text(empty, needle));
        assert(seq!['"'] + path =~= empty + seq!['"'] + path);
        lemma_not_across(empty, '"', path, needle);
    }
}

/// The command line that only changes the container selects no codec, as long
/// as neither path holds `-c:` itself.
pub proof fn lemma_convert_format_selects_no_codec(c: FfmpegCommandView)
    requires
        c.command_type is ConvertFormat,
        !contains_text(c.input_file, "-c:"@),
        !contains_text(c.output_file, "-c:"@),
    ensures
        !has_codec_flag(command_line(c)),
{
    let needle = "-c:"@;
    let line = command_line(c);
    reveal_strlit("-c:");
    reveal_strlit(" ");
    reveal_strlit("ffmpeg -i ");
    assert(needle =~= seq!['-', 'c', ':']);
    assert(!needle.contains(' '));
    assert(!needle.contains('"'));
    if contains_text(line, needle) {
        let tool = seq!['f', 'f', 'm', 'p', 'e', 'g', ' ', '-', 'i'];
        let input = quoted(c.input_file);
        let output = quoted(c.output_file);
        assert("ffmpeg -i "@ =~= tool + seq![' ']);
        assert(line =~= (tool + seq![' '] + input) + seq![' '] + output);
        lemma_not_across(tool + seq![' '] + input, ' ', output, needle);
        if contains_text(output, needle) {
            lemma_within_quotes(c.output_file, needle);
        } else {
            lemma_not_across(tool, ' ', input, needle);
            if contains_text(input, needle) {
                lemma_within_quotes(c.input_file, needle);
            } else {
                let at = choose|at: int| occurs_at(tool, needle, at);
                assert(tool.subrange(at, at + 3)[0] == needle[0]);
                assert(tool[at] == '-');
            }
        }
    }
}

/// The command line of every other operation selects both codecs, by the names
/// that the tool knows them by.
pub proof fn lemma_other_operations_select_codecs(c: FfmpegCommandView)
    requires
        !(c.command_type is ConvertFormat),
    ensures
        contains_text(
            command_line(c),
            codec_selection(c.video_codec.token(), c.audio_codec.token()),
        ),
        has_codec_flag(command_line(c)),
{
    let selection = codec_selection(c.video_codec.token(), c.audio_codec.token());
    let before = "ffmpeg -i "@ + quoted(c.input_file);
    let after = operation_flags(c) + " "@ + quoted(c.output_file);
    assert(command_line(c) =~= before + selection + after);
    assert(selection.subrange(0, selection.len() as int) =~= selection);
    lemma_occurs_within(before, selection, after, selection, 0);
    reveal_strlit("-c:");
    reveal_strlit(" -c:v ");
    assert(selection.subrange(1, 4) =~= "-c:"@);
    lemma_occurs_within(before, selection, after, "-c:"@, 1);
}

/// The command line of a free-form command holds, between the codecs and the
/// output file, one flag for each optional parameter that is present, in the
/// order scale, audio bitrate, preset, constant rate factor, and nothing for
/// one that is absent.
pub proof fn lemma_multi_task_flags(c: FfmpegCommandView)
    requires
        c.command_type is MultiTask,
    ensures
        command_line(c) == "ffmpeg -i "@ + quoted(c.input_file) + codec_selection(
            c.video_codec.token(),
            c.audio_codec.token(),
        ) + scale_flag(c.scale) + audio_bitrate_flag(c.audio_bitrate) + preset_flag(c.preset)
            + crf_flag(c.crf) + " "@ + quoted(c.output_file),
        c.scale is None <==> scale_flag(c.scale).len() == 0,
        c.audio_bitrate is None <==> audio_bitrate_flag(c.audio_bitrate).len() == 0,
        c.preset is None <==> preset_flag(c.preset).len() == 0,
        c.crf is None <==> crf_flag(c.crf).len() == 0,
{
    reveal_strlit(" -vf \"scale=");
    reveal_strlit(" -b:a ");
    reveal_strlit(" -preset ");
    reveal_strlit(" -crf ");
    assert(command_line(c) =~= "ffmpeg -i "@ + quoted(c.input_file) + codec_selection(
        c.video_codec.token(),
        c.audio_codec.token(),
    ) + scale_flag(c.scale) + audio_bitrate_flag(c.audio_bitrate) + preset_flag(c.preset)
        + crf_flag(c.crf) + " "@ + quoted(c.output_file));
}

/// The flags that select a video codec and an audio codec, each by the name
/// that the tool knows it by.
pub fn codec_flags(video_token: &str, audio_token: &str) -> (r: String)
    ensures
        r@ == codec_selection(video_token@, audio_token@),
{
    String::from_str(" -c:v ").concat(video_token).concat(" -c:a ").concat(audio_token)
}

fn scale_flag_text(scale: Option<i16>) -> (r: String)
    ensures
        r@ == scale_flag(scale),
{
    match scale {
        Some(width) => String::from_str(" -vf \"scale=").concat(
            decimal_string(width as i64).as_str(),
        ).concat(":-2\""),
        None => String::new(),
    }
}

fn audio_bitrate_flag_text(audio_bitrate: Option<i16>) -> (r: String)
    ensures
        r@ == audio_bitrate_flag(audio_bitrate),
{
    match audio_bitrate {
        Some(rate) => String::from_str(" -b:a ").concat(
            decimal_string(rate as i64).as_str(),
        ).concat("k"),
        None => String::new(),
    }
}

fn preset_flag_text(preset: &Option<String>) -> (r: String)
    ensures
        r@ == preset_flag(text_view(*preset)),
{
    match preset {
        Some(name) => String::from_str(" -preset ").concat(name.as_str()),
        None => String::new(),
    }
}

fn crf_flag_text(crf: Option<i16>) -> (r: String)
    ensures
        r@ == crf_flag(crf),
{
    match crf {
        Some(factor) => String::from_str(" -crf ").concat(decimal_string(factor as i64).as_str()),
        None => String::new(),
    }
}

impl FfmpegCommand {
    /// The command line that runs this command.
    pub fn as_cmd_string(&self) -> (r: String)
        ensures
            r@ == command_line(self@),
    {
        let head = self.cmd_with_codecs();
        let flags = self.operation_flags_text();
        let output = wrap_with_quotes_if_whitespace(self.output_file.as_str());
        head.concat(flags.as_str()).concat(" ").concat(output.as_str())
    }

    /// The operation that the command performs.
    pub fn command_type(&self) -> (r: CommandType)
        ensures
            r == self@.command_type,
    {
        self.command_type
    }

    /// The path of the file that is read.
    pub fn input_file(&self) -> (r: &str)
        ensures
            r@ == self@.input_file,
    {
        self.input_file.as_str()
    }

    /// The path of the file that is written.
    pub fn output_file(&self) -> (r: &str)
        ensures
            r@ == self@.output_file,
    {
        self.output_file.as_str()
    }

    /// The audio codec of the output.
    pub fn audio_codec(&self) -> (r: &AudioCodec)
        ensures
            *r == self@.audio_codec,
    {
        &self.audio_codec
    }

    /// The video codec of the output.
    pub fn video_codec(&self) -> (r: &VideoCodec)
        ensures
            *r == self@.video_codec,
    {
        &self.video_codec
    }

    /// The width to scale the video to, if any.
    pub fn scale(&self) -> (r: Option<i16>)
        ensures
            r == self@.scale,
    {
        self.scale
    }

    /// The audio bitrate in kilobits per second, if any.
    pub fn audio_bitrate(&self) -> (r: Option<i16>)
        ensures
            r == self@.audio_bitrate,
    {
        self.audio_bitrate
    }

    /// The name of the encoding preset, if any.
    pub fn preset(&self) -> (r: Option<&str>)
        ensures
            r is Some == self@.preset is Some,
            r is Some ==> r->0@ == self@.preset->0,
    {
        match &self.preset {
            Some(name) => Some(name.as_str()),
            None => None,
        }
    }

    /// The constant rate factor, if any.
    pub fn crf(&self) -> (r: Option<i16>)
        ensures
            r == self@.crf,
    {
        self.crf
    }

    /// The start of the command line, up to and including the codecs.
    pub fn cmd_with_codecs(&self) -> (r: String)
        ensures
            r@ == command_head(self@),
    {
        let input = wrap_with_quotes_if_whitespace(self.input_file.as_str());
        let cmd = String::from_str("ffmpeg -i ").concat(input.as_str());
        match self.command_type {
            CommandType::ConvertFormat => {
                assert(cmd@ + Seq::<char>::empty() =~= cmd@);
                cmd
            },
            _ => {
                let video_codec = self.video_codec.as_string();
                let audio_codec = self.audio_codec.as_string();
                cmd.concat(codec_flags(video_codec.as_str(), audio_codec.as_str()).as_str())
            },
        }
    }

    fn operation_flags_text(&self) -> (r: String)
        ensures
            r@ == operation_flags(self@),
    {
        match self.command_type {
            CommandType::ConvertFormat => String::new(),
            CommandType::Compress => String::from_str(
                " -vf \"scale=1280:-2\" -preset veryslow -crf 24",
            ),
            CommandType::YoutubeOptimized => String::from_str(
                " -crf 23 -preset medium -b:a 320k -qscale 0",
            ),
            CommandType::MultiTask => scale_flag_text(self.scale).concat(
                audio_bitrate_flag_text(self.audio_bitrate).as_str(),
            ).concat(preset_flag_text(&self.preset).as_str()).concat(
                crf_flag_text(self.crf).as_str(),
            ),
        }
    }
}

/// Collects the parts of a command one by one. The operation, the two files
/// and the two codecs must be given; scale, audio bitrate, preset and constant
/// rate factor are absent unless given.
#[derive(Debug)]
pub struct FfmpegCommandBuilder {
    command_type: Option<CommandType>,
    input_file: Option<String>,
    output_file: Option<String>,
    audio_codec: Option<AudioCodec>,
    video_codec: Option<VideoCodec>,
    scale: Option<i16>,
    audio_bitrate: Option<i16>,
    preset: Option<String>,
    crf: Option<i16>,
}

/// What a builder has been given so far.
pub struct FfmpegCommandBuilderView {
    pub command_type: Option<CommandType>,
    pub input_file: Option<Seq<char>>,
    pub output_file: Option<Seq<char>>,
    pub audio_codec: Option<AudioCodec>,
    pub video_codec: Option<VideoCodec>,
    pub scale: Option<i16>,
    pub audio_bitrate: Option<i16>,
    pub preset: Option<Seq<char>>,
    pub crf: Option<i16>,
}

/// Why a builder could not build its command.
#[derive(Debug)]
pub enum FfmpegCommandBuilderError {
    /// A part that must be given was not; the text names it.
    UninitializedField(&'static str),
}

impl View for FfmpegCommandBuilder {
    type V = FfmpegCommandBuilderView;

    closed spec fn view(&self) -> FfmpegCommandBuilderView {
        FfmpegCommandBuilderView {
            command_type: self.command_type,
            input_file: text_view(self.input_file),
            output_file: text_view(self.output_file),
            audio_codec: self.audio_codec,
            video_codec: self.video_codec,
            scale: self.scale,
            audio_bitrate: self.audio_bitrate,
            preset: text_view(self.preset),
            crf: self.crf,
        }
    }
}

impl FfmpegCommandBuilderView {
    /// A builder that has been given nothing.
    pub open spec fn empty() -> Self {
        FfmpegCommandBuilderView {
            command_type: None,
            input_file: None,
            output_file: None,
            audio_codec: None,
            video_codec: None,
            scale: None,
            audio_bitrate: None,
            preset: None,
            crf: None,
        }
    }

    /// The name of the first part that must be given and was not: operation,
    /// input file, output file, audio codec, video codec, in this order.
    pub open spec fn missing_field(self) -> Option<Seq<char>> {
        if self.command_type is None {
            Some("command_type"@)
        } else if self.input_file is None {
            Some("input_file"@)
        } else if self.output_file is None {
            Some("output_file"@)
        } else if self.audio_codec is None {
            Some("audio_codec"@)
        } else if self.video_codec is None {
            Some("video_codec"@)
        } else {
            None
        }
    }

    /// The command that holds what the builder was given.
    pub open spec fn command(self) -> FfmpegCommandView
        recommends
            self.missing_field() is None,
    {
        FfmpegCommandView {
            command_type: self.command_type->0,
            input_file: self.input_file->0,
            output_file: self.output_file->0,
            audio_codec: self.audio_codec->0,
            video_codec: self.video_codec->0,
            scale: self.scale,
            audio_bitrate: self.audio_bitrate,
            preset: self.preset,
            crf: self.crf,
        }
    }
}

/// A builder that has been given nothing yet.
pub fn builder() -> (r: FfmpegCommandBuilder)
    ensures
        r@ == FfmpegCommandBuilderView::empty(),
{
    FfmpegCommandBuilder::default()
}

impl Default for FfmpegCommandBuilder {
    fn default() -> (r: Self)
        ensures
            r@ == FfmpegCommandBuilderView::empty(),
    {
        FfmpegCommandBuilder {
            command_type: None,
            input_file: None,
            output_file: None,
            audio_codec: None,
            video_codec: None,
            scale: None,
            audio_bitrate: None,
            preset: None,
            crf: None,
        }
    }
}

impl FfmpegCommandBuilder {
    /// Gives the operation.
    pub fn command_type(&mut self, value: CommandType) -> (r: &mut Self)
        ensures
            r@ == (FfmpegCommandBuilderView { command_type: Some(value), ..old(self)@ }),
            *final(self) == *final(r),
    {
        self.command_type = Some(value);
        self
    }

    /// Gives the path of the file to read.
    pub fn input_file(&mut self, value: &str) -> (r: &mut Self)
        ensures
            r@ == (FfmpegCommandBuilderView { input_file: Some(value@), ..old(self)@ }),
            *final(self) == *final(r),
    {
        self.input_file = Some(value.to_owned());
        self
    }

    /// Gives the path of the file to write.
    pub fn output_file(&mut self, value: &str) -> (r: &mut Self)
        ensures
            r@ == (FfmpegCommandBuilderView { output_file: Some(value@), ..old(self)@ }),
            *final(self) == *final(r),
    {
        self.output_file = Some(value.to_owned());
        self
    }

    /// Gives the audio codec.
    pub fn audio_codec(&mut self, value: AudioCodec) -> (r: &mut Self)
        ensures
            r@ == (FfmpegCommandBuilderView { audio_codec: Some(value), ..old(self)@ }),
            *final(self) == *final(r),
    {
        self.audio_codec = Some(value);
        self
    }

    /// Gives the video codec.
    pub fn video_codec(&mut self, value: VideoCodec) -> (r: &mut Self)
        ensures
            r@ == (FfmpegCommandBuilderView { video_codec: Some(value), ..old(self)@ }),
            *final(self) == *final(r),
    {
        self.video_codec = Some(value);
        self
    }

    /// Gives the width to scale the video to.
    pub fn scale(&mut self, value: i16) -> (r: &mut Self)
        ensures
            r@ == (FfmpegCommandBuilderView { scale: Some(value), ..old(self)@ }),
            *final(self) == *final(r),
    {
        self.scale = Some(value);
        self
    }

    /// Gives the audio bitrate, in kilobits per second.
    pub fn audio_bitrate(&mut self, value: i16) -> (r: &mut Self)
        ensures
            r@ == (FfmpegCommandBuilderView { audio_bitrate: Some(value), ..old(self)@ }),
            *final(self) == *final(r),
    {
        self.audio_bitrate = Some(value);
        self
    }

    /// Gives the name of the encoding preset.
    pub fn preset(&mut self, value: String) -> (r: &mut Self)
        ensures
            r@ == (FfmpegCommandBuilderView { preset: Some(value@), ..old(self)@ }),
            *final(self) == *final(r),
    {
        self.preset = Some(value);
        self
    }

    /// Gives the constant rate factor.
    pub fn crf(&mut self, value: i16) -> (r: &mut Self)
        ensures
            r@ == (FfmpegCommandBuilderView { crf: Some(value), ..old(self)@ }),
            *final(self) == *final(r),
    {
        self.crf = Some(value);
        self
    }

    /// The command that holds what was given, or the name of the first part
    /// that is missing.
    pub fn build(&self) -> (r: Result<FfmpegCommand, FfmpegCommandBuilderError>)
        ensures
            match self@.missing_field() {
                Some(name) => r matches Err(FfmpegCommandBuilderError::UninitializedField(field))
                    && field@ == name,
                None => r matches Ok(command) && command@ == self@.command(),
            },
    {
        let command_type = match self.command_type {
            Some(value) => value,
            None => {
                return Err(FfmpegCommandBuilderError::UninitializedField("command_type"));
            },
        };
        let input_file = match &self.input_file {
            Some(value) => value.clone(),
            None => {
                return Err(FfmpegCommandBuilderError::UninitializedField("input_file"));
            },
        };
        let output_file = match &self.output_file {
            Some(value) => value.clone(),
            None => {
                return Err(FfmpegCommandBuilderError::UninitializedField("output_file"));
            },
        };
        let audio_codec = match &self.audio_codec {
            Some(value) => value.clone(),
            None => {
                return Err(FfmpegCommandBuilderError::UninitializedField("audio_codec"));
            },
        };
        let video_codec = match &self.video_codec {
            Some(value) => value.clone(),
            None => {
                return Err(FfmpegCommandBuilderError::UninitializedField("video_codec"));
            },
        };
        let preset = match &self.preset {
            Some(value) => Some(value.clone()),
            None => None,
        };
        Ok(
            FfmpegCommand {
                command_type,
                input_file,
                output_file,
                audio_codec,
                video_codec,
                scale: self.scale,
                audio_bitrate: self.audio_bitrate,
                preset,
                crf: self.crf,
            },
        )
    }
}


} // verus!
