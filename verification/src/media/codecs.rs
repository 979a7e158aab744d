//! The codecs that a command can select, and how a file's codec is asked for.

use crate::number::is_digit;
use vstd::prelude::*;

verus! {

/// The lowercase form of a text, as `str::to_lowercase` computes it.
pub uninterp spec fn lowercase(s: Seq<char>) -> Seq<char>;

/// `str::to_lowercase` returns the lowercase equivalent of the text as
/// Unicode defines it, which depends on the text alone. Nothing is proved of
/// it; the result is known here only by its name, `lowercase`.
pub assume_specification[ str::to_lowercase ](s: &str) -> (r: String)
    ensures
        r@ == lowercase(s@),
;

/// An audio codec: the one that is recommended, or any other by its name.
#[derive(Debug)]
pub enum AudioCodec {
    /// The recommended audio codec.
    Aac,
    /// Another codec, by the name the user gave.
    Custom(String),
}

/// A video codec: one of the two well-known ones, or any other by its name.
#[derive(Debug)]
pub enum VideoCodec {
    /// The recommended video codec.
    Libx264,
    /// The other well-known video codec.
    H264,
    /// Another codec, by the name the user gave.
    Custom(String),
}

/// Whether `s` is a name that a command line takes as it stands: not empty,
/// and made of lowercase ASCII letters and digits.
pub open spec fn is_lowercase_token(s: Seq<char>) -> bool {
    &&& s.len() > 0
    &&& forall|i: int|
        0 <= i < s.len() ==> (('a' <= #[trigger] s[i] && s[i] <= 'z') || is_digit(s[i]))
}

/// A codec as the text that names it.
pub trait CodecAsString {
    /// The name of the codec as it was given.
    spec fn name(&self) -> Seq<char>;

    /// The name that stands for the codec in a command line: that of a
    /// well-known codec as it is, that of any other in lowercase.
    spec fn token(&self) -> Seq<char>;

    /// The name of the codec as it was given.
    fn as_str(&self) -> (r: &str)
        ensures
            r@ == self.name(),
    ;

    /// The name that stands for the codec in a command line.
    fn as_string(&self) -> (r: String)
        ensures
            r@ == self.token(),
    ;
}

impl CodecAsString for AudioCodec {
    open spec fn name(&self) -> Seq<char> {
        match self {
            AudioCodec::Aac => "aac"@,
            AudioCodec::Custom(codec) => codec@,
        }
    }

    open spec fn token(&self) -> Seq<char> {
        match self {
            AudioCodec::Aac => "aac"@,
            AudioCodec::Custom(codec) => lowercase(codec@),
        }
    }

    fn as_str(&self) -> (r: &str) {
        match self {
            AudioCodec::Aac => "aac",
            AudioCodec::Custom(codec) => codec.as_str(),
        }
    }

    fn as_string(&self) -> (r: String)
        ensures
            !(self is Custom) ==> is_lowercase_token(r@),
    {
        proof {
            reveal_strlit("aac");
        }
        match self {
            AudioCodec::Aac => "aac".to_owned(),
            AudioCodec::Custom(codec) => codec.as_str().to_lowercase(),
        }
    }
}

impl CodecAsString for VideoCodec {
    open spec fn name(&self) -> Seq<char> {
        match self {
            VideoCodec::H264 => "h264"@,
            VideoCodec::Libx264 => "libx264"@,
            VideoCodec::Custom(codec) => codec@,
        }
    }

    open spec fn token(&self) -> Seq<char> {
        match self {
            VideoCodec::H264 => "h264"@,
            VideoCodec::Libx264 => "libx264"@,
            VideoCodec::Custom(codec) => lowercase(codec@),
        }
    }

    fn as_str(&self) -> (r: &str) {
        match self {
            VideoCodec::H264 => "h264",
            VideoCodec::Libx264 => "libx264",
            VideoCodec::Custom(codec) => codec.as_str(),
        }
    }

    fn as_string(&self) -> (r: String)
        ensures
            !(self is Custom) ==> is_lowercase_token(r@),
    {
        proof {
            reveal_strlit("h264");
            reveal_strlit("libx264");
        }
        match self {
            VideoCodec::H264 => "h264".to_owned(),
            VideoCodec::Libx264 => "libx264".to_owned(),
            VideoCodec::Custom(codec) => codec.as_str().to_lowercase(),
        }
    }
}

impl Default for AudioCodec {
    fn default() -> (r: Self)
        ensures
            r == AudioCodec::Aac,
    {
        AudioCodec::Aac
    }
}

impl Default for VideoCodec {
    fn default() -> (r: Self)
        ensures
            r == VideoCodec::Libx264,
    {
        VideoCodec::Libx264
    }
}

impl Clone for AudioCodec {
    fn clone(&self) -> (r: Self)
        ensures
            r == *self,
    {
        match self {
            AudioCodec::Aac => AudioCodec::Aac,
            AudioCodec::Custom(codec) => AudioCodec::Custom(codec.clone()),
        }
    }
}

impl Clone for VideoCodec {
    fn clone(&self) -> (r: Self)
        ensures
            r == *self,
    {
        match self {
            VideoCodec::H264 => VideoCodec::H264,
            VideoCodec::Libx264 => VideoCodec::Libx264,
            VideoCodec::Custom(codec) => VideoCodec::Custom(codec.clone()),
        }
    }
}

/// The name of the recommended audio codec is not empty and in lowercase.
pub proof fn lemma_well_known_audio_token(codec: AudioCodec)
    requires
        !(codec is Custom),
    ensures
        is_lowercase_token(codec.token()),
        codec.token() == codec.name(),
{
    reveal_strlit("aac");
}

/// The name of each well-known video codec is not empty and in lowercase.
pub proof fn lemma_well_known_video_token(codec: VideoCodec)
    requires
        !(codec is Custom),
    ensures
        is_lowercase_token(codec.token()),
        codec.token() == codec.name(),
{
    reveal_strlit("h264");
    reveal_strlit("libx264");
}

/// The kind of stream whose codec is asked for.
#[derive(Clone, Copy, Debug, PartialEq, Eq, Structural)]
pub enum CodecType {
    Audio,
    Video,
}

/// How the inspection tool names the first stream of a kind.
pub open spec fn stream_selector(codec_type: CodecType) -> Seq<char> {
    match codec_type {
        CodecType::Audio => "a:0"@,
        CodecType::Video => "v:0"@,
    }
}

/// The command that asks the inspection tool for the codec name of the first
/// stream of a kind in the file at `path`, and for nothing else.
pub open spec fn probe_command(path: Seq<char>, codec_type: CodecType) -> Seq<char> {
    "ffprobe -v error -select_streams "@ + stream_selector(codec_type)
        + " -show_entries stream=codec_name -of default=noprint_wrappers=1:nokey=1 "@ + path
}

/// The last line of `lines` that is not empty, or the empty text where every
/// line is empty.
pub open spec fn last_non_empty(lines: Seq<Seq<char>>) -> Seq<char>
    decreases lines.len(),
{
    if lines.len() == 0 {
        Seq::empty()
    } else if lines.last().len() > 0 {
        lines.last()
    } else {
        last_non_empty(lines.drop_last())
    }
}

/// `last_non_empty` is a line that has only empty lines after it, and is empty
/// only where all lines are.
pub proof fn lemma_last_non_empty(lines: Seq<Seq<char>>)
    ensures
        last_non_empty(lines).len() == 0 ==> forall|i: int|
            0 <= i < lines.len() ==> (#[trigger] lines[i]).len() == 0,
        last_non_empty(lines).len() > 0 ==> exists|i: int|
            0 <= i < lines.len() && #[trigger] lines[i] == last_non_empty(lines) && forall|j: int|
                i < j < lines.len() ==> (#[trigger] lines[j]).len() == 0,
    decreases lines.len(),
{
    if lines.len() > 0 {
        if lines.last().len() > 0 {
            assert(lines[lines.len() - 1] == last_non_empty(lines));
        } else {
            let rest = lines.drop_last();
            lemma_last_non_empty(rest);
            if last_non_empty(lines).len() > 0 {
                let i = choose|i: int|
                    0 <= i < rest.len() && #[trigger] rest[i] == last_non_empty(rest) && forall|
                        j: int,
                    |
                        i < j < rest.len() ==> (#[trigger] rest[j]).len() == 0;
                assert(lines[i] == rest[i]);
                assert forall|j: int| i < j < lines.len() implies (#[trigger] lines[j]).len()
                    == 0 by {
                    if j < rest.len() {
                        assert(lines[j] == rest[j]);
                    }
                }
            } else {
                assert forall|i: int| 0 <= i < lines.len() implies (#[trigger] lines[i]).len()
                    == 0 by {
                    if i < rest.len() {
                        assert(lines[i] == rest[i]);
                    }
                }
            }
        }
    }
}

/// The command line that asks for the codec of the first audio or video stream
/// of the file at `video_path`.
pub fn codec_probe_command(video_path: &str, codec_type: CodecType) -> (r: String)
    ensures
        r@ == probe_command(video_path@, codec_type),
{
    let audio_or_video = match codec_type {
        CodecType::Audio => "a:0",
        CodecType::Video => "v:0",
    };
    String::from_str("ffprobe -v error -select_streams ").concat(audio_or_video).concat(
        " -show_entries stream=codec_name -of default=noprint_wrappers=1:nokey=1 ",
    ).concat(video_path)
}

/// The codec name in what the inspection tool printed: its last line that is
/// not empty. The empty text means that the codec is not known.
pub fn get_codec(lines: &Vec<String>) -> (r: String)
    ensures
        r@ == last_non_empty(lines.deep_view()),
{
    let mut i: usize = lines.len();
    proof {
        assert(lines.deep_view().take(i as int) =~= lines.deep_view());
    }
    while i > 0
        invariant
            i <= lines.len(),
            last_non_empty(lines.deep_view().take(i as int)) == last_non_empty(lines.deep_view()),
        decreases i,
    {
        i -= 1;
        let ghost upto = lines.deep_view().take(i + 1);
        assert(upto.last() == lines[i as int]@);
        if !lines[i].as_str().is_empty() {
            return lines[i].clone();
        }
        proof {
            assert(upto.drop_last() =~= lines.deep_view().take(i as int));
        }
    }
    String::new()
}

} // verus!
