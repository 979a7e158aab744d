use ffmpeg_cli::command::ffmpeg_command::{builder, CommandType, FfmpegCommand};
use ffmpeg_cli::error::TranscoderError;
use ffmpeg_cli::media::codecs::{AudioCodec, VideoCodec};
use ffmpeg_cli::media::transcoder::{
    compress, convert, multi_task, read_optional_number, rejects_number, unwrap_ffmpeg_command,
    youtube_optimized, MultiTaskAnswers, ALREADY_OPTIMIZED,
};
use ffmpeg_cli::media::video_check::SupportedFormatSet;

fn formats() -> SupportedFormatSet {
    SupportedFormatSet::from_tokens(&vec!["mp4".to_owned(), "avi".to_owned(), "mkv".to_owned()])
}

fn answers(
    video_codec: &str,
    audio_codec: &str,
    scale: &str,
    audio_bitrate: &str,
    preset: &str,
    crf: &str,
) -> MultiTaskAnswers {
    MultiTaskAnswers {
        video_codec: video_codec.to_owned(),
        audio_codec: audio_codec.to_owned(),
        scale: scale.to_owned(),
        audio_bitrate: audio_bitrate.to_owned(),
        preset: preset.to_owned(),
        crf: crf.to_owned(),
    }
}

fn has_no_optional_parameter(cmd: &FfmpegCommand) -> bool {
    cmd.scale().is_none()
        && cmd.audio_bitrate().is_none()
        && cmd.preset().is_none()
        && cmd.crf().is_none()
}

#[test]
fn convert_to_the_same_format_is_refused() {
    let r = convert("clip.mp4".to_owned(), "mp4".to_owned(), &formats());
    assert_eq!(Some(TranscoderError::SameInputAndOutput), r.err());
}

#[test]
fn convert_to_an_unsupported_format_is_refused() {
    let r = convert("clip.mp4".to_owned(), "xyz".to_owned(), &formats());
    assert_eq!(Some(TranscoderError::InvalidCommand), r.err());
    let r = convert("clip.xyz".to_owned(), "xyz".to_owned(), &formats());
    assert_eq!(Some(TranscoderError::InvalidCommand), r.err());
}

#[test]
fn convert_to_another_supported_format_gives_the_command() {
    let cmd = convert("clip.mp4".to_owned(), "avi".to_owned(), &formats()).unwrap();
    assert_eq!(CommandType::ConvertFormat, cmd.command_type());
    assert_eq!("clip.mp4", cmd.input_file());
    assert_eq!("clip.avi", cmd.output_file());
    assert!(matches!(cmd.audio_codec(), AudioCodec::Aac));
    assert!(matches!(cmd.video_codec(), VideoCodec::Libx264));
    assert!(has_no_optional_parameter(&cmd));
    assert_eq!("ffmpeg -i clip.mp4 clip.avi", cmd.as_cmd_string());
}

#[test]
fn convert_needs_an_extension_to_replace() {
    let r = convert("clip".to_owned(), "avi".to_owned(), &formats());
    assert_eq!(Some(TranscoderError::NoExtension), r.err());
}

#[test]
fn convert_compares_the_whole_extension() {
    let cmd = convert("clip.xmp4".to_owned(), "mp4".to_owned(), &formats()).unwrap();
    assert_eq!("clip.mp4", cmd.output_file());
    let cmd = convert("mp4.avi".to_owned(), "mp4".to_owned(), &formats()).unwrap();
    assert_eq!("mp4.mp4", cmd.output_file());
    let r = convert("/a.b/clip.MP4".to_owned(), "mp4".to_owned(), &formats());
    assert_eq!("/a.b/clip.mp4", r.unwrap().output_file());
}

#[test]
fn compress_end_to_end() {
    let cmd = compress("/a/b/in.avi".to_owned()).unwrap();
    assert_eq!(CommandType::Compress, cmd.command_type());
    assert_eq!("/a/b/in.avi", cmd.input_file());
    assert_eq!("/a/b/in_compressed.mp4", cmd.output_file());
    assert!(matches!(cmd.audio_codec(), AudioCodec::Aac));
    assert!(matches!(cmd.video_codec(), VideoCodec::Libx264));
    assert!(has_no_optional_parameter(&cmd));
    assert_eq!(
        r#"ffmpeg -i /a/b/in.avi -c:v libx264 -c:a aac -vf "scale=1280:-2" -preset veryslow -crf 24 /a/b/in_compressed.mp4"#,
        cmd.as_cmd_string()
    );
}

#[test]
fn compress_needs_an_extension_to_replace() {
    assert_eq!(
        Some(TranscoderError::NoExtension),
        compress("/a/b/in".to_owned()).err()
    );
}

#[test]
fn file_with_recommended_codecs_and_mp4_is_left_alone() {
    for video in ["h264", "libx264"] {
        let r = youtube_optimized("/a/clip.mp4".to_owned(), "aac", video);
        assert_eq!(
            Some(TranscoderError::AbortTranscoding(
                "The file already has recommended codecs and mp4 format.".to_owned()
            )),
            r.err()
        );
    }
    assert_eq!(
        "The file already has recommended codecs and mp4 format.",
        ALREADY_OPTIMIZED
    );
}

#[test]
fn any_other_file_is_prepared_for_upload() {
    for (input, audio, video) in [
        ("/a/clip.mp4", "mp3", "h264"),
        ("/a/clip.mp4", "aac", "vp9"),
        ("/a/clip.mp4", "aac", ""),
        ("/a/clip.mp4", "", "h264"),
        ("/a/clip.mp4", "AAC", "h264"),
        ("/a/clip.mp4", "aac", "H264"),
        ("/a/clip.avi", "aac", "h264"),
        ("/a/clip.MP4", "aac", "libx264"),
        ("/a/clip.mp4.", "aac", "libx264"),
    ] {
        let cmd = youtube_optimized(input.to_owned(), audio, video).unwrap();
        assert_eq!(CommandType::YoutubeOptimized, cmd.command_type());
        assert_eq!(input, cmd.input_file());
        assert!(matches!(cmd.audio_codec(), AudioCodec::Aac));
        assert!(matches!(cmd.video_codec(), VideoCodec::Libx264));
        assert!(has_no_optional_parameter(&cmd));
    }
    let cmd = youtube_optimized("/a/clip.avi".to_owned(), "aac", "h264").unwrap();
    assert_eq!("/a/clip_yt.mp4", cmd.output_file());
    assert_eq!(
        "ffmpeg -i /a/clip.avi -c:v libx264 -c:a aac -crf 23 -preset medium -b:a 320k -qscale 0 /a/clip_yt.mp4",
        cmd.as_cmd_string()
    );
}

#[test]
fn upload_needs_an_extension_to_replace() {
    assert_eq!(
        Some(TranscoderError::NoExtension),
        youtube_optimized("clip".to_owned(), "aac", "h264").err()
    );
    assert_eq!(
        Some(TranscoderError::NoExtension),
        youtube_optimized("clip".to_owned(), "mp3", "vp9").err()
    );
}

#[test]
fn multi_task_takes_the_answers_that_are_given() {
    let cmd = multi_task(
        "/v/in.avi".to_owned(),
        "mp4".to_owned(),
        &formats(),
        answers("H264", "AAC", "1280", "128", "medium", "24"),
    )
    .unwrap();
    assert_eq!(CommandType::MultiTask, cmd.command_type());
    assert_eq!("/v/in.avi", cmd.input_file());
    assert_eq!("/v/in.mp4", cmd.output_file());
    assert!(matches!(cmd.video_codec(), VideoCodec::Custom(name) if name == "H264"));
    assert!(matches!(cmd.audio_codec(), AudioCodec::Custom(name) if name == "AAC"));
    assert_eq!(Some(1280), cmd.scale());
    assert_eq!(Some(128), cmd.audio_bitrate());
    assert_eq!(Some("medium"), cmd.preset());
    assert_eq!(Some(24), cmd.crf());
    assert_eq!(
        r#"ffmpeg -i /v/in.avi -c:v h264 -c:a aac -vf "scale=1280:-2" -b:a 128k -preset medium -crf 24 /v/in.mp4"#,
        cmd.as_cmd_string()
    );
}

#[test]
fn multi_task_leaves_out_blank_and_invalid_answers() {
    let cmd = multi_task(
        "in.avi".to_owned(),
        "mkv".to_owned(),
        &formats(),
        answers("vp9", "opus", "", "12k", " ", "99999"),
    )
    .unwrap();
    assert!(has_no_optional_parameter(&cmd));
    assert_eq!(
        "ffmpeg -i in.avi -c:v vp9 -c:a opus in.mkv",
        cmd.as_cmd_string()
    );

    let cmd = multi_task(
        "in.avi".to_owned(),
        "mkv".to_owned(),
        &formats(),
        answers("vp9", "opus", "x", "192", "", "-5"),
    )
    .unwrap();
    assert_eq!(None, cmd.scale());
    assert_eq!(Some(192), cmd.audio_bitrate());
    assert_eq!(None, cmd.preset());
    assert_eq!(Some(-5), cmd.crf());
}

#[test]
fn audio_bitrate_goes_where_it_belongs() {
    let cmd = multi_task(
        "in.avi".to_owned(),
        "mp4".to_owned(),
        &formats(),
        answers("h264", "aac", "", "128", "", ""),
    )
    .unwrap();
    assert_eq!(None, cmd.scale());
    assert_eq!(Some(128), cmd.audio_bitrate());
    assert_eq!(
        "ffmpeg -i in.avi -c:v h264 -c:a aac -b:a 128k in.mp4",
        cmd.as_cmd_string()
    );
}

#[test]
fn multi_task_validates_format_and_extension() {
    let r = multi_task(
        "in.avi".to_owned(),
        "xyz".to_owned(),
        &formats(),
        answers("h264", "aac", "", "", "", ""),
    );
    assert_eq!(Some(TranscoderError::InvalidCommand), r.err());
    let r = multi_task(
        "in".to_owned(),
        "mp4".to_owned(),
        &formats(),
        answers("h264", "aac", "", "", "", ""),
    );
    assert_eq!(Some(TranscoderError::NoExtension), r.err());
    let same = multi_task(
        "in.mp4".to_owned(),
        "mp4".to_owned(),
        &formats(),
        answers("h264", "aac", "", "", "", ""),
    )
    .unwrap();
    assert_eq!("in.mp4", same.output_file());
}

#[test]
fn optional_numbers() {
    assert_eq!(None, read_optional_number(""));
    assert_eq!(None, read_optional_number("   "));
    assert_eq!(None, read_optional_number("abc"));
    assert_eq!(None, read_optional_number("40000"));
    assert_eq!(Some(1280), read_optional_number("1280"));
    assert_eq!(Some(-2), read_optional_number("-2"));
    assert!(!rejects_number(""));
    assert!(!rejects_number(" \t"));
    assert!(!rejects_number("24"));
    assert!(rejects_number("24 "));
    assert!(rejects_number("abc"));
    assert!(rejects_number("40000"));
}

#[test]
fn builder_failure_is_an_invalid_command() {
    let mut incomplete = builder();
    incomplete.command_type(CommandType::Compress);
    assert_eq!(
        Some(TranscoderError::InvalidCommand),
        unwrap_ffmpeg_command(incomplete.build()).err()
    );
    let complete = builder()
        .command_type(CommandType::Compress)
        .input_file("a.avi")
        .output_file("b.mp4")
        .audio_codec(AudioCodec::Aac)
        .video_codec(VideoCodec::Libx264)
        .build();
    let cmd = unwrap_ffmpeg_command(complete).unwrap();
    assert_eq!("a.avi", cmd.input_file());
    assert_eq!("b.mp4", cmd.output_file());
}
