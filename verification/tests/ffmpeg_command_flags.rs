use ffmpeg_cli::command::ffmpeg_command::{builder, CommandType};
use ffmpeg_cli::media::codecs::{AudioCodec, VideoCodec};

#[test]
fn ffmpeg_command_should_build_compress_command() {
    let cmd = builder()
        .command_type(CommandType::Compress)
        .input_file("/aaa/bbb/input_video.avi")
        .output_file("/ccc/ddd/output_video.avi")
        .audio_codec(AudioCodec::Aac)
        .video_codec(VideoCodec::Libx264)
        .build()
        .unwrap()
        .as_cmd_string();

    assert_eq!(
        r#"ffmpeg -i /aaa/bbb/input_video.avi -c:v libx264 -c:a aac -vf "scale=1280:-2" -preset veryslow -crf 24 /ccc/ddd/output_video.avi"#,
        cmd,
    );
}

#[test]
fn ffmpeg_command_should_build_youtube_command() {
    let cmd = builder()
        .command_type(CommandType::YoutubeOptimized)
        .input_file("/aaa/bbb/input_video.avi")
        .output_file("/ccc/ddd/output_video.mp4")
        .audio_codec(AudioCodec::Aac)
        .video_codec(VideoCodec::Libx264)
        .build()
        .unwrap()
        .as_cmd_string();

    assert_eq!(
        "ffmpeg -i /aaa/bbb/input_video.avi -c:v libx264 -c:a aac -crf 23 -preset medium -b:a 320k -qscale 0 /ccc/ddd/output_video.mp4",
        cmd,
    )
}

#[test]
fn ffmpeg_command_should_build_multi_task_command() {
    let cmd = builder()
        .command_type(CommandType::MultiTask)
        .input_file("/aaa/bbb/input_video.avi")
        .output_file("/ccc/ddd/output_video.mp4")
        .audio_codec(AudioCodec::Aac)
        .video_codec(VideoCodec::Libx264)
        .scale(1280)
        .preset("medium".to_owned())
        .audio_bitrate(320)
        .crf(24)
        .build()
        .unwrap()
        .as_cmd_string();

    assert_eq!(
        r#"ffmpeg -i /aaa/bbb/input_video.avi -c:v libx264 -c:a aac -vf "scale=1280:-2" -b:a 320k -preset medium -crf 24 /ccc/ddd/output_video.mp4"#,
        cmd,
    )
}
