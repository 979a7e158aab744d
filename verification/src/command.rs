pub mod command_runner;
pub mod ffmpeg_command;
