pub mod codecs;
pub mod transcoder;
pub mod video_check;
