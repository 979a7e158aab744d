use ffmpeg_cli::error::TranscoderError;
use ffmpeg_cli::menu::{handle_menu_option, MenuAction};

#[test]
fn menu_numbers_stand_for_the_operations() {
    assert_eq!(Ok(MenuAction::Exit), handle_menu_option(0));
    assert_eq!(Ok(MenuAction::Convert), handle_menu_option(1));
    assert_eq!(Ok(MenuAction::Compress), handle_menu_option(2));
    assert_eq!(Ok(MenuAction::MultiTask), handle_menu_option(3));
    assert_eq!(Ok(MenuAction::YoutubeOptimized), handle_menu_option(4));
}

#[test]
fn other_numbers_are_unsupported() {
    for option in [-1, 5, 6, 10, i32::MIN, i32::MAX] {
        assert_eq!(
            Err(TranscoderError::UnsupportedOperation),
            handle_menu_option(option)
        );
    }
}
