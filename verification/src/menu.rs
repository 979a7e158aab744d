//! The menu: which number stands for which operation.

use crate::error::TranscoderError;
use vstd::prelude::*;

verus! {

/// What a choice from the menu asks for.
#[derive(Debug, Clone, Copy, PartialEq, Eq, Structural)]
pub enum MenuAction {
    Exit,
    Convert,
    Compress,
    MultiTask,
    YoutubeOptimized,
}

/// The action that a number of the menu stands for: 1 to 4 for the four
/// operations, 0 to leave.
pub open spec fn menu_action(option: int) -> Option<MenuAction> {
    if option == 1 {
        Some(MenuAction::Convert)
    } else if option == 2 {
        Some(MenuAction::Compress)
    } else if option == 3 {
        Some(MenuAction::MultiTask)
    } else if option == 4 {
        Some(MenuAction::YoutubeOptimized)
    } else if option == 0 {
        Some(MenuAction::Exit)
    } else {
        None
    }
}

/// The action that the user chose, or the error for a number that is not on
/// the menu.
pub fn handle_menu_option(option: i32) -> (r: Result<MenuAction, TranscoderError>)
    ensures
        match menu_action(option as int) {
            Some(action) => r == Ok::<MenuAction, TranscoderError>(action),
            None => r == Err::<MenuAction, TranscoderError>(TranscoderError::UnsupportedOperation),
        },
{
    match option {
        1 => Ok(MenuAction::Convert),
        2 => Ok(MenuAction::Compress),
        3 => Ok(MenuAction::MultiTask),
        4 => Ok(MenuAction::YoutubeOptimized),
        0 => Ok(MenuAction::Exit),
        _ => Err(TranscoderError::UnsupportedOperation),
    }
}

} // verus!
