use vstd::prelude::*;
use crate::error::AppError;

verus! {

/// The key that ends the capture.
pub const KEY_ESCAPE: i32 = 27;

/// The key that saves the frame on show.
pub const KEY_SAVE: i32 = 115;

/// What the capture loop has just seen.
#[derive(Clone, Copy, Debug, PartialEq, Eq, Structural)]
pub enum CameraEvent {
    /// The device was asked to open, and did or did not.
    Opened(bool),
    /// A frame was read, with or without pixels.
    Frame { empty: bool },
    /// The frame is on show and the wait for a key gave this code.
    Key(i32),
}

/// What the capture loop is to do next.
#[derive(Clone, Copy, Debug, PartialEq, Eq, Structural)]
pub enum CameraAction {
    /// Read the next frame.
    Read,
    /// Show the frame and wait for a key.
    Show,
    /// Save the frame under this number, then read the next frame.
    Save(u32),
    /// Leave the loop.
    Stop,
}

/// The step that follows an event, where the loop goes on.
pub open spec fn spec_next_action(event: CameraEvent) -> CameraAction {
    match event {
        CameraEvent::Opened(_) => CameraAction::Read,
        CameraEvent::Frame { empty } => if empty {
            CameraAction::Stop
        } else {
            CameraAction::Show
        },
        CameraEvent::Key(key) => if key == KEY_ESCAPE {
            CameraAction::Stop
        } else if key == KEY_SAVE {
            CameraAction::Save(0)
        } else {
            CameraAction::Read
        },
    }
}

/// Decides the next step of the capture loop from what it has just seen.
///
/// A device that did not open is an error, `DeviceUnavailable`, and the
/// only one. A frame without pixels ends the loop, and so does the escape
/// key; the save key saves the frame, always under the number 0; any other
/// key, or none, goes on to the next frame.
pub fn get_camera_frame(event: CameraEvent) -> (result: Result<CameraAction, AppError>)
    ensures
        result is Err <==> event == CameraEvent::Opened(false),
        match result {
            Ok(action) => action == spec_next_action(event),
            Err(e) => e == AppError::DeviceUnavailable,
        },
{
    match event {
        CameraEvent::Opened(opened) => {
            if opened {
                Ok(CameraAction::Read)
            } else {
                Err(AppError::DeviceUnavailable)
            }
        },
        CameraEvent::Frame { empty } => {
            if empty {
                Ok(CameraAction::Stop)
            } else {
                Ok(CameraAction::Show)
            }
        },
        CameraEvent::Key(key) => {
            if key == KEY_ESCAPE {
                Ok(CameraAction::Stop)
            } else if key == KEY_SAVE {
                Ok(CameraAction::Save(0))
            } else {
                Ok(CameraAction::Read)
            }
        },
    }
}

} // verus!
