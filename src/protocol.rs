//! Plain values for what the window manager exchanges with the display
//! server: the events it consumes and the requests it issues.
use vstd::prelude::*;

verus! {

/// Event mask bits of the core protocol.
pub const KEY_PRESS_MASK: u32 = 1;
pub const KEY_RELEASE_MASK: u32 = 2;
pub const BUTTON_PRESS_MASK: u32 = 4;
pub const BUTTON_RELEASE_MASK: u32 = 8;
pub const ENTER_WINDOW_MASK: u32 = 16;
pub const LEAVE_WINDOW_MASK: u32 = 32;
pub const POINTER_MOTION_MASK: u32 = 64;
pub const EXPOSURE_MASK: u32 = 32768;
pub const SUBSTRUCTURE_NOTIFY_MASK: u32 = 524288;
pub const SUBSTRUCTURE_REDIRECT_MASK: u32 = 1048576;

/// What the root window is subscribed to: holding the redirect bit is what
/// makes this process the window manager.
pub const ROOT_EVENT_MASK: u32 = SUBSTRUCTURE_NOTIFY_MASK | SUBSTRUCTURE_REDIRECT_MASK
    | BUTTON_PRESS_MASK | KEY_PRESS_MASK;

/// What every frame is subscribed to: exposure, structure, keys, buttons,
/// motion and crossing.
pub const FRAME_EVENT_MASK: u32 = EXPOSURE_MASK | SUBSTRUCTURE_NOTIFY_MASK | BUTTON_PRESS_MASK
    | BUTTON_RELEASE_MASK | KEY_PRESS_MASK | KEY_RELEASE_MASK | POINTER_MOTION_MASK
    | ENTER_WINDOW_MASK | LEAVE_WINDOW_MASK;

/// Bits of a configure request's value mask.
pub const CONFIG_X: u16 = 1;
pub const CONFIG_Y: u16 = 2;
pub const CONFIG_WIDTH: u16 = 4;
pub const CONFIG_HEIGHT: u16 = 8;
pub const CONFIG_BORDER_WIDTH: u16 = 16;
pub const CONFIG_SIBLING: u16 = 32;
pub const CONFIG_STACK_MODE: u16 = 64;

/// The "no window" focus target.
pub const NO_WINDOW: u32 = 0;

/// Position and size of a window, as the server reports it.
#[derive(Clone, Copy, Debug, PartialEq, Eq)]
pub struct Geometry {
    pub x: i16,
    pub y: i16,
    pub width: u16,
    pub height: u16,
    pub border_width: u16,
}

#[derive(Clone, Copy, Debug, PartialEq, Eq)]
pub enum StackMode {
    Above,
    Below,
    TopIf,
    BottomIf,
    Opposite,
}

#[derive(Clone, Copy, Debug, PartialEq, Eq)]
pub enum SetMode {
    Insert,
    Delete,
}

#[derive(Clone, Copy, Debug, PartialEq, Eq)]
pub enum MapState {
    Unmapped,
    Unviewable,
    Viewable,
}

/// The attributes of a window that decide whether it is adopted.
#[derive(Clone, Copy, Debug, PartialEq, Eq)]
pub struct Attributes {
    pub override_redirect: bool,
    pub map_state: MapState,
}

/// A client's request to change its own geometry or stacking; only the
/// fields whose bit is set in `value_mask` are asked for.
#[derive(Clone, Copy, Debug, PartialEq, Eq)]
pub struct ConfigureRequest {
    pub window: u32,
    pub x: i16,
    pub y: i16,
    pub width: u16,
    pub height: u16,
    pub border_width: u16,
    pub sibling: u32,
    pub stack_mode: StackMode,
    pub value_mask: u16,
}

/// The values of a configure-window request; `None` leaves a value as it is.
#[derive(Clone, Copy, Debug, PartialEq, Eq)]
pub struct ConfigureValues {
    pub x: Option<i32>,
    pub y: Option<i32>,
    pub width: Option<u32>,
    pub height: Option<u32>,
    pub border_width: Option<u32>,
    pub sibling: Option<u32>,
    pub stack_mode: Option<StackMode>,
}

pub open spec fn asks(mask: u16, bit: u16) -> bool {
    mask & bit != 0
}

/// The values that a configure request asks for, one for each bit of its
/// value mask.
pub open spec fn requested_values(event: ConfigureRequest) -> ConfigureValues {
    let mask = event.value_mask;
    ConfigureValues {
        x: if asks(mask, CONFIG_X) { Some(event.x as i32) } else { None },
        y: if asks(mask, CONFIG_Y) { Some(event.y as i32) } else { None },
        width: if asks(mask, CONFIG_WIDTH) { Some(event.width as u32) } else { None },
        height: if asks(mask, CONFIG_HEIGHT) { Some(event.height as u32) } else { None },
        border_width: if asks(mask, CONFIG_BORDER_WIDTH) { Some(event.border_width as u32) } else { None },
        sibling: if asks(mask, CONFIG_SIBLING) { Some(event.sibling) } else { None },
        stack_mode: if asks(mask, CONFIG_STACK_MODE) { Some(event.stack_mode) } else { None },
    }
}

/// Why the manager turned down an operation.
#[derive(Clone, Copy, Debug, PartialEq, Eq)]
pub enum WmError {
    /// The window is already under management, as client or as frame.
    AlreadyManaged(u32),
    /// The identifier offered for a new frame is the client's own or
    /// already in use.
    FrameInUse(u32),
    /// A framed window asked to be reconfigured, which has no policy yet.
    ConfigureManaged(u32),
}

impl ConfigureValues {
    pub open spec fn spec_empty() -> ConfigureValues {
        ConfigureValues {
            x: None,
            y: None,
            width: None,
            height: None,
            border_width: None,
            sibling: None,
            stack_mode: None,
        }
    }

    /// No value changed.
    pub fn new() -> (r: ConfigureValues)
        ensures
            r == ConfigureValues::spec_empty(),
    {
        ConfigureValues {
            x: None,
            y: None,
            width: None,
            height: None,
            border_width: None,
            sibling: None,
            stack_mode: None,
        }
    }

    /// Exactly the values that a configure request asks for.
    pub fn from_configure_request(event: &ConfigureRequest) -> (r: ConfigureValues)
        ensures
            r == requested_values(*event),
    {
        let mask = event.value_mask;
        ConfigureValues {
            x: if mask & CONFIG_X != 0 { Some(event.x as i32) } else { None },
            y: if mask & CONFIG_Y != 0 { Some(event.y as i32) } else { None },
            width: if mask & CONFIG_WIDTH != 0 { Some(event.width as u32) } else { None },
            height: if mask & CONFIG_HEIGHT != 0 { Some(event.height as u32) } else { None },
            border_width: if mask & CONFIG_BORDER_WIDTH != 0 { Some(event.border_width as u32) } else { None },
            sibling: if mask & CONFIG_SIBLING != 0 { Some(event.sibling) } else { None },
            stack_mode: if mask & CONFIG_STACK_MODE != 0 { Some(event.stack_mode) } else { None },
        }
    }
}

/// A request to the display server.
#[derive(Clone, Copy, Debug, PartialEq, Eq)]
pub enum Request {
    /// Create an input-output window with the parent's depth and visual.
    CreateWindow {
        window: u32,
        parent: u32,
        x: i16,
        y: i16,
        width: u16,
        height: u16,
        border_width: u16,
        event_mask: u32,
    },
    GrabServer,
    UngrabServer,
    ChangeSaveSet { mode: SetMode, window: u32 },
    /// Move `window` under `parent`. With `suppress_echo` set, the sequence
    /// number this request is sent with must be handed to
    /// `CrabState::expect_suppression`, so that the events it causes are not
    /// taken for the client's own doing.
    ReparentWindow { window: u32, parent: u32, x: i16, y: i16, suppress_echo: bool },
    MapWindow { window: u32 },
    DestroyWindow { window: u32 },
    ConfigureWindow { window: u32, values: ConfigureValues },
    /// Focus `focus`, reverting to its parent; `NO_WINDOW` drops the focus.
    SetInputFocus { focus: u32 },
}

/// An event from the display server, reduced to what the manager reads.
#[derive(Clone, Copy, Debug, PartialEq, Eq)]
pub enum WmEvent {
    UnmapNotify { window: u32 },
    ConfigureRequest(ConfigureRequest),
    MapRequest { window: u32 },
    Expose { window: u32 },
    EnterNotify { event: u32 },
    LeaveNotify { event: u32 },
    MotionNotify { root_x: i16, root_y: i16 },
    /// The event kind that asks the manager to stop.
    ClientMessage,
    Other,
}

} // verus!
