//! Plain value types shared by the session model and the protocol helpers,
//! and the protocol constants (event-mask bits, configure-field bits, the
//! structure-change notification type code).

use vstd::prelude::*;

verus! {

/// Event-mask bit: pointer button presses.
pub const BUTTON_PRESS_MASK: i64 = 0x4;

/// Event-mask bit: pointer entering the window.
pub const ENTER_WINDOW_MASK: i64 = 0x10;

/// Event-mask bit: pointer leaving the window.
pub const LEAVE_WINDOW_MASK: i64 = 0x20;

/// Event-mask bit: pointer motion.
pub const POINTER_MOTION_MASK: i64 = 0x40;

/// Event-mask bit: changes to the window's own structure (geometry,
/// existence).
pub const STRUCTURE_NOTIFY_MASK: i64 = 0x20000;

/// Event-mask bit: notifications about changes to child windows.
pub const SUBSTRUCTURE_NOTIFY_MASK: i64 = 0x80000;

/// Event-mask bit: redirection of configure requests of child windows.
pub const SUBSTRUCTURE_REDIRECT_MASK: i64 = 0x100000;

/// Event-mask bit: property changes on the window.
pub const PROPERTY_CHANGE_MASK: i64 = 0x400000;

/// The interest mask installed on every root window: everything a window
/// manager needs to arbitrate window lifecycle and input.
pub const ROOT_EVENT_MASK: i64 = BUTTON_PRESS_MASK | SUBSTRUCTURE_REDIRECT_MASK
    | SUBSTRUCTURE_NOTIFY_MASK | POINTER_MOTION_MASK | ENTER_WINDOW_MASK | LEAVE_WINDOW_MASK
    | STRUCTURE_NOTIFY_MASK | PROPERTY_CHANGE_MASK;

/// Configure-field bit: the x position is to be changed.
pub const CW_X: u32 = 0x1;

/// Configure-field bit: the y position is to be changed.
pub const CW_Y: u32 = 0x2;

/// Configure-field bit: the width is to be changed.
pub const CW_WIDTH: u32 = 0x4;

/// Configure-field bit: the height is to be changed.
pub const CW_HEIGHT: u32 = 0x8;

/// Configure-field bit: the border width is to be changed.
pub const CW_BORDER_WIDTH: u32 = 0x10;

/// The fields a geometry change unlocks: position, size and border width,
/// never stacking order or sibling relationships.
pub const GEOMETRY_UNLOCK: u32 = CW_X | CW_Y | CW_WIDTH | CW_HEIGHT | CW_BORDER_WIDTH;

/// The notification type code for a structure-change (configure)
/// notification.
pub const CONFIGURE_NOTIFY: i32 = 22;

/// A window handle as the caller's model object carries it: either a handle
/// in this backend's namespace, or one belonging to some other backend, on
/// which every operation of this layer is a no-op.
#[derive(Clone, Copy, PartialEq, Eq, Structural, Debug)]
pub enum WindowHandle {
    XlibHandle(u64),
    OtherHandle,
}

/// The slice of the caller's window model this layer reads: identity plus
/// the geometry to synchronize.
#[derive(Clone, Copy, PartialEq, Eq, Structural, Debug)]
pub struct Window {
    pub handle: WindowHandle,
    pub x: i32,
    pub y: i32,
    pub width: i32,
    pub height: i32,
    pub border: i32,
}

/// One display surface of the connection; carries the identity of its root
/// window.
#[derive(Clone, Copy, PartialEq, Eq, Structural, Debug)]
pub struct Screen {
    pub root: u64,
}

/// A snapshot of a window's server-side state, valid only at the instant of
/// the query.
#[derive(Clone, Copy, PartialEq, Eq, Structural, Debug)]
pub struct Attributes {
    pub x: i32,
    pub y: i32,
    pub width: i32,
    pub height: i32,
    pub border_width: i32,
    pub map_state: i32,
}

/// The payload of a configure request: the geometry fields, plus the
/// stacking fields this layer never unlocks.
#[derive(Clone, Copy, PartialEq, Eq, Structural, Debug)]
pub struct WindowChanges {
    pub x: i32,
    pub y: i32,
    pub width: i32,
    pub height: i32,
    pub border_width: i32,
    pub sibling: u64,
    pub stack_mode: i32,
}

/// The payload of a synthetic structure-change notification, carrying the
/// same geometry as the configure request that precedes it.
#[derive(Clone, Copy, PartialEq, Eq, Structural, Debug)]
pub struct ConfigureNotice {
    pub kind: i32,
    pub event: u64,
    pub window: u64,
    pub x: i32,
    pub y: i32,
    pub width: i32,
    pub height: i32,
    pub border_width: i32,
    pub above: u64,
    pub override_redirect: i32,
}

/// A notification delivered by the server. The model decodes only the
/// structure-change kind; everything else is carried through opaquely.
#[derive(Clone, Copy, PartialEq, Eq, Structural, Debug)]
pub enum Event {
    ConfigureNotify(ConfigureNotice),
    ButtonPress { window: u64 },
    MotionNotify { window: u64 },
    PropertyNotify { window: u64 },
    Other { kind: i32, window: u64 },
}

/// One request sent to the server, as the model logs it.
#[derive(Clone, Copy, PartialEq, Eq, Structural, Debug)]
pub enum Action {
    Configure { window: u64, changes: WindowChanges, unlock: u32 },
    Sync,
    SendEvent { window: u64, propagate: i32, event_mask: i64, notice: ConfigureNotice },
    SelectInput { window: u64, mask: i64 },
}

} // verus!
