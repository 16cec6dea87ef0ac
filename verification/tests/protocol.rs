use xwrap::protocol::build_configure_notice;
use xwrap::protocol::build_window_changes;
use xwrap::protocol::interpret_tree_status;
use xwrap::types::Window;
use xwrap::types::WindowHandle;
use xwrap::types::BUTTON_PRESS_MASK;
use xwrap::types::CONFIGURE_NOTIFY;
use xwrap::types::ENTER_WINDOW_MASK;
use xwrap::types::GEOMETRY_UNLOCK;
use xwrap::types::LEAVE_WINDOW_MASK;
use xwrap::types::POINTER_MOTION_MASK;
use xwrap::types::PROPERTY_CHANGE_MASK;
use xwrap::types::ROOT_EVENT_MASK;
use xwrap::types::STRUCTURE_NOTIFY_MASK;
use xwrap::types::SUBSTRUCTURE_NOTIFY_MASK;
use xwrap::types::SUBSTRUCTURE_REDIRECT_MASK;

#[test]
fn tree_status_failure_gives_the_load_error() {
    let r = interpret_tree_status(0, vec![1, 2, 3]);
    assert_eq!(r.unwrap_err(), "Could not load list of windows");
}

#[test]
fn tree_status_success_gives_the_windows() {
    let r = interpret_tree_status(1, vec![1, 2, 3]);
    assert_eq!(r.unwrap(), vec![1, 2, 3]);
}

#[test]
fn tree_status_success_with_compression_gives_the_windows() {
    let r = interpret_tree_status(2, vec![7]);
    assert_eq!(r.unwrap(), vec![7]);
}

#[test]
fn tree_status_unknown_gives_the_unknown_error() {
    let r = interpret_tree_status(3, vec![]);
    assert_eq!(r.unwrap_err(), "Unknown return status");
    let r = interpret_tree_status(-1, vec![4]);
    assert_eq!(r.unwrap_err(), "Unknown return status");
}

#[test]
fn changes_carry_the_geometry_and_keep_stacking_locked() {
    let w = Window {
        handle: WindowHandle::XlibHandle(42),
        x: -3,
        y: 7,
        width: 800,
        height: 600,
        border: 2,
    };
    let c = build_window_changes(&w);
    assert_eq!(c.x, -3);
    assert_eq!(c.y, 7);
    assert_eq!(c.width, 800);
    assert_eq!(c.height, 600);
    assert_eq!(c.border_width, 2);
    assert_eq!(c.sibling, 0);
    assert_eq!(c.stack_mode, 0);
}

#[test]
fn notice_addresses_the_window_itself_with_its_geometry() {
    let w = Window {
        handle: WindowHandle::XlibHandle(42),
        x: -3,
        y: 7,
        width: 800,
        height: 600,
        border: 2,
    };
    let n = build_configure_notice(42, &w);
    assert_eq!(n.kind, CONFIGURE_NOTIFY);
    assert_eq!(n.event, 42);
    assert_eq!(n.window, 42);
    assert_eq!(n.x, -3);
    assert_eq!(n.y, 7);
    assert_eq!(n.width, 800);
    assert_eq!(n.height, 600);
    assert_eq!(n.border_width, 2);
    assert_eq!(n.above, 0);
    assert_eq!(n.override_redirect, 0);
}

#[test]
fn mask_and_field_constants_have_the_protocol_values() {
    assert_eq!(BUTTON_PRESS_MASK, 1 << 2);
    assert_eq!(ENTER_WINDOW_MASK, 1 << 4);
    assert_eq!(LEAVE_WINDOW_MASK, 1 << 5);
    assert_eq!(POINTER_MOTION_MASK, 1 << 6);
    assert_eq!(STRUCTURE_NOTIFY_MASK, 1 << 17);
    assert_eq!(SUBSTRUCTURE_NOTIFY_MASK, 1 << 19);
    assert_eq!(SUBSTRUCTURE_REDIRECT_MASK, 1 << 20);
    assert_eq!(PROPERTY_CHANGE_MASK, 1 << 22);
    assert_eq!(ROOT_EVENT_MASK, 0x5A0074);
    assert_eq!(GEOMETRY_UNLOCK, 0x1F);
    assert_eq!(CONFIGURE_NOTIFY, 22);
}
