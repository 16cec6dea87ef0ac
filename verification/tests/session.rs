use xwrap::types::Action;
use xwrap::types::Attributes;
use xwrap::types::Event;
use xwrap::types::Window;
use xwrap::types::WindowHandle;
use xwrap::types::GEOMETRY_UNLOCK;
use xwrap::types::ROOT_EVENT_MASK;
use xwrap::types::STRUCTURE_NOTIFY_MASK;
use xwrap::xwrap::XWrap;

fn attrs(x: i32, y: i32, width: i32, height: i32, border_width: i32) -> Attributes {
    Attributes { x, y, width, height, border_width, map_state: 1 }
}

fn three_window_session() -> XWrap {
    let mut s = XWrap::new();
    s.add_screen(1);
    s.add_window(10, 1, attrs(0, 0, 100, 100, 0), None, None);
    s.add_window(11, 1, attrs(5, 5, 120, 80, 2), None, None);
    s.add_window(12, 1, attrs(50, 60, 640, 480, 1), None, None);
    s
}

#[test]
fn roots_match_screens_one_per_screen() {
    let mut s = XWrap::new();
    assert_eq!(s.get_screens().len(), s.get_roots().len());
    s.add_screen(100);
    s.add_screen(200);
    s.add_screen(300);
    let screens = s.get_screens();
    let roots = s.get_roots();
    assert_eq!(screens.len(), roots.len());
    assert_eq!(roots, vec![100, 200, 300]);
    for i in 0..screens.len() {
        assert_eq!(screens[i].root, roots[i]);
    }
}

#[test]
fn enumerated_windows_all_have_attributes() {
    let s = three_window_session();
    let all = s.get_all_windows().unwrap();
    assert_eq!(all, vec![10, 11, 12]);
    for w in &all {
        let a = s.get_window_attrs(*w).unwrap();
        assert!(a.width > 0 && a.height > 0);
    }
}

#[test]
fn attributes_of_vanished_window_is_explicit_not_found() {
    let s = three_window_session();
    assert_eq!(s.get_window_attrs(99), Err(()));
}

#[test]
fn windows_for_unknown_root_fails_with_message() {
    let s = three_window_session();
    let err = s.get_windows_for_root(2).unwrap_err();
    assert_eq!(err, "Could not load list of windows");
}

#[test]
fn windows_for_root_splits_by_root() {
    let mut s = XWrap::new();
    s.add_screen(1);
    s.add_screen(2);
    s.add_window(10, 1, attrs(0, 0, 10, 10, 0), None, None);
    s.add_window(20, 2, attrs(0, 0, 10, 10, 0), None, None);
    s.add_window(11, 1, attrs(0, 0, 10, 10, 0), None, None);
    assert_eq!(s.get_windows_for_root(1).unwrap(), vec![10, 11]);
    assert_eq!(s.get_windows_for_root(2).unwrap(), vec![20]);
    assert_eq!(s.get_all_windows().unwrap(), vec![10, 11, 20]);
}

#[test]
fn geometry_round_trip() {
    let mut s = three_window_session();
    let target = Window {
        handle: WindowHandle::XlibHandle(11),
        x: 10,
        y: 20,
        width: 300,
        height: 200,
        border: 1,
    };
    s.update_window(&target);
    let a = s.get_window_attrs(11).unwrap();
    assert_eq!(a.x, 10);
    assert_eq!(a.y, 20);
    assert_eq!(a.width, 300);
    assert_eq!(a.height, 200);
    assert_eq!(a.border_width, 1);
    assert_eq!(a.map_state, 1);
    let untouched = s.get_window_attrs(10).unwrap();
    assert_eq!(untouched, attrs(0, 0, 100, 100, 0));
}

#[test]
fn update_sends_one_request_then_one_notification() {
    let mut s = three_window_session();
    let target = Window {
        handle: WindowHandle::XlibHandle(11),
        x: 10,
        y: 20,
        width: 300,
        height: 200,
        border: 1,
    };
    s.update_window(&target);
    let log = s.actions_log();
    assert_eq!(log.len(), 3);
    match &log[0] {
        Action::Configure { window, changes, unlock } => {
            assert_eq!(*window, 11);
            assert_eq!(*unlock, GEOMETRY_UNLOCK);
            assert_eq!(changes.x, 10);
            assert_eq!(changes.y, 20);
            assert_eq!(changes.width, 300);
            assert_eq!(changes.height, 200);
            assert_eq!(changes.border_width, 1);
            assert_eq!(changes.sibling, 0);
            assert_eq!(changes.stack_mode, 0);
        },
        other => panic!("expected a configure request first, got {:?}", other),
    }
    assert!(matches!(log[1], Action::Sync));
    match &log[2] {
        Action::SendEvent { window, propagate, event_mask, notice } => {
            assert_eq!(*window, 11);
            assert_eq!(*propagate, 0);
            assert_eq!(*event_mask, STRUCTURE_NOTIFY_MASK);
            assert_eq!(notice.event, 11);
            assert_eq!(notice.window, 11);
            assert_eq!(notice.x, 10);
            assert_eq!(notice.y, 20);
            assert_eq!(notice.width, 300);
            assert_eq!(notice.height, 200);
            assert_eq!(notice.border_width, 1);
            assert_eq!(notice.above, 0);
            assert_eq!(notice.override_redirect, 0);
        },
        other => panic!("expected the synthetic notification last, got {:?}", other),
    }
}

#[test]
fn update_of_foreign_handle_is_a_no_op() {
    let mut s = three_window_session();
    let foreign = Window {
        handle: WindowHandle::OtherHandle,
        x: 10,
        y: 20,
        width: 300,
        height: 200,
        border: 1,
    };
    s.update_window(&foreign);
    assert_eq!(s.actions_log().len(), 0);
    assert_eq!(s.pending_count(), 0);
    assert_eq!(s.get_window_attrs(11).unwrap(), attrs(5, 5, 120, 80, 2));
}

#[test]
fn transient_hint_absent_and_present() {
    let mut s = XWrap::new();
    s.add_screen(1);
    s.add_window(10, 1, attrs(0, 0, 10, 10, 0), None, None);
    s.add_window(11, 1, attrs(0, 0, 10, 10, 0), Some(10), None);
    assert_eq!(s.get_transient_for(10), None);
    assert_eq!(s.get_transient_for(11), Some(10));
    assert_eq!(s.get_transient_for(99), None);
}

#[test]
fn window_name_present_absent_and_vanished() {
    let mut s = XWrap::new();
    s.add_screen(1);
    s.add_window(10, 1, attrs(0, 0, 10, 10, 0), None, Some("terminal".to_string()));
    s.add_window(11, 1, attrs(0, 0, 10, 10, 0), None, None);
    assert_eq!(s.get_window_name(10), Some("terminal".to_string()));
    assert_eq!(s.get_window_name(11), None);
    assert_eq!(s.get_window_name(99), None);
}

#[test]
fn monitored_window_update_generates_a_structure_change_event() {
    let mut s = three_window_session();
    s.subscribe_to_event(11, STRUCTURE_NOTIFY_MASK);
    assert_eq!(s.pending_count(), 0);
    let target = Window {
        handle: WindowHandle::XlibHandle(11),
        x: 10,
        y: 20,
        width: 300,
        height: 200,
        border: 1,
    };
    s.update_window(&target);
    assert_eq!(s.pending_count(), 1);
    match s.get_next_event() {
        Event::ConfigureNotify(n) => {
            assert_eq!(n.window, 11);
            assert_eq!(n.x, 10);
            assert_eq!(n.y, 20);
            assert_eq!(n.width, 300);
            assert_eq!(n.height, 200);
            assert_eq!(n.border_width, 1);
        },
        other => panic!("expected a structure-change notification, got {:?}", other),
    }
    assert_eq!(s.pending_count(), 0);
}

#[test]
fn unmonitored_window_update_generates_no_event() {
    let mut s = three_window_session();
    let target = Window {
        handle: WindowHandle::XlibHandle(11),
        x: 1,
        y: 2,
        width: 3,
        height: 4,
        border: 0,
    };
    s.update_window(&target);
    assert_eq!(s.pending_count(), 0);
}

#[test]
fn a_later_mask_replaces_the_earlier_one() {
    let mut s = three_window_session();
    s.subscribe_to_event(11, STRUCTURE_NOTIFY_MASK);
    s.subscribe_to_event(11, 0);
    let target = Window {
        handle: WindowHandle::XlibHandle(11),
        x: 1,
        y: 2,
        width: 3,
        height: 4,
        border: 0,
    };
    s.update_window(&target);
    assert_eq!(s.pending_count(), 0);
}

#[test]
fn init_subscribes_every_root_then_flushes() {
    let mut s = XWrap::new();
    s.add_screen(100);
    s.add_screen(200);
    s.init();
    let log = s.actions_log();
    assert_eq!(log.len(), 3);
    match &log[0] {
        Action::SelectInput { window, mask } => {
            assert_eq!(*window, 100);
            assert_eq!(*mask, ROOT_EVENT_MASK);
        },
        other => panic!("expected a mask installation, got {:?}", other),
    }
    match &log[1] {
        Action::SelectInput { window, mask } => {
            assert_eq!(*window, 200);
            assert_eq!(*mask, ROOT_EVENT_MASK);
        },
        other => panic!("expected a mask installation, got {:?}", other),
    }
    assert!(matches!(log[2], Action::Sync));
}

#[test]
fn scenario_one_screen_three_windows_resize_second() {
    let mut s = XWrap::new();
    s.add_screen(1);
    s.add_window(10, 1, attrs(0, 0, 100, 100, 0), None, None);
    s.add_window(11, 1, attrs(5, 5, 120, 80, 2), None, None);
    s.add_window(12, 1, attrs(50, 60, 640, 480, 1), None, None);
    assert_eq!(s.get_screens().len(), 1);
    assert_eq!(s.get_roots(), vec![1]);
    let all = s.get_all_windows().unwrap();
    assert_eq!(all, vec![10, 11, 12]);
    for w in &all {
        assert!(s.get_window_attrs(*w).is_ok());
    }
    let second = Window {
        handle: WindowHandle::XlibHandle(all[1]),
        x: 10,
        y: 20,
        width: 300,
        height: 200,
        border: 1,
    };
    s.update_window(&second);
    let a = s.get_window_attrs(all[1]).unwrap();
    assert_eq!(a.x, 10);
    assert_eq!(a.y, 20);
    assert_eq!(a.width, 300);
    assert_eq!(a.height, 200);
    assert_eq!(a.border_width, 1);
}
