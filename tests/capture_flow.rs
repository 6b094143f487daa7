use bevy_xcap::{
    locate_window, native_window_id, pick_window, CaptureError, CaptureJob, CapturedImage,
    Completion, Coordinator, Dispatch, NativeScreenshot, NewRequest, WindowHandle, WindowInfo,
};

fn image(width: u32, height: u32) -> CapturedImage {
    let len = (width as usize) * (height as usize) * 4;
    CapturedImage { width, height, rgba: vec![7u8; len] }
}

fn window(id: Option<u32>, title: Option<&str>) -> WindowInfo {
    WindowInfo { id, title: title.map(|t| t.to_string()) }
}

fn request(id: u64, handle: Option<WindowHandle>, title: Option<&str>) -> NewRequest {
    NewRequest { id, handle, title: title.map(|t| t.to_string()) }
}

fn launched(d: Dispatch) -> CaptureJob {
    match d {
        Dispatch::Launch(job) => job,
        other => panic!("expected a launch, got {:?}", other),
    }
}

#[test]
fn one_request_yields_one_event() {
    let mut c = Coordinator::new();
    let job = launched(c.dispatch(request(11, Some(WindowHandle::Xlib(0x0040_0001)), Some("bevy_xcap CI test"))));
    assert_eq!(job.id, 11);
    assert_eq!(job.handle, WindowHandle::Xlib(0x0040_0001));
    assert_eq!(job.title.as_deref(), Some("bevy_xcap CI test"));

    let windows = Ok(vec![window(Some(3), Some("terminal")), window(Some(0x0040_0001), Some("bevy_xcap CI test"))]);
    assert_eq!(pick_window(&job, &windows).ok(), Some(1));

    match c.complete(11, Ok(image(400, 300)), true) {
        Completion::Fire(ev) => {
            assert_eq!(ev.entity, 11);
            assert_eq!(ev.width, 400);
            assert_eq!(ev.height, 300);
            assert_eq!(ev.rgba.len(), 4 * 400 * 300);
        }
        other => panic!("expected an event, got {:?}", other),
    }
    assert!(matches!(c.complete(11, Ok(image(400, 300)), true), Completion::Drop));
}

#[test]
fn missing_handle_retires_without_event() {
    let mut c = Coordinator::new();
    assert!(matches!(c.dispatch(request(5, None, Some("main"))), Dispatch::Retire(5)));
    // no worker was started, so a report under this identity is never accepted
    assert!(matches!(c.complete(5, Ok(image(2, 2)), true), Completion::Drop));
    assert!(matches!(c.dispatch(request(5, Some(WindowHandle::Xcb(9)), None)), Dispatch::Ignore));
}

#[test]
fn ten_requests_give_ten_events() {
    let mut c = Coordinator::new();
    for id in 1..=10u64 {
        let job = launched(c.dispatch(request(id, Some(WindowHandle::Xcb(77)), Some("game"))));
        assert_eq!(job.id, id);
    }
    let mut events = 0;
    for id in (1..=10u64).rev() {
        match c.complete(id, Ok(image(40, 30)), true) {
            Completion::Fire(ev) => {
                assert_eq!(ev.entity, id);
                assert!(ev.width >= 1 && ev.height >= 1);
                assert_eq!(ev.rgba.len(), 4 * (ev.width as usize) * (ev.height as usize));
                events += 1;
            }
            other => panic!("expected an event, got {:?}", other),
        }
    }
    assert_eq!(events, 10);
    for id in 1..=10u64 {
        assert!(matches!(c.complete(id, Ok(image(40, 30)), true), Completion::Drop));
    }
}

#[test]
fn destroyed_record_drops_report() {
    let mut c = Coordinator::new();
    launched(c.dispatch(request(3, Some(WindowHandle::Win32(0x1234)), None)));
    assert!(matches!(c.complete(3, Ok(image(8, 8)), false), Completion::Drop));
    assert!(matches!(c.complete(3, Ok(image(8, 8)), true), Completion::Drop));
}

#[test]
fn title_fallback_and_no_match() {
    let job = CaptureJob { id: 1, handle: WindowHandle::AppKit, title: Some("Editor".to_string()) };
    let windows = Ok(vec![window(Some(1), Some("Finder")), window(Some(2), Some("Editor")), window(Some(3), Some("Editor"))]);
    assert_eq!(pick_window(&job, &windows).ok(), Some(1));

    let none = CaptureJob { id: 2, handle: WindowHandle::AppKit, title: Some("Missing".to_string()) };
    assert!(matches!(pick_window(&none, &windows), Err(CaptureError::NoMatchingWindow)));

    let untitled = CaptureJob { id: 3, handle: WindowHandle::Other, title: None };
    assert!(matches!(pick_window(&untitled, &windows), Err(CaptureError::NoMatchingWindow)));
}

#[test]
fn request_after_idle_ticks_completes() {
    let mut c = Coordinator::new();
    for tick in 0..30u64 {
        // idle ticks: nothing dispatched, stray reports are dropped
        assert!(matches!(c.complete(1000 + tick, Ok(image(1, 1)), true), Completion::Drop));
    }
    launched(c.dispatch(request(42, Some(WindowHandle::Xcb(8)), None)));
    let mut fired_at = None;
    for tick in 0..90u32 {
        if tick == 2 {
            if let Completion::Fire(ev) = c.complete(42, Ok(image(400, 300)), true) {
                assert_eq!((ev.width, ev.height, ev.rgba.len()), (400, 300, 480_000));
                fired_at = Some(tick);
            }
        }
    }
    assert_eq!(fired_at, Some(2));
}

#[test]
fn duplicate_identity_is_ignored() {
    let mut c = Coordinator::new();
    launched(c.dispatch(request(9, Some(WindowHandle::Xcb(1)), None)));
    assert!(matches!(c.dispatch(request(9, Some(WindowHandle::Xcb(1)), None)), Dispatch::Ignore));
    assert!(matches!(c.complete(9, Ok(image(1, 1)), true), Completion::Fire(_)));
    assert!(matches!(c.dispatch(request(9, Some(WindowHandle::Xcb(1)), None)), Dispatch::Ignore));
}

#[test]
fn failure_report_retires_without_event() {
    let mut c = Coordinator::new();
    launched(c.dispatch(request(4, Some(WindowHandle::Xcb(1)), None)));
    match c.complete(4, Err(CaptureError::CaptureFailed("denied".to_string())), true) {
        Completion::Fail(4, CaptureError::CaptureFailed(m)) => assert_eq!(m, "denied"),
        other => panic!("expected a failure, got {:?}", other),
    }
    assert!(matches!(c.complete(4, Ok(image(1, 1)), true), Completion::Drop));
}

#[test]
fn malformed_image_is_a_failure() {
    let mut c = Coordinator::new();
    launched(c.dispatch(request(6, Some(WindowHandle::Xcb(1)), None)));
    let bad = CapturedImage { width: 2, height: 2, rgba: vec![0u8; 15] };
    match c.complete(6, Ok(bad), true) {
        Completion::Fail(6, CaptureError::MalformedImage { width, height, len }) => {
            assert_eq!((width, height, len), (2, 2, 15));
        }
        other => panic!("expected a failure, got {:?}", other),
    }
    launched(c.dispatch(request(7, Some(WindowHandle::Xcb(1)), None)));
    let empty = CapturedImage { width: 0, height: 5, rgba: Vec::new() };
    assert!(matches!(c.complete(7, Ok(empty), true), Completion::Fail(7, CaptureError::MalformedImage { .. })));
}

#[test]
fn image_shape_check() {
    assert!(image(3, 2).is_well_formed());
    assert!(!CapturedImage { width: 3, height: 0, rgba: Vec::new() }.is_well_formed());
    assert!(!CapturedImage { width: 1, height: 1, rgba: vec![0u8; 5] }.is_well_formed());
    assert!(!CapturedImage { width: u32::MAX, height: u32::MAX, rgba: vec![0u8; 4] }.is_well_formed());
}

#[test]
fn native_ids_by_variant() {
    assert_eq!(native_window_id(&WindowHandle::Win32(0x1_0000_0005)), Some(5));
    assert_eq!(native_window_id(&WindowHandle::Win32(0x00AB_CDEF)), Some(0x00AB_CDEF));
    assert_eq!(native_window_id(&WindowHandle::Xlib(0x1_2345_6789)), Some(0x2345_6789));
    assert_eq!(native_window_id(&WindowHandle::Xcb(42)), Some(42));
    assert_eq!(native_window_id(&WindowHandle::AppKit), None);
    assert_eq!(native_window_id(&WindowHandle::Other), None);
}

#[test]
fn id_match_wins_over_title() {
    let windows = vec![window(Some(1), Some("App")), window(Some(2), Some("Other")), window(Some(2), Some("App"))];
    assert_eq!(locate_window(&windows, Some(2), &Some("App".to_string())), Some(1));
    // an identifier that matches nothing falls back to the title
    assert_eq!(locate_window(&windows, Some(9), &Some("App".to_string())), Some(0));
    assert_eq!(locate_window(&windows, Some(9), &None), None);
    // unreadable ids and titles never match
    let blank = vec![window(None, None)];
    assert_eq!(locate_window(&blank, Some(0), &Some(String::new())), None);
    assert_eq!(locate_window(&Vec::new(), Some(1), &Some("App".to_string())), None);
}

#[test]
fn enumeration_failure_is_reported() {
    let job = CaptureJob { id: 1, handle: WindowHandle::Xcb(3), title: None };
    let failed: Result<Vec<WindowInfo>, String> = Err("no display".to_string());
    match pick_window(&job, &failed) {
        Err(CaptureError::EnumerationFailed(m)) => assert_eq!(m, "no display"),
        other => panic!("expected an enumeration failure, got {:?}", other),
    }
}

#[test]
fn request_marker_targets_window() {
    assert_eq!(NativeScreenshot::window(17).target, 17);
}

#[test]
fn every_submission_ends_retired() {
    let mut c = Coordinator::new();
    let mut launched_ids = Vec::new();
    for id in 1..=6u64 {
        let handle = if id % 3 == 0 { None } else { Some(WindowHandle::Xcb(id as u32)) };
        match c.dispatch(request(id, handle, None)) {
            Dispatch::Launch(job) => launched_ids.push(job.id),
            Dispatch::Retire(r) => assert_eq!(r, id),
            Dispatch::Ignore => panic!("fresh identity {} was ignored", id),
        }
    }
    assert_eq!(launched_ids, vec![1, 2, 4, 5]);
    assert!(matches!(c.complete(1, Ok(image(2, 2)), true), Completion::Fire(_)));
    assert!(matches!(c.complete(2, Err(CaptureError::NoMatchingWindow), true), Completion::Fail(2, _)));
    assert!(matches!(c.complete(4, Ok(image(2, 2)), false), Completion::Drop));
    assert!(matches!(c.complete(5, Ok(image(2, 2)), true), Completion::Fire(_)));
    // all six are retired: none is taken again, and no report fires twice
    for id in 1..=6u64 {
        assert!(matches!(c.dispatch(request(id, Some(WindowHandle::Xcb(1)), None)), Dispatch::Ignore));
        assert!(matches!(c.complete(id, Ok(image(2, 2)), true), Completion::Drop));
    }
}
