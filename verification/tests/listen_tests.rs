use chess_listen::frame::RgbaImage;
use chess_listen::listen::{list_windows, ListenWindow, Window, WindowCandidate, WindowProbe};

fn probe(id: Option<u32>, title: Option<&str>, app: Option<&str>, w: Option<u32>, h: Option<u32>) -> WindowProbe {
    WindowProbe {
        id,
        title: title.map(|s| s.to_string()),
        app_name: app.map(|s| s.to_string()),
        width: w,
        height: h,
    }
}

fn target(id: u32) -> Window {
    Window { id, title: "board".to_string(), app_name: "chess".to_string(), width: 800, height: 600 }
}

/// A frame whose byte at each position is distinct enough to check a crop.
fn frame(width: u32, height: u32) -> RgbaImage {
    let mut data = Vec::new();
    for row in 0..height {
        for col in 0..width {
            data.push(row as u8);
            data.push(col as u8);
            data.push(7);
            data.push(255);
        }
    }
    RgbaImage { width, height, data }
}

#[test]
fn try_new_needs_an_id() {
    assert!(Window::try_new(&probe(None, Some("t"), Some("a"), Some(1), Some(2))).is_none());
}

#[test]
fn try_new_fills_missing_properties() {
    let w = Window::try_new(&probe(Some(9), None, None, None, None)).unwrap();
    assert_eq!(w, Window { id: 9, title: String::new(), app_name: String::new(), width: 0, height: 0 });
    let w = Window::try_new(&probe(Some(3), Some("天天象棋"), Some("chess"), Some(640), Some(480))).unwrap();
    assert_eq!(w.id, 3);
    assert_eq!(w.title, "天天象棋");
    assert_eq!(w.app_name, "chess");
    assert_eq!((w.width, w.height), (640, 480));
}

#[test]
fn list_windows_reports_listing_failure() {
    let r = list_windows(Err("permission denied".to_string()));
    assert_eq!(r, Err("获取窗口失败: permission denied".to_string()));
}

#[test]
fn list_windows_reports_no_window() {
    assert_eq!(list_windows(Ok(Vec::new())), Err("no window".to_string()));
}

#[test]
fn list_windows_keeps_windows_with_an_id_in_order() {
    let r = list_windows(Ok(vec![
        probe(Some(1), Some("a"), None, Some(10), Some(20)),
        probe(None, Some("ghost"), None, None, None),
        probe(Some(2), None, Some("b"), None, Some(5)),
    ]))
    .unwrap();
    assert_eq!(r.len(), 2);
    assert_eq!(r[0].id, 1);
    assert_eq!(r[0].title, "a");
    assert_eq!(r[1].id, 2);
    assert_eq!(r[1].app_name, "b");
    assert_eq!((r[1].width, r[1].height), (0, 5));
}

#[test]
fn list_windows_without_any_id_is_empty_but_ok() {
    let r = list_windows(Ok(vec![probe(None, None, None, None, None)]));
    assert_eq!(r, Ok(Vec::new()));
}

#[test]
fn listen_window_picks_first_matching_id() {
    let cs = vec![
        WindowCandidate { id: Some(4), window: "four" },
        WindowCandidate { id: None, window: "unknown" },
        WindowCandidate { id: Some(7), window: "first seven" },
        WindowCandidate { id: Some(7), window: "second seven" },
    ];
    let lw = ListenWindow::new(&target(7), Some(cs), 640, 640).unwrap();
    assert_eq!(*lw.window(), "first seven");
}

#[test]
fn listen_window_none_without_match_or_listing() {
    let cs = vec![WindowCandidate { id: Some(4), window: 4u8 }, WindowCandidate { id: None, window: 5u8 }];
    assert!(ListenWindow::new(&target(5), Some(cs), 640, 640).is_none());
    assert!(ListenWindow::<u8>::new(&target(5), None, 640, 640).is_none());
    assert!(ListenWindow::<u8>::new(&target(5), Some(Vec::new()), 640, 640).is_none());
}

#[test]
fn capture_without_bound_keeps_whole_frame() {
    let lw = ListenWindow::new(&target(1), Some(vec![WindowCandidate { id: Some(1), window: () }]), 0, 0).unwrap();
    let out = lw.capture(Some(frame(3, 2))).unwrap();
    assert_eq!((out.width, out.height), (3, 2));
    assert_eq!(out.data, frame(3, 2).data);
}

#[test]
fn capture_failure_gives_none() {
    let lw = ListenWindow::new(&target(1), Some(vec![WindowCandidate { id: Some(1), window: () }]), 0, 0).unwrap();
    assert!(lw.capture(None).is_none());
}

#[test]
fn capture_crops_to_bound() {
    let mut lw = ListenWindow::new(&target(1), Some(vec![WindowCandidate { id: Some(1), window: () }]), 0, 0).unwrap();
    lw.set_sub_bound(1, 2, 2, 3);
    let out = lw.capture(Some(frame(4, 6))).unwrap();
    assert_eq!((out.width, out.height), (2, 3));
    assert_eq!(out.data.len(), 2 * 3 * 4);
    for r in 0..3u32 {
        for c in 0..2u32 {
            let k = ((r * 2 + c) * 4) as usize;
            assert_eq!(&out.data[k..k + 4], &[(r + 2) as u8, (c + 1) as u8, 7, 255]);
        }
    }
}

#[test]
fn capture_bound_filling_the_frame_is_the_frame() {
    let mut lw = ListenWindow::new(&target(1), Some(vec![WindowCandidate { id: Some(1), window: () }]), 0, 0).unwrap();
    lw.set_sub_bound(0, 0, 4, 6);
    let out = lw.capture(Some(frame(4, 6))).unwrap();
    assert_eq!(out.data, frame(4, 6).data);
}

#[test]
fn capture_bound_outside_frame_gives_none() {
    let mut lw = ListenWindow::new(&target(1), Some(vec![WindowCandidate { id: Some(1), window: () }]), 0, 0).unwrap();
    lw.set_sub_bound(3, 0, 2, 2);
    assert!(lw.capture(Some(frame(4, 6))).is_none());
    lw.set_sub_bound(0, 5, 2, 2);
    assert!(lw.capture(Some(frame(4, 6))).is_none());
}

#[test]
fn capture_zero_sized_bound_keeps_whole_frame() {
    let mut lw = ListenWindow::new(&target(1), Some(vec![WindowCandidate { id: Some(1), window: () }]), 0, 0).unwrap();
    lw.set_sub_bound(100, 100, 0, 5);
    let out = lw.capture(Some(frame(2, 2))).unwrap();
    assert_eq!(out.data, frame(2, 2).data);
}
