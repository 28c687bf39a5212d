//! The overlay: its state, its commands, and how it is set up and given up.
use leopardwm_overlay::error::Win32Error;
use leopardwm_overlay::hint::{SnapHintConfig, SnapHintType};
use leopardwm_overlay::overlay::{
    repaint_overlay, reposition_overlay, reposition_overlay_rects, CloseAction, InitReply,
    OverlayWindow,
};
use leopardwm_overlay::rect::Rect;
use leopardwm_overlay::state::{Command, OverlayState, Push, OVERLAY_ALPHA, OVERLAY_COLOR};
use leopardwm_overlay::worker::{
    thread_step, window_settings, ThreadAction, ThreadEvent, ThreadState, WM_QUIT_OVERLAY,
    WM_REPAINT_OVERLAY, WM_USER,
    WS_EX_LAYERED, WS_EX_NOACTIVATE, WS_EX_TOOLWINDOW, WS_EX_TOPMOST, WS_EX_TRANSPARENT,
    WS_VISIBLE,
};

fn window(hwnd: isize) -> OverlayWindow {
    let claim = OverlayWindow::claim(false).unwrap();
    OverlayWindow::new(claim, None, InitReply::Window(hwnd)).result.unwrap()
}

fn pushed(cmd: Command) -> Push {
    match cmd {
        Command::Push(push) => push,
        other => panic!("not a push: {:?}", other),
    }
}

fn text(e: Win32Error) -> String {
    match e {
        Win32Error::HookInstallFailed(text) => text,
    }
}

#[test]
fn test_snap_hint_config_default() {
    let config = SnapHintConfig::default();
    assert!(config.enabled);
    assert!(config.duration_ms > 0);
}

#[test]
fn test_overlay_state_default() {
    let state = OverlayState::new();
    assert!(state.rects.is_empty());
    assert_eq!(state.alpha, 128);
    assert_eq!(state.color, OVERLAY_COLOR);
}

#[test]
fn snap_hint_defaults_are_exact_and_cloned() {
    let config = SnapHintConfig::default().clone();
    assert!(config.enabled);
    assert_eq!(config.resize_color, 0x00FF8040);
    assert_eq!(config.move_color, 0x0040FF40);
    assert_eq!(config.focus_color, 0x004080FF);
    assert_eq!(config.duration_ms, 200);
}

#[test]
fn snap_hint_types_are_told_apart() {
    assert_eq!(SnapHintType::ColumnResize, SnapHintType::ColumnResize);
    assert_ne!(SnapHintType::MoveTarget, SnapHintType::FocusTarget);
}

#[test]
fn starting_color_and_alpha() {
    assert_eq!(OVERLAY_COLOR, 0x00FF8040);
    assert_eq!(OVERLAY_ALPHA, 128);
}

#[test]
fn show_then_hide() {
    let overlay = window(17);
    let mut state = OverlayState::new();
    assert!(!overlay.is_visible(Some(&state)));
    let push = pushed(overlay.show_snap_target(Some(&mut state), Rect::new(100, 100, 800, 600)));
    assert_eq!(push.hwnd, 17);
    assert_eq!(push.rects, vec![Rect { x: 100, y: 100, width: 800, height: 600 }]);
    assert_eq!(push.color, OVERLAY_COLOR);
    assert_eq!(push.alpha, 128);
    assert_eq!(push.message, Some(WM_REPAINT_OVERLAY));
    assert_eq!(state.rects, push.rects);
    assert!(overlay.is_visible(Some(&state)));
    assert!(matches!(overlay.hide_overlay(Some(&mut state)), Command::Hide { hwnd: 17 }));
    assert!(state.rects.is_empty());
    assert!(!overlay.is_visible(Some(&state)));
}

#[test]
fn several_targets_replace_what_was_shown() {
    let overlay = window(1);
    let mut state = OverlayState::new();
    overlay.show_snap_target(Some(&mut state), Rect::new(0, 0, 1, 1));
    let rects = [Rect::new(0, 0, 10, 10), Rect::new(20, 0, 10, 10)];
    let push = pushed(overlay.show_snap_targets(Some(&mut state), &rects));
    assert_eq!(push.rects, rects.to_vec());
    assert_eq!(state.rects, rects.to_vec());
}

#[test]
fn showing_nothing_hides() {
    let overlay = window(1);
    let mut state = OverlayState::new();
    overlay.show_snap_targets(Some(&mut state), &[Rect::new(0, 0, 10, 10)]);
    let cmd = overlay.show_snap_targets(Some(&mut state), &[]);
    assert!(matches!(cmd, Command::Hide { hwnd: 1 }));
    assert!(!overlay.is_visible(Some(&state)));
    let cmd = overlay.show_snap_targets(None, &[]);
    assert!(matches!(cmd, Command::Hide { hwnd: 1 }));
    overlay.show_snap_target(Some(&mut state), Rect::new(0, 0, 1, 1));
    let cmd = reposition_overlay_rects(1, Some(&mut state), &[]);
    assert!(matches!(cmd, Command::Hide { hwnd: 1 }));
    assert!(!overlay.is_visible(Some(&state)));
}

#[test]
fn the_thread_draws_what_is_shown_when_asked() {
    let overlay = window(4);
    let mut state = OverlayState::new();
    let asked = pushed(overlay.show_snap_target(Some(&mut state), Rect::new(1, 2, 3, 4)));
    let event = ThreadEvent::Received { result: 1, message: asked.message.unwrap() };
    let pumping = ThreadState::Pumping { hwnd: 4 };
    let (after, action) = thread_step(pumping, event);
    assert_eq!(after, pumping);
    assert!(matches!(action, ThreadAction::Repaint { hwnd: 4 }));
    let drawn = pushed(repaint_overlay(4, Some(&state)));
    assert_eq!(drawn.message, None);
    assert_eq!(drawn.hwnd, 4);
    assert_eq!(drawn.rects, asked.rects);
    assert_eq!((drawn.color, drawn.alpha), (asked.color, asked.alpha));
    overlay.hide_overlay(Some(&mut state));
    assert!(matches!(repaint_overlay(4, Some(&state)), Command::Hide { hwnd: 4 }));
    assert!(matches!(repaint_overlay(4, None), Command::Nothing));
}

#[test]
fn no_more_messages_ends_the_thread_whatever_the_number() {
    let event = ThreadEvent::Received { result: 0, message: WM_REPAINT_OVERLAY };
    let (after, action) = thread_step(ThreadState::Pumping { hwnd: 4 }, event);
    assert_eq!(after, ThreadState::Finished);
    assert!(matches!(action, ThreadAction::Destroy { hwnd: 4 }));
}

#[test]
fn new_overlay_is_hidden_and_at_half_opacity() {
    let mut state = OverlayState::new();
    let mut first = window(1);
    first.show_snap_target(Some(&mut state), Rect::new(100, 100, 800, 600));
    first.set_opacity(Some(&mut state), 200);
    first.set_color(Some(&mut state), 0x0000FF00);
    while first.close() != CloseAction::Nothing {}

    let claim = OverlayWindow::claim(false).unwrap();
    assert!(OverlayWindow::new(claim, Some(&mut state), InitReply::Lost).result.is_err());
    assert_eq!(state.rects, vec![Rect::new(100, 100, 800, 600)]);
    assert_eq!(state.alpha, 200);

    let claim = OverlayWindow::claim(false).unwrap();
    let second = OverlayWindow::new(claim, Some(&mut state), InitReply::Window(2)).result.unwrap();
    assert!(!second.is_visible(Some(&state)));
    assert!(matches!(second.set_color(Some(&mut state), 0x000000FF), Command::Nothing));
    let push = pushed(second.show_snap_target(Some(&mut state), Rect::new(0, 0, 1, 1)));
    assert_eq!((push.hwnd, push.color, push.alpha), (2, 0x000000FF, 128));
}

#[test]
fn last_show_counts() {
    let overlay = window(1);
    let mut state = OverlayState::new();
    overlay.show_snap_target(Some(&mut state), Rect::new(9, 9, 9, 9));
    overlay.show_snap_target(Some(&mut state), Rect::new(1, 2, 3, 4));
    overlay.set_color(Some(&mut state), 1);
    overlay.set_opacity(Some(&mut state), 2);
    overlay.set_color(Some(&mut state), 3);
    assert_eq!(state.rects, vec![Rect::new(1, 2, 3, 4)]);
}

#[test]
fn column_boundary_is_centered() {
    let overlay = window(1);
    let mut state = OverlayState::new();
    let push = pushed(overlay.show_column_boundary(Some(&mut state), 500, 10, 700, 5));
    assert_eq!(push.rects, vec![Rect::new(498, 10, 5, 700)]);
    let push = pushed(overlay.show_column_boundary(Some(&mut state), 500, 10, 700, 4));
    assert_eq!(push.rects, vec![Rect::new(498, 10, 4, 700)]);
    let push = pushed(overlay.show_column_boundary(Some(&mut state), 500, 10, 700, -5));
    assert_eq!(push.rects, vec![Rect::new(502, 10, -5, 700)]);
}

#[test]
fn new_color_and_opacity_are_drawn_where_visible() {
    let overlay = window(3);
    let mut state = OverlayState::new();
    assert!(matches!(overlay.set_color(Some(&mut state), 0x000000FF), Command::Nothing));
    assert!(matches!(overlay.set_opacity(Some(&mut state), 7), Command::Nothing));
    let push = pushed(overlay.show_snap_target(Some(&mut state), Rect::new(1, 2, 3, 4)));
    assert_eq!((push.color, push.alpha), (0x000000FF, 7));
    let push = pushed(overlay.set_color(Some(&mut state), 0x0000FF00));
    assert_eq!(push.rects, vec![Rect::new(1, 2, 3, 4)]);
    assert_eq!((push.hwnd, push.color, push.alpha), (3, 0x0000FF00, 7));
    assert_eq!(push.message, Some(WM_REPAINT_OVERLAY));
    let push = pushed(overlay.set_opacity(Some(&mut state), 255));
    assert_eq!((push.color, push.alpha), (0x0000FF00, 255));
    assert_eq!((state.color, state.alpha), (0x0000FF00, 255));
    assert_eq!(state.rects, vec![Rect::new(1, 2, 3, 4)]);
}

#[test]
fn settings_commute() {
    let overlay = window(3);
    let mut one = OverlayState::new();
    let mut two = OverlayState::new();
    overlay.set_color(Some(&mut one), 5);
    overlay.set_opacity(Some(&mut one), 6);
    overlay.show_snap_target(Some(&mut one), Rect::new(1, 2, 3, 4));
    overlay.show_snap_target(Some(&mut two), Rect::new(1, 2, 3, 4));
    overlay.set_opacity(Some(&mut two), 6);
    overlay.set_color(Some(&mut two), 5);
    assert_eq!((one.rects, one.color, one.alpha), (two.rects, two.color, two.alpha));
}

#[test]
fn without_the_lock() {
    let overlay = window(9);
    let push = pushed(overlay.show_snap_target(None, Rect::new(1, 2, 3, 4)));
    assert_eq!((push.hwnd, push.color, push.alpha), (9, 0x00FF8040, 128));
    assert_eq!(push.rects, vec![Rect::new(1, 2, 3, 4)]);
    assert_eq!(push.message, None);
    assert!(matches!(overlay.set_color(None, 1), Command::Nothing));
    assert!(matches!(overlay.set_opacity(None, 1), Command::Nothing));
    assert!(matches!(overlay.hide_overlay(None), Command::Hide { hwnd: 9 }));
    assert!(!overlay.is_visible(None));
}

#[test]
fn repositioning_shows_by_handle() {
    let overlay = window(-4);
    assert_eq!(overlay.hwnd_raw(), -4);
    let mut state = OverlayState::new();
    let push = pushed(reposition_overlay(overlay.hwnd_raw(), Some(&mut state), Rect::new(1, 2, 3, 4)));
    assert_eq!(push.hwnd, -4);
    assert_eq!(push.message, None);
    assert_eq!(push.rects, vec![Rect::new(1, 2, 3, 4)]);
    assert_eq!(state.rects, push.rects);
    let rects = [Rect::new(0, 0, 1, 1), Rect::new(2, 2, 1, 1)];
    let push = pushed(reposition_overlay_rects(-4, Some(&mut state), &rects));
    assert_eq!(push.rects, rects.to_vec());
    assert!(overlay.is_visible(Some(&state)));
    let push = pushed(reposition_overlay_rects(-4, None, &rects));
    assert_eq!((push.color, push.alpha), (OVERLAY_COLOR, OVERLAY_ALPHA));
}

#[test]
fn second_claim_is_refused() {
    assert!(OverlayWindow::claim(false).is_ok());
    let e = OverlayWindow::claim(true).unwrap_err();
    assert_eq!(text(e), "Overlay window already active");
}

#[test]
fn set_up_ends_with_the_answer_of_the_thread() {
    let done = OverlayWindow::new(OverlayWindow::claim(false).unwrap(), None, InitReply::Window(5));
    assert!(done.active);
    assert_eq!(done.result.unwrap().hwnd_raw(), 5);

    let (state, action) = thread_step(ThreadState::Starting, ThreadEvent::Created(None));
    assert_eq!(state, ThreadState::Finished);
    let refusal = match action {
        ThreadAction::Fail(e) => e,
        other => panic!("not a failure: {:?}", other),
    };
    let done = OverlayWindow::new(OverlayWindow::claim(false).unwrap(), None, InitReply::Refused(refusal));
    assert!(!done.active);
    assert_eq!(text(done.result.unwrap_err()), "Failed to create overlay window");

    let done = OverlayWindow::new(OverlayWindow::claim(false).unwrap(), None, InitReply::Lost);
    assert!(!done.active);
    assert_eq!(text(done.result.unwrap_err()), "Overlay thread init failed");
}

#[test]
fn closing_waits_for_the_thread_before_the_mark_goes() {
    let mut overlay = window(12);
    assert_eq!(overlay.close(), CloseAction::Post { hwnd: 12, message: WM_USER + 102 });
    assert_eq!(overlay.close(), CloseAction::Join);
    assert_eq!(overlay.close(), CloseAction::ClearActive);
    assert_eq!(overlay.close(), CloseAction::Nothing);
    assert_eq!(overlay.close(), CloseAction::Nothing);
    assert_eq!(overlay.hwnd_raw(), 12);
}

#[test]
fn thread_pumps_until_told() {
    let (state, action) = thread_step(ThreadState::Starting, ThreadEvent::Created(Some(8)));
    assert_eq!(state, ThreadState::Pumping { hwnd: 8 });
    assert!(matches!(action, ThreadAction::Announce { hwnd: 8 }));

    let other = ThreadEvent::Received { result: 1, message: WM_QUIT_OVERLAY - 1 };
    let (state, action) = thread_step(state, other);
    assert_eq!(state, ThreadState::Pumping { hwnd: 8 });
    assert!(matches!(action, ThreadAction::Dispatch));

    let failed_wait = ThreadEvent::Received { result: -1, message: 0 };
    let (state, action) = thread_step(state, failed_wait);
    assert!(matches!(action, ThreadAction::Dispatch));

    let message = match window(8).close() {
        CloseAction::Post { hwnd: 8, message } => message,
        other => panic!("not a message: {:?}", other),
    };
    let told = ThreadEvent::Received { result: 1, message };
    let (after, action) = thread_step(state, told);
    assert_eq!(after, ThreadState::Finished);
    assert!(matches!(action, ThreadAction::Destroy { hwnd: 8 }));

    let no_more = ThreadEvent::Received { result: 0, message: 0 };
    let (after, action) = thread_step(state, no_more);
    assert_eq!(after, ThreadState::Finished);
    assert!(matches!(action, ThreadAction::Destroy { hwnd: 8 }));

    let (after, action) = thread_step(after, told);
    assert_eq!(after, ThreadState::Finished);
    assert!(matches!(action, ThreadAction::Ignore));
    let (after, action) = thread_step(ThreadState::Starting, told);
    assert_eq!(after, ThreadState::Starting);
    assert!(matches!(action, ThreadAction::Ignore));
}

#[test]
fn window_has_its_styles() {
    let settings = window_settings();
    for bit in [
        WS_EX_LAYERED,
        WS_EX_TRANSPARENT,
        WS_EX_TOPMOST,
        WS_EX_TOOLWINDOW,
        WS_EX_NOACTIVATE,
    ] {
        assert_eq!(settings.ex_style & bit, bit);
    }
    assert_eq!(settings.ex_style, 0x0808_00A8);
    assert_eq!(settings.style, 0x8000_0000);
    assert_eq!(settings.style & WS_VISIBLE, 0);
    assert_eq!((settings.x, settings.y, settings.width, settings.height), (0, 0, 1, 1));
    assert_eq!(settings.alpha, 128);
    assert_eq!((settings.corner_attribute, settings.corner_preference), (33, 2));
}
