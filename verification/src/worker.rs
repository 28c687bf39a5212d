//! The thread that owns the overlay window.
use vstd::prelude::*;

use crate::error::Win32Error;

verus! {

/// The first of the messages that a window class may define for itself.
pub const WM_USER: u32 = 0x0400;

/// The message that ends the thread of the overlay window.
pub const WM_QUIT_OVERLAY: u32 = WM_USER + 102;

/// The message that asks the thread of the overlay window to draw the overlay.
pub const WM_REPAINT_OVERLAY: u32 = WM_USER + 103;

/// The window is composed with what lies below it.
pub const WS_EX_LAYERED: u32 = 0x0008_0000;

/// The mouse reaches what lies below the window.
pub const WS_EX_TRANSPARENT: u32 = 0x0000_0020;

/// The window stays above all others.
pub const WS_EX_TOPMOST: u32 = 0x0000_0008;

/// The window is neither in the taskbar nor among those that Alt-Tab offers.
pub const WS_EX_TOOLWINDOW: u32 = 0x0000_0080;

/// The window does not take the focus.
pub const WS_EX_NOACTIVATE: u32 = 0x0800_0000;

/// The window has no frame.
pub const WS_POPUP: u32 = 0x8000_0000;

/// The window is on the screen from the start.
pub const WS_VISIBLE: u32 = 0x1000_0000;

/// With what the overlay window is created.
#[derive(Debug, Clone, Copy, PartialEq, Eq, Structural)]
pub struct WindowSettings {
    /// The extended style.
    pub ex_style: u32,
    /// The style.
    pub style: u32,
    /// The screen column.
    pub x: i32,
    /// The screen row.
    pub y: i32,
    /// The width.
    pub width: i32,
    /// The height.
    pub height: i32,
    /// The alpha of the whole window.
    pub alpha: u8,
    /// The attribute that says how the compositor draws the corners.
    pub corner_attribute: i32,
    /// The value of that attribute: round corners.
    pub corner_preference: i32,
}

/// The settings of the overlay window: a frameless window of one pixel, at half
/// opacity and with round corners, that is layered, lets the mouse through,
/// stays on top, is not in the taskbar and does not take the focus.
pub open spec fn overlay_settings() -> WindowSettings {
    WindowSettings {
        ex_style: (WS_EX_LAYERED + WS_EX_TRANSPARENT + WS_EX_TOPMOST + WS_EX_TOOLWINDOW
            + WS_EX_NOACTIVATE) as u32,
        style: WS_POPUP,
        x: 0,
        y: 0,
        width: 1,
        height: 1,
        alpha: 128,
        corner_attribute: 33,
        corner_preference: 2,
    }
}

/// The settings with which the overlay window is created.
pub fn window_settings() -> (s: WindowSettings)
    ensures
        s == overlay_settings(),
{
    let ex_style: u32 = WS_EX_LAYERED | WS_EX_TRANSPARENT | WS_EX_TOPMOST | WS_EX_TOOLWINDOW
        | WS_EX_NOACTIVATE;
    assert(0x0008_0000u32 | 0x20u32 | 0x08u32 | 0x80u32 | 0x0800_0000u32 == 0x0808_00A8u32)
        by (bit_vector);
    WindowSettings {
        ex_style,
        style: WS_POPUP,
        x: 0,
        y: 0,
        width: 1,
        height: 1,
        alpha: 128,
        corner_attribute: 33,
        corner_preference: 2,
    }
}

/// Where the thread is in its life.
#[derive(Debug, Clone, Copy, PartialEq, Eq, Structural)]
pub enum ThreadState {
    /// The window is being created.
    Starting,
    /// The window with this handle exists, and its messages are handled.
    Pumping {
        /// The window.
        hwnd: isize,
    },
    /// The thread has ended, or ends with the action that led here.
    Finished,
}

/// What the thread has learned from the window system.
#[derive(Debug, Clone, Copy, PartialEq, Eq, Structural)]
pub enum ThreadEvent {
    /// The attempt to create the window has ended, with its handle or without.
    Created(Option<isize>),
    /// The wait for a message has ended: with 0 where no more will come, and
    /// with another number where `message` is to be looked at.
    Received {
        /// What the wait returned.
        result: i32,
        /// The number of the message.
        message: u32,
    },
}

/// What the thread is to do next.
#[derive(Debug)]
pub enum ThreadAction {
    /// Finish the window's settings, report its handle, and wait for a message.
    Announce {
        /// The window.
        hwnd: isize,
    },
    /// Report that there is no window, and end.
    Fail(Win32Error),
    /// Draw what the overlay now shows, and wait for the next message.
    Repaint {
        /// The window.
        hwnd: isize,
    },
    /// Hand the message to the window, and wait for the next.
    Dispatch,
    /// Destroy the window and its class, and end.
    Destroy {
        /// The window.
        hwnd: isize,
    },
    /// Nothing: the event does not belong to this part of the thread's life.
    Ignore,
}

impl ThreadState {
    /// Whether an event can come in this part of the thread's life.
    pub open spec fn expects(self, event: ThreadEvent) -> bool {
        match event {
            ThreadEvent::Created(_) => self is Starting,
            ThreadEvent::Received { .. } => self is Pumping,
        }
    }

    /// Whether the thread destroys its window, and the class of it, on an event.
    pub open spec fn destroys(self, event: ThreadEvent) -> bool {
        self is Pumping && event.ends_pump()
    }

    /// The state after an event: a created window is pumped, the thread ends
    /// without a window and with an event that ends the handling of messages,
    /// and any other event leaves the state as it is.
    pub open spec fn next(self, event: ThreadEvent) -> ThreadState {
        match event {
            ThreadEvent::Created(Some(hwnd)) if self is Starting => ThreadState::Pumping { hwnd },
            ThreadEvent::Created(None) if self is Starting => ThreadState::Finished,
            ThreadEvent::Received { .. } if self is Pumping && event.ends_pump() =>
                ThreadState::Finished,
            _ => self,
        }
    }

    /// The state after several events.
    pub open spec fn run(self, events: Seq<ThreadEvent>) -> ThreadState
        decreases events.len(),
    {
        if events.len() == 0 {
            self
        } else {
            self.run(events.drop_last()).next(events.last())
        }
    }
}

impl ThreadEvent {
    /// Whether the event ends the handling of messages.
    pub open spec fn ends_pump(self) -> bool {
        self matches ThreadEvent::Received { result, message } && (result == 0 || message
            == WM_QUIT_OVERLAY)
    }

    /// Whether the event asks for the overlay to be drawn.
    pub open spec fn asks_repaint(self) -> bool {
        self matches ThreadEvent::Received { result, message } && result != 0 && message
            == WM_REPAINT_OVERLAY
    }
}

/// The next state of the thread, and what it is to do, after an event.
pub fn thread_step(state: ThreadState, event: ThreadEvent) -> (r: (ThreadState, ThreadAction))
    ensures
        r.0 == state.next(event),
        r.1 is Ignore <==> !state.expects(event),
        r.1 is Destroy <==> state.destroys(event),
        state is Starting ==> match event {
            ThreadEvent::Created(Some(hwnd)) => r.1 == (ThreadAction::Announce { hwnd }),
            ThreadEvent::Created(None) => {
                &&& r.1 matches ThreadAction::Fail(e)
                &&& e.text() == "Failed to create overlay window"@
            },
            ThreadEvent::Received { .. } => true,
        },
        state matches ThreadState::Pumping { hwnd } ==> match event {
            ThreadEvent::Received { .. } => r.1 == if event.ends_pump() {
                ThreadAction::Destroy { hwnd }
            } else if event.asks_repaint() {
                ThreadAction::Repaint { hwnd }
            } else {
                ThreadAction::Dispatch
            },
            ThreadEvent::Created(_) => true,
        },
        match (state, event) {
            (ThreadState::Pumping { hwnd }, ThreadEvent::Received { result, message }) => {
                if result == 0 || message == WM_QUIT_OVERLAY {
                    r.0 is Finished && r.1 == (ThreadAction::Destroy { hwnd })
                } else if message == WM_REPAINT_OVERLAY {
                    r.0 == state && r.1 == (ThreadAction::Repaint { hwnd })
                } else {
                    r.0 == state && r.1 is Dispatch
                }
            },
            (ThreadState::Starting, ThreadEvent::Created(Some(hwnd))) => {
                r.0 == (ThreadState::Pumping { hwnd }) && r.1 == (ThreadAction::Announce { hwnd })
            },
            (ThreadState::Starting, ThreadEvent::Created(None)) => r.0 is Finished && r.1 is Fail,
            _ => r.0 == state && r.1 is Ignore,
        },
{
    match (state, event) {
        (ThreadState::Starting, ThreadEvent::Created(Some(hwnd))) => (
            ThreadState::Pumping { hwnd },
            ThreadAction::Announce { hwnd },
        ),
        (ThreadState::Starting, ThreadEvent::Created(None)) => (
            ThreadState::Finished,
            ThreadAction::Fail(Win32Error::hook_install_failed("Failed to create overlay window")),
        ),
        (ThreadState::Pumping { hwnd }, ThreadEvent::Received { result, message }) => {
            if result == 0 || message == WM_QUIT_OVERLAY {
                (ThreadState::Finished, ThreadAction::Destroy { hwnd })
            } else if message == WM_REPAINT_OVERLAY {
                (state, ThreadAction::Repaint { hwnd })
            } else {
                (state, ThreadAction::Dispatch)
            }
        },
        _ => (state, ThreadAction::Ignore),
    }
}

/// A thread that handles messages goes on with the same window on every message but
/// the one that ends it, and it ends, and destroys its window, exactly on that
/// message and where no more will come.
pub proof fn law_pump_by_result_and_message(hwnd: isize, result: i32, message: u32)
    ensures
        ({
            let state = ThreadState::Pumping { hwnd };
            let event = ThreadEvent::Received { result, message };
            &&& state.expects(event)
            &&& result != 0 && message != WM_QUIT_OVERLAY ==> state.next(event) == state
            &&& state.next(event) is Finished <==> result == 0 || message == WM_QUIT_OVERLAY
            &&& state.destroys(event) <==> result == 0 || message == WM_QUIT_OVERLAY
            &&& event.ends_pump() <==> result == 0 || message == WM_QUIT_OVERLAY
            &&& event.asks_repaint() <==> result != 0 && message == WM_REPAINT_OVERLAY
            &&& !(event.ends_pump() && event.asks_repaint())
        }),
{
}

/// A thread that starts goes on with the window that was created, and ends without
/// one. Nothing else moves it, and nothing that it does not expect moves a thread.
pub proof fn law_start_of_the_thread(
    state: ThreadState,
    hwnd: isize,
    result: i32,
    message: u32,
    created: Option<isize>,
)
    ensures
        ThreadState::Starting.next(ThreadEvent::Created(Some(hwnd))) == (ThreadState::Pumping {
            hwnd,
        }),
        ThreadState::Starting.next(ThreadEvent::Created(None)) == ThreadState::Finished,
        state.expects(ThreadEvent::Created(created)) <==> state is Starting,
        state.expects(ThreadEvent::Received { result, message }) <==> state is Pumping,
        !(state is Starting) ==> state.next(ThreadEvent::Created(created)) == state,
        !(state is Pumping) ==> state.next(ThreadEvent::Received { result, message }) == state,
        !state.destroys(ThreadEvent::Created(created)),
        !(state is Pumping) ==> !state.destroys(ThreadEvent::Received { result, message }),
        !ThreadEvent::Created(created).ends_pump(),
        !ThreadEvent::Created(created).asks_repaint(),
{
}

/// The messages of the overlay are among those that a window class may define for
/// itself, and the window system's own messages are none of them.
pub proof fn law_own_messages(message: u32)
    requires
        message < WM_USER,
    ensures
        message != WM_QUIT_OVERLAY,
        message != WM_REPAINT_OVERLAY,
        WM_QUIT_OVERLAY != WM_REPAINT_OVERLAY,
        WM_QUIT_OVERLAY < 0x8000,
        WM_REPAINT_OVERLAY < 0x8000,
        WM_USER == 0x0400,
        WM_QUIT_OVERLAY == WM_USER + 102,
{
}

/// Once its window exists, the thread handles messages until the first event
/// that ends this, and no longer.
pub proof fn law_thread_pumps_until_told(hwnd: isize, events: Seq<ThreadEvent>)
    ensures
        (ThreadState::Pumping { hwnd }).run(events) == if exists|i: int|
            0 <= i < events.len() && (#[trigger] events[i]).ends_pump() {
            ThreadState::Finished
        } else {
            ThreadState::Pumping { hwnd }
        },
    decreases events.len(),
{
    if events.len() > 0 {
        let rest = events.drop_last();
        law_thread_pumps_until_told(hwnd, rest);
        if exists|i: int| 0 <= i < rest.len() && (#[trigger] rest[i]).ends_pump() {
            let i = choose|i: int| 0 <= i < rest.len() && (#[trigger] rest[i]).ends_pump();
            assert(events[i].ends_pump());
        }
        if exists|i: int| 0 <= i < events.len() && (#[trigger] events[i]).ends_pump() {
            let i = choose|i: int| 0 <= i < events.len() && (#[trigger] events[i]).ends_pump();
            if i < rest.len() {
                assert(rest[i].ends_pump());
            }
        }
    }
}

/// A request to draw the overlay is answered, and does not end the thread.
pub proof fn law_repaint_request_is_heard(hwnd: isize, result: i32)
    requires
        result != 0,
    ensures
        ({
            let event = ThreadEvent::Received { result, message: WM_REPAINT_OVERLAY };
            &&& (ThreadState::Pumping { hwnd }).expects(event)
            &&& event.asks_repaint()
            &&& !event.ends_pump()
            &&& (ThreadState::Pumping { hwnd }).next(event) == (ThreadState::Pumping { hwnd })
        }),
{
}

/// A thread that could not create its window, or that has ended, does nothing
/// more.
pub proof fn law_finished_thread_stays_finished(events: Seq<ThreadEvent>)
    ensures
        ThreadState::Starting.next(ThreadEvent::Created(None)) == ThreadState::Finished,
        ThreadState::Finished.run(events) == ThreadState::Finished,
        forall|i: int|
            0 <= i < events.len() ==> !ThreadState::Finished.expects(#[trigger] events[i]),
    decreases events.len(),
{
    if events.len() > 0 {
        law_finished_thread_stays_finished(events.drop_last());
    }
}

/// The overlay window has each of its five extended styles and no other, and it
/// is created hidden.
pub proof fn law_window_has_its_styles()
    ensures
        ({
            let bits = overlay_settings().ex_style;
            &&& bits & WS_EX_LAYERED == WS_EX_LAYERED
            &&& bits & WS_EX_TRANSPARENT == WS_EX_TRANSPARENT
            &&& bits & WS_EX_TOPMOST == WS_EX_TOPMOST
            &&& bits & WS_EX_TOOLWINDOW == WS_EX_TOOLWINDOW
            &&& bits & WS_EX_NOACTIVATE == WS_EX_NOACTIVATE
            &&& bits == WS_EX_LAYERED | WS_EX_TRANSPARENT | WS_EX_TOPMOST | WS_EX_TOOLWINDOW
                | WS_EX_NOACTIVATE
        }),
        overlay_settings().style == WS_POPUP,
        overlay_settings().style & WS_VISIBLE == 0,
        overlay_settings().width == 1 && overlay_settings().height == 1,
        overlay_settings().alpha == 128,
{
    assert(0x0808_00A8u32 & 0x0008_0000u32 == 0x0008_0000u32) by (bit_vector);
    assert(0x0808_00A8u32 & 0x20u32 == 0x20u32) by (bit_vector);
    assert(0x0808_00A8u32 & 0x08u32 == 0x08u32) by (bit_vector);
    assert(0x0808_00A8u32 & 0x80u32 == 0x80u32) by (bit_vector);
    assert(0x0808_00A8u32 & 0x0800_0000u32 == 0x0800_0000u32) by (bit_vector);
    assert(0x0008_0000u32 | 0x20u32 | 0x08u32 | 0x80u32 | 0x0800_0000u32 == 0x0808_00A8u32)
        by (bit_vector);
    assert(0x8000_0000u32 & 0x1000_0000u32 == 0) by (bit_vector);
}

} // verus!
