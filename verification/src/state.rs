//! What the overlay shows, and what is asked of its window.
use vstd::prelude::*;

use crate::rect::Rect;
use crate::worker::ThreadEvent;
use crate::worker::ThreadState;
use crate::worker::WM_QUIT_OVERLAY;
use crate::worker::WM_REPAINT_OVERLAY;

verus! {

/// The color that the overlay starts with, in the `0x00BBGGRR` format.
pub const OVERLAY_COLOR: u32 = 0x00FF_8040;

/// The alpha that the overlay starts with, about half opacity.
pub const OVERLAY_ALPHA: u8 = 128;

/// What the overlay shows. It is shared by all threads behind a lock.
#[derive(Debug)]
pub struct OverlayState {
    /// The rectangles to show; none where the overlay is hidden.
    pub rects: Vec<Rect>,
    /// The color of the rectangles, in the `0x00BBGGRR` format.
    pub color: u32,
    /// The alpha with which the rectangles are drawn.
    pub alpha: u8,
}

/// The mathematical content of an `OverlayState`.
#[verifier::ext_equal]
pub struct OverlayModel {
    pub rects: Seq<Rect>,
    pub color: u32,
    pub alpha: u8,
}

impl View for OverlayState {
    type V = OverlayModel;

    open spec fn view(&self) -> OverlayModel {
        OverlayModel { rects: self.rects@, color: self.color, alpha: self.alpha }
    }
}

/// What the program around the library is to do with the window.
#[derive(Debug)]
pub enum Command {
    /// Leave the window as it is.
    Nothing,
    /// Have rectangles drawn into the window, and show it.
    Push(Push),
    /// Take the window off the screen.
    Hide {
        /// The window.
        hwnd: isize,
    },
}

/// Rectangles that are to be drawn into a window.
#[derive(Debug)]
pub struct Push {
    /// The window.
    pub hwnd: isize,
    /// The rectangles.
    pub rects: Vec<Rect>,
    /// Their color, in the `0x00BBGGRR` format.
    pub color: u32,
    /// The alpha with which they are drawn.
    pub alpha: u8,
    /// The message that is posted to the window so that its thread draws them.
    /// Where there is none, or it cannot be posted, the caller draws them itself.
    pub message: Option<u32>,
}

/// The mathematical content of a `Command`.
pub enum CommandModel {
    Nothing,
    Push { hwnd: isize, content: OverlayModel, message: Option<u32> },
    Hide { hwnd: isize },
}

impl View for Command {
    type V = CommandModel;

    open spec fn view(&self) -> CommandModel {
        match *self {
            Command::Nothing => CommandModel::Nothing,
            Command::Push(push) => CommandModel::Push {
                hwnd: push.hwnd,
                content: OverlayModel {
                    rects: push.rects@,
                    color: push.color,
                    alpha: push.alpha,
                },
                message: push.message,
            },
            Command::Hide { hwnd } => CommandModel::Hide { hwnd },
        }
    }
}

impl OverlayModel {
    /// A hidden overlay with the color and the alpha that it starts with.
    pub open spec fn initial() -> OverlayModel {
        OverlayModel { rects: Seq::empty(), color: OVERLAY_COLOR, alpha: OVERLAY_ALPHA }
    }

    /// Whether any rectangle is shown.
    pub open spec fn visible(self) -> bool {
        self.rects.len() > 0
    }

    /// The same overlay with other rectangles.
    pub open spec fn show(self, rects: Seq<Rect>) -> OverlayModel {
        OverlayModel { rects, ..self }
    }

    /// The same overlay without rectangles.
    pub open spec fn hidden(self) -> OverlayModel {
        self.show(Seq::empty())
    }

    /// The same overlay with another color.
    pub open spec fn with_color(self, color: u32) -> OverlayModel {
        OverlayModel { color, ..self }
    }

    /// The same overlay with another alpha.
    pub open spec fn with_alpha(self, alpha: u8) -> OverlayModel {
        OverlayModel { alpha, ..self }
    }

    /// The command that brings the overlay into a window: its rectangles are
    /// drawn, by the thread of the window where there is a message to it, and
    /// without rectangles the window is hidden.
    pub open spec fn command(self, hwnd: isize, message: Option<u32>) -> CommandModel {
        if self.visible() {
            CommandModel::Push { hwnd, content: self, message }
        } else {
            CommandModel::Hide { hwnd }
        }
    }

    /// The command by which the caller itself brings the overlay into a window.
    pub open spec fn draw(self, hwnd: isize) -> CommandModel {
        self.command(hwnd, None)
    }

    /// The command by which the thread of the window is asked to draw the
    /// overlay. To hide a window takes no drawing, and is not left to its thread.
    pub open spec fn request(self, hwnd: isize) -> CommandModel {
        self.command(hwnd, Some(WM_REPAINT_OVERLAY))
    }

    /// The command by which the thread of the window is asked to draw the overlay
    /// again where it is visible.
    pub open spec fn redraw(self, hwnd: isize) -> CommandModel {
        if self.visible() {
            self.request(hwnd)
        } else {
            CommandModel::Nothing
        }
    }
}

impl OverlayState {
    /// A hidden overlay with the color and the alpha that it starts with.
    pub fn new() -> (s: OverlayState)
        ensures
            s@ == OverlayModel::initial(),
            s.rects@.len() == 0,
            s.color == OVERLAY_COLOR,
            s.alpha == OVERLAY_ALPHA,
    {
        OverlayState { rects: Vec::new(), color: OVERLAY_COLOR, alpha: OVERLAY_ALPHA }
    }

    /// The command that brings the overlay into a window.
    pub(crate) fn command(&self, hwnd: isize, message: Option<u32>) -> (cmd: Command)
        ensures
            cmd@ == self@.command(hwnd, message),
    {
        if self.rects.len() == 0 {
            return Command::Hide { hwnd };
        }
        Command::Push(
            Push { hwnd, rects: self.rects.clone(), color: self.color, alpha: self.alpha, message },
        )
    }

    /// The command by which the thread of the window is asked to draw the overlay
    /// again where it is visible.
    pub(crate) fn redraw(&self, hwnd: isize) -> (cmd: Command)
        ensures
            cmd@ == self@.redraw(hwnd),
    {
        if self.rects.len() == 0 {
            return Command::Nothing;
        }
        self.command(hwnd, Some(WM_REPAINT_OVERLAY))
    }
}

/// The model of a state holds its rectangles, in their order, its color and its
/// alpha.
pub proof fn law_model_of_a_state(state: OverlayState)
    ensures
        state@.rects.len() == state.rects.len(),
        forall|i: int| 0 <= i < state.rects.len() ==> state@.rects[i] == #[trigger] state.rects[i],
        state@.color == state.color,
        state@.alpha == state.alpha,
{
}

/// The model of a command is of its kind, with the same window, the same message and
/// the same rectangles, color and alpha.
pub proof fn law_model_of_a_command(cmd: Command)
    ensures
        cmd is Nothing <==> cmd@ is Nothing,
        cmd is Hide <==> cmd@ is Hide,
        cmd is Push <==> cmd@ is Push,
        cmd matches Command::Hide { hwnd } ==> cmd@->Hide_hwnd == hwnd,
        cmd matches Command::Push(push) ==> {
            &&& cmd@->Push_hwnd == push.hwnd
            &&& cmd@->Push_message == push.message
            &&& cmd@->Push_content.rects == push.rects@
            &&& cmd@->Push_content.color == push.color
            &&& cmd@->Push_content.alpha == push.alpha
        },
{
}

/// An overlay starts without rectangles, and is visible exactly if it has one.
pub proof fn law_visible_by_rects(state: OverlayModel)
    ensures
        state.visible() <==> exists|r: Rect| #[trigger] state.rects.contains(r),
        OverlayModel::initial().rects.len() == 0,
        OverlayModel::initial().color == 0x00FF_8040,
        OverlayModel::initial().alpha == 128,
{
    if state.rects.len() > 0 {
        assert(state.rects.contains(state.rects[0]));
    }
}

/// What is set is what the state then holds, and the rest of the state stays: the
/// color, the alpha, the rectangles, or no rectangles.
pub proof fn law_setting_sets(state: OverlayModel, color: u32, alpha: u8, rects: Seq<Rect>)
    ensures
        state.with_color(color).color == color,
        state.with_color(color).alpha == state.alpha,
        state.with_color(color).rects == state.rects,
        state.with_alpha(alpha).alpha == alpha,
        state.with_alpha(alpha).color == state.color,
        state.with_alpha(alpha).rects == state.rects,
        state.show(rects).rects == rects,
        state.show(rects).color == state.color,
        state.show(rects).alpha == state.alpha,
        state.hidden().rects.len() == 0,
        state.hidden().color == state.color,
        state.hidden().alpha == state.alpha,
{
}

/// A command that brings a visible overlay into a window names that window, and holds
/// all the rectangles, the color and the alpha of the overlay. Without a rectangle it
/// hides that window.
pub proof fn law_command_holds_the_overlay(state: OverlayModel, hwnd: isize)
    ensures
        state.rects.len() > 0 ==> {
            &&& state.draw(hwnd) matches CommandModel::Push { hwnd: to, content, message }
            &&& to == hwnd
            &&& content.rects == state.rects
            &&& content.color == state.color
            &&& content.alpha == state.alpha
            &&& message is None
        },
        state.rects.len() > 0 ==> {
            &&& state.request(hwnd) matches CommandModel::Push { hwnd: to, content, message }
            &&& to == hwnd
            &&& content.rects == state.rects
            &&& content.color == state.color
            &&& content.alpha == state.alpha
            &&& message is Some
        },
        state.rects.len() > 0 ==> state.redraw(hwnd) == state.request(hwnd),
        state.rects.len() == 0 ==> {
            &&& state.draw(hwnd) == (CommandModel::Hide { hwnd })
            &&& state.request(hwnd) == (CommandModel::Hide { hwnd })
            &&& state.redraw(hwnd) is Nothing
        },
{
}

/// The message of every request to draw an overlay is one that the thread of the
/// window answers with a drawing and that does not end it.
pub proof fn law_requests_are_answered(state: OverlayModel, hwnd: isize, result: i32)
    requires
        state.rects.len() > 0,
        result != 0,
    ensures
        state.request(hwnd) matches CommandModel::Push { message: Some(m), .. } && {
            let event = ThreadEvent::Received { result, message: m };
            &&& m == WM_REPAINT_OVERLAY
            &&& m != WM_QUIT_OVERLAY
            &&& event.asks_repaint()
            &&& !event.ends_pump()
            &&& (ThreadState::Pumping { hwnd }).expects(event)
            &&& (ThreadState::Pumping { hwnd }).next(event) == (ThreadState::Pumping { hwnd })
        },
        state.redraw(hwnd) == state.request(hwnd),
{
}

/// After the color is set, the state has that color, and what is drawn of a visible
/// overlay has it, with the rectangles and the alpha that it had.
pub proof fn law_color_is_what_was_set(state: OverlayModel, color: u32, hwnd: isize)
    ensures
        state.with_color(color).color == color,
        state.rects.len() > 0 ==> {
            &&& state.with_color(color).redraw(hwnd) matches CommandModel::Push { content, .. }
            &&& content.color == color
            &&& content.alpha == state.alpha
            &&& content.rects == state.rects
        },
        state.rects.len() == 0 ==> state.with_color(color).redraw(hwnd) is Nothing,
{
}

/// After the opacity is set, the state has that alpha, and what is drawn of a visible
/// overlay has it, with the rectangles and the color that it had.
pub proof fn law_alpha_is_what_was_set(state: OverlayModel, alpha: u8, hwnd: isize)
    ensures
        state.with_alpha(alpha).alpha == alpha,
        state.rects.len() > 0 ==> {
            &&& state.with_alpha(alpha).redraw(hwnd) matches CommandModel::Push { content, .. }
            &&& content.alpha == alpha
            &&& content.color == state.color
            &&& content.rects == state.rects
        },
        state.rects.len() == 0 ==> state.with_alpha(alpha).redraw(hwnd) is Nothing,
{
}

} // verus!
