//! The overlay window and what can be done with it.
use vstd::prelude::*;
use vstd::slice::slice_to_vec;

use crate::error::Win32Error;
use crate::rect::fits_i32;
use crate::rect::Rect;
use crate::state::Command;
use crate::state::CommandModel;
use crate::state::OverlayModel;
use crate::state::OverlayState;
use crate::state::OVERLAY_ALPHA;
use crate::state::OVERLAY_COLOR;
use crate::worker::WM_QUIT_OVERLAY;
use crate::worker::WM_REPAINT_OVERLAY;

verus! {

/// A transparent overlay window for displaying visual snap hints.
///
/// The methods take the shared state of the overlay as what came of locking it:
/// `None` stands for a lock that could not be taken.
#[derive(Debug)]
pub struct OverlayWindow {
    hwnd: isize,
    stage: CloseStage,
}

/// The right to set up an overlay window. Whoever holds it has found that no
/// overlay was active, and has marked the overlay as active.
#[derive(Debug)]
pub struct Claim {
    _private: (),
}

/// What the thread that is to create the window answered.
#[derive(Debug)]
pub enum InitReply {
    /// The window was created, with this handle.
    Window(isize),
    /// The window could not be created.
    Refused(Win32Error),
    /// The thread could not be started, or ended without an answer.
    Lost,
}

impl InitReply {
    /// Whether the answer is that the window was created.
    pub open spec fn has_window(self) -> bool {
        self is Window
    }
}

/// How the set-up of an overlay window ended.
#[derive(Debug)]
pub struct Creation {
    /// The overlay window, or why there is none.
    pub result: Result<OverlayWindow, Win32Error>,
    /// Whether the overlay is still to be marked as active.
    pub active: bool,
}

/// The state of the overlay after the set-up of a window ended: with a window it
/// is hidden and at the alpha that an overlay starts with, and without one it is
/// as it was.
pub open spec fn state_after_new(state: OverlayModel, reply: InitReply) -> OverlayModel {
    if reply.has_window() {
        state.hidden().with_alpha(OVERLAY_ALPHA)
    } else {
        state
    }
}

/// How far an overlay window has been given up.
#[derive(Debug, Clone, Copy, PartialEq, Eq, Structural)]
pub enum CloseStage {
    /// The window is in use.
    Open,
    /// The thread of the window was told to end.
    Told,
    /// The thread of the window has ended.
    Ended,
    /// The overlay is no longer marked as active.
    Closed,
}

/// The next thing to do to give an overlay window up.
#[derive(Debug, Clone, Copy, PartialEq, Eq, Structural)]
pub enum CloseAction {
    /// Post the message that ends the thread of the window.
    Post {
        /// The window.
        hwnd: isize,
        /// The message.
        message: u32,
    },
    /// Wait until the thread of the window has ended.
    Join,
    /// Take the mark away that the overlay is active.
    ClearActive,
    /// Nothing: the window has been given up.
    Nothing,
}

impl CloseStage {
    /// The stage after the next thing was done.
    pub open spec fn next(self) -> CloseStage {
        match self {
            CloseStage::Open => CloseStage::Told,
            CloseStage::Told => CloseStage::Ended,
            CloseStage::Ended => CloseStage::Closed,
            CloseStage::Closed => CloseStage::Closed,
        }
    }

    /// The next thing to do.
    pub open spec fn action(self, hwnd: isize) -> CloseAction {
        match self {
            CloseStage::Open => CloseAction::Post { hwnd, message: WM_QUIT_OVERLAY },
            CloseStage::Told => CloseAction::Join,
            CloseStage::Ended => CloseAction::ClearActive,
            CloseStage::Closed => CloseAction::Nothing,
        }
    }
}

/// Half of a width, rounded towards zero.
pub open spec fn half(width: i32) -> int {
    if width >= 0 {
        width as int / 2
    } else {
        -((-width) / 2)
    }
}

/// The rectangle of a vertical line whose center is the column `x`.
pub open spec fn column_rect(x: i32, y: i32, height: i32, width: i32) -> Rect {
    Rect { x: (x - half(width)) as i32, y, width, height }
}

impl OverlayWindow {
    /// The handle of the window.
    pub closed spec fn handle(self) -> isize {
        self.hwnd
    }

    /// How far the window has been given up.
    pub closed spec fn stage(self) -> CloseStage {
        self.stage
    }

    /// Asks for the right to set up an overlay window. `was_active` is whether
    /// the overlay was marked as active before the caller marked it.
    pub fn claim(was_active: bool) -> (r: Result<Claim, Win32Error>)
        ensures
            r is Ok <==> !was_active,
            r matches Err(e) ==> e.text() == "Overlay window already active"@,
    {
        if was_active {
            return Err(Win32Error::hook_install_failed("Overlay window already active"));
        }
        Ok(Claim { _private: () })
    }

    /// Ends the set-up of an overlay window with the answer of its thread. A new
    /// overlay is hidden, and at half opacity, whatever an earlier one showed.
    pub fn new(_claim: Claim, lock: Option<&mut OverlayState>, reply: InitReply) -> (c: Creation)
        ensures
            lock matches Some(state) ==> final(state)@ == state_after_new(state@, reply),
            lock matches Some(state) ==> {
                &&& final(state).color == state.color
                &&& reply is Window ==> final(state).rects@.len() == 0 && final(state).alpha
                    == OVERLAY_ALPHA
                &&& !(reply is Window) ==> final(state).rects@ == state.rects@ && final(state).alpha
                    == state.alpha
            },
            c.active == c.result is Ok,
            reply matches InitReply::Window(hwnd) ==> (c.result matches Ok(w) && w.handle() == hwnd
                && w.stage() == CloseStage::Open),
            c.active == reply.has_window(),
            c.result is Ok <==> reply.has_window(),
            c.result matches Ok(w) ==> {
                &&& reply matches InitReply::Window(hwnd)
                &&& w.handle() == hwnd
                &&& w.stage() == CloseStage::Open
            },
            reply matches InitReply::Refused(e) ==> c.result == Err::<OverlayWindow, _>(e),
            reply is Lost ==> (c.result matches Err(e) && e.text() == "Overlay thread init failed"@),
    {
        match reply {
            InitReply::Window(hwnd) => {
                if let Some(state) = lock {
                    state.rects.clear();
                    state.alpha = OVERLAY_ALPHA;
                }
                Creation {
                    result: Ok(OverlayWindow { hwnd, stage: CloseStage::Open }),
                    active: true,
                }
            },
            InitReply::Refused(e) => Creation { result: Err(e), active: false },
            InitReply::Lost => Creation {
                result: Err(Win32Error::hook_install_failed("Overlay thread init failed")),
                active: false,
            },
        }
    }

    /// Shows a highlight at a rectangle, in place of what was shown: a message asks
    /// the thread of the window to draw it. Without the shared state the caller
    /// draws it, in the color and at the alpha that an overlay starts with.
    pub fn show_snap_target(&self, lock: Option<&mut OverlayState>, rect: Rect) -> (cmd: Command)
        ensures
            match lock {
                Some(state) => {
                    &&& final(state)@ == state@.show(seq![rect])
                    &&& cmd@ == state@.show(seq![rect]).request(self.handle())
                },
                None => cmd@ == OverlayModel::initial().show(seq![rect]).draw(self.handle()),
            },
            match lock {
                Some(state) => {
                    &&& final(state).rects@ == seq![rect]
                    &&& final(state).color == state.color
                    &&& final(state).alpha == state.alpha
                    &&& {
                        &&& cmd matches Command::Push(push)
                        &&& push.hwnd == self.handle()
                        &&& push.rects@ == seq![rect]
                        &&& push.color == state.color
                        &&& push.alpha == state.alpha
                        &&& push.message == Some(WM_REPAINT_OVERLAY)
                    }
                },
                None => {
                    &&& cmd matches Command::Push(push)
                    &&& push.hwnd == self.handle()
                    &&& push.rects@ == seq![rect]
                    &&& push.color == OVERLAY_COLOR
                    &&& push.alpha == OVERLAY_ALPHA
                    &&& push.message is None
                },
            },
    {
        let rects = [rect];
        assert(rects@ =~= seq![rect]);
        self.show_snap_targets(lock, &rects)
    }

    /// Shows highlights at several rectangles, in place of what was shown: a message
    /// asks the thread of the window to draw them. Without a rectangle the overlay
    /// is hidden. Without the shared state the caller draws them, in the color and
    /// at the alpha that an overlay starts with.
    pub fn show_snap_targets(&self, lock: Option<&mut OverlayState>, rects: &[Rect]) -> (cmd:
        Command)
        ensures
            match lock {
                Some(state) => {
                    &&& final(state)@ == state@.show(rects@)
                    &&& cmd@ == state@.show(rects@).request(self.handle())
                },
                None => cmd@ == OverlayModel::initial().show(rects@).draw(self.handle()),
            },
            match lock {
                Some(state) => {
                    &&& final(state).rects@ == rects@
                    &&& final(state).color == state.color
                    &&& final(state).alpha == state.alpha
                    &&& rects@.len() > 0 ==> {
                        &&& cmd matches Command::Push(push)
                        &&& push.hwnd == self.handle()
                        &&& push.rects@ == rects@
                        &&& push.color == state.color
                        &&& push.alpha == state.alpha
                        &&& push.message == Some(WM_REPAINT_OVERLAY)
                    }
                },
                None => rects@.len() > 0 ==> {
                    &&& cmd matches Command::Push(push)
                    &&& push.hwnd == self.handle()
                    &&& push.rects@ == rects@
                    &&& push.color == OVERLAY_COLOR
                    &&& push.alpha == OVERLAY_ALPHA
                    &&& push.message is None
                },
            },
            rects@.len() == 0 ==> cmd == (Command::Hide { hwnd: self.handle() }),
    {
        match lock {
            Some(state) => {
                state.rects = slice_to_vec(rects);
                state.command(self.hwnd, Some(WM_REPAINT_OVERLAY))
            },
            None => reposition_overlay_rects(self.hwnd, None, rects),
        }
    }

    /// The raw handle of the window, for `reposition_overlay`.
    pub fn hwnd_raw(&self) -> (hwnd: isize)
        ensures
            hwnd == self.handle(),
    {
        self.hwnd
    }

    /// Shows a vertical line, `width` pixels thick, whose center is the column
    /// `x` and whose top is the row `y`.
    pub fn show_column_boundary(
        &self,
        lock: Option<&mut OverlayState>,
        x: i32,
        y: i32,
        height: i32,
        width: i32,
    ) -> (cmd: Command)
        requires
            fits_i32(x - half(width)),
        ensures
            match lock {
                Some(state) => {
                    &&& final(state)@ == state@.show(seq![column_rect(x, y, height, width)])
                    &&& cmd@ == state@.show(seq![column_rect(x, y, height, width)]).request(
                        self.handle(),
                    )
                },
                None => cmd@ == OverlayModel::initial().show(
                    seq![column_rect(x, y, height, width)],
                ).draw(self.handle()),
            },
            cmd matches Command::Push(push) && push.hwnd == self.handle() && push.rects@.len() == 1
                && ({
                let r = push.rects@[0];
                &&& r == column_rect(x, y, height, width)
                &&& r.y == y
                &&& r.width == width
                &&& r.height == height
                &&& width >= 0 ==> 0 <= width - 2 * (x - r.x) <= 1
                &&& width <= 0 ==> 0 <= 2 * (x - r.x) - width <= 1
            }),
            lock matches Some(state) ==> {
                &&& final(state).rects@ == cmd->Push_0.rects@
                &&& final(state).color == state.color == cmd->Push_0.color
                &&& final(state).alpha == state.alpha == cmd->Push_0.alpha
                &&& cmd->Push_0.message == Some(WM_REPAINT_OVERLAY)
            },
    {
        let rect = Rect::new(x - width / 2, y, width, height);
        self.show_snap_target(lock, rect)
    }

    /// Hides the overlay. The window stays, and can be shown again. It is taken off
    /// the screen without the shared state too.
    pub fn hide_overlay(&self, lock: Option<&mut OverlayState>) -> (cmd: Command)
        ensures
            lock matches Some(state) ==> final(state)@ == state@.hidden(),
            cmd@ == (CommandModel::Hide { hwnd: self.handle() }),
            lock matches Some(state) ==> {
                &&& final(state).rects@.len() == 0
                &&& final(state).color == state.color
                &&& final(state).alpha == state.alpha
            },
            cmd == (Command::Hide { hwnd: self.handle() }),
    {
        if let Some(state) = lock {
            state.rects.clear();
        }
        Command::Hide { hwnd: self.hwnd }
    }

    /// Changes the opacity of the overlay, and has it drawn again where it is
    /// visible. Without the shared state nothing happens.
    pub fn set_opacity(&self, lock: Option<&mut OverlayState>, alpha: u8) -> (cmd: Command)
        ensures
            match lock {
                Some(state) => {
                    &&& final(state)@ == state@.with_alpha(alpha)
                    &&& cmd@ == state@.with_alpha(alpha).redraw(self.handle())
                },
                None => cmd@ == CommandModel::Nothing,
            },
            match lock {
                Some(state) => {
                    &&& final(state).alpha == alpha
                    &&& final(state).color == state.color
                    &&& final(state).rects@ == state.rects@
                    &&& state.rects@.len() == 0 ==> cmd is Nothing
                    &&& state.rects@.len() > 0 ==> {
                        &&& cmd matches Command::Push(push)
                        &&& push.hwnd == self.handle()
                        &&& push.rects@ == state.rects@
                        &&& push.alpha == alpha
                        &&& push.color == state.color
                        &&& push.message == Some(WM_REPAINT_OVERLAY)
                    }
                },
                None => cmd is Nothing,
            },
    {
        match lock {
            Some(state) => {
                state.alpha = alpha;
                state.redraw(self.hwnd)
            },
            None => Command::Nothing,
        }
    }

    /// Whether the overlay shows any rectangle.
    pub fn is_visible(&self, lock: Option<&OverlayState>) -> (b: bool)
        ensures
            b == (lock matches Some(state) && state@.visible()),
            b <==> (lock matches Some(state) && state.rects@.len() > 0),
    {
        match lock {
            Some(state) => state.rects.len() != 0,
            None => false,
        }
    }

    /// Changes the color of the overlay, and has it drawn again where it is visible.
    /// Without the shared state nothing happens.
    pub fn set_color(&self, lock: Option<&mut OverlayState>, color: u32) -> (cmd: Command)
        ensures
            match lock {
                Some(state) => {
                    &&& final(state)@ == state@.with_color(color)
                    &&& cmd@ == state@.with_color(color).redraw(self.handle())
                },
                None => cmd@ == CommandModel::Nothing,
            },
            match lock {
                Some(state) => {
                    &&& final(state).color == color
                    &&& final(state).alpha == state.alpha
                    &&& final(state).rects@ == state.rects@
                    &&& state.rects@.len() == 0 ==> cmd is Nothing
                    &&& state.rects@.len() > 0 ==> {
                        &&& cmd matches Command::Push(push)
                        &&& push.hwnd == self.handle()
                        &&& push.rects@ == state.rects@
                        &&& push.color == color
                        &&& push.alpha == state.alpha
                        &&& push.message == Some(WM_REPAINT_OVERLAY)
                    }
                },
                None => cmd is Nothing,
            },
    {
        match lock {
            Some(state) => {
                state.color = color;
                state.redraw(self.hwnd)
            },
            None => Command::Nothing,
        }
    }

    /// The next thing to do to give the overlay window up. It is called again when
    /// that was done, until there is nothing left: the thread of the window is told
    /// to end and waited for, and only then is the mark taken away that the overlay
    /// is active.
    pub fn close(&mut self) -> (action: CloseAction)
        ensures
            action == old(self).stage().action(old(self).handle()),
            match old(self).stage() {
                CloseStage::Open => {
                    &&& action == (CloseAction::Post {
                        hwnd: old(self).handle(),
                        message: WM_QUIT_OVERLAY,
                    })
                    &&& final(self).stage() is Told
                },
                CloseStage::Told => action is Join && final(self).stage() is Ended,
                CloseStage::Ended => action is ClearActive && final(self).stage() is Closed,
                CloseStage::Closed => action is Nothing && final(self).stage() is Closed,
            },
            final(self).stage() == old(self).stage().next(),
            final(self).handle() == old(self).handle(),
    {
        match self.stage {
            CloseStage::Open => {
                self.stage = CloseStage::Told;
                CloseAction::Post { hwnd: self.hwnd, message: WM_QUIT_OVERLAY }
            },
            CloseStage::Told => {
                self.stage = CloseStage::Ended;
                CloseAction::Join
            },
            CloseStage::Ended => {
                self.stage = CloseStage::Closed;
                CloseAction::ClearActive
            },
            CloseStage::Closed => CloseAction::Nothing,
        }
    }
}

/// Shows highlights at several rectangles in the window with the given handle,
/// in place of what was shown. The caller draws them itself, without the detour by
/// the thread of the window. Without a rectangle the overlay is hidden. Without the
/// shared state they are drawn in the color and at the alpha that an overlay starts
/// with.
pub fn reposition_overlay_rects(
    hwnd_raw: isize,
    lock: Option<&mut OverlayState>,
    rects: &[Rect],
) -> (cmd: Command)
    ensures
        match lock {
            Some(state) => {
                &&& final(state)@ == state@.show(rects@)
                &&& cmd@ == state@.show(rects@).draw(hwnd_raw)
            },
            None => cmd@ == OverlayModel::initial().show(rects@).draw(hwnd_raw),
        },
        match lock {
            Some(state) => {
                &&& final(state).rects@ == rects@
                &&& final(state).color == state.color
                &&& final(state).alpha == state.alpha
                &&& rects@.len() > 0 ==> {
                    &&& cmd matches Command::Push(push)
                    &&& push.hwnd == hwnd_raw
                    &&& push.rects@ == rects@
                    &&& push.color == state.color
                    &&& push.alpha == state.alpha
                    &&& push.message == None::<u32>
                }
            },
            None => rects@.len() > 0 ==> {
                &&& cmd matches Command::Push(push)
                &&& push.hwnd == hwnd_raw
                &&& push.rects@ == rects@
                &&& push.color == OVERLAY_COLOR
                &&& push.alpha == OVERLAY_ALPHA
                &&& push.message is None
            },
        },
        rects@.len() == 0 ==> cmd == (Command::Hide { hwnd: hwnd_raw }),
{
    match lock {
        Some(state) => {
            state.rects = slice_to_vec(rects);
            state.command(hwnd_raw, None)
        },
        None => {
            let mut state = OverlayState::new();
            state.rects = slice_to_vec(rects);
            state.command(hwnd_raw, None)
        },
    }
}

/// Shows a highlight at a rectangle in the window with the given handle, in place
/// of what was shown. The caller draws it itself.
pub fn reposition_overlay(hwnd_raw: isize, lock: Option<&mut OverlayState>, rect: Rect) -> (cmd:
    Command)
    ensures
        match lock {
            Some(state) => {
                &&& final(state)@ == state@.show(seq![rect])
                &&& cmd@ == state@.show(seq![rect]).draw(hwnd_raw)
            },
            None => cmd@ == OverlayModel::initial().show(seq![rect]).draw(hwnd_raw),
        },
        match lock {
            Some(state) => {
                &&& final(state).rects@ == seq![rect]
                &&& final(state).color == state.color
                &&& final(state).alpha == state.alpha
                &&& {
                    &&& cmd matches Command::Push(push)
                    &&& push.hwnd == hwnd_raw
                    &&& push.rects@ == seq![rect]
                    &&& push.color == state.color
                    &&& push.alpha == state.alpha
                    &&& push.message == None::<u32>
                }
            },
            None => {
                &&& cmd matches Command::Push(push)
                &&& push.hwnd == hwnd_raw
                &&& push.rects@ == seq![rect]
                &&& push.color == OVERLAY_COLOR
                &&& push.alpha == OVERLAY_ALPHA
                &&& push.message is None
            },
        },
{
    let rects = [rect];
    assert(rects@ =~= seq![rect]);
    reposition_overlay_rects(hwnd_raw, lock, &rects)
}

/// What the thread of a window does when it is asked to draw the overlay: it draws
/// what the overlay now shows, and hides the window where that is nothing. Without
/// the shared state nothing happens.
pub fn repaint_overlay(hwnd_raw: isize, lock: Option<&OverlayState>) -> (cmd: Command)
    ensures
        cmd@ == match lock {
            Some(state) => state@.draw(hwnd_raw),
            None => CommandModel::Nothing,
        },
        match lock {
            Some(state) => if state.rects@.len() == 0 {
                cmd == (Command::Hide { hwnd: hwnd_raw })
            } else {
                &&& cmd matches Command::Push(push)
                &&& push.hwnd == hwnd_raw
                &&& push.rects@ == state.rects@
                &&& push.color == state.color
                &&& push.alpha == state.alpha
                &&& push.message is None
            },
            None => cmd is Nothing,
        },
{
    match lock {
        Some(state) => state.command(hwnd_raw, None),
        None => Command::Nothing,
    }
}

/// Half of a width is the whole number next to the quotient, on the side of zero.
pub proof fn law_half_rounds_to_zero(width: i32)
    ensures
        width >= 0 ==> 0 <= width - 2 * half(width) <= 1,
        width <= 0 ==> 0 <= 2 * half(width) - width <= 1,
{
}

/// A window comes of an answer exactly if the answer is a window, and only then is
/// the state changed: the rectangles go, the alpha is what an overlay starts with, and
/// the color stays.
pub proof fn law_answers(state: OverlayModel, reply: InitReply, hwnd: isize, e: Win32Error)
    ensures
        InitReply::Window(hwnd).has_window(),
        !InitReply::Refused(e).has_window(),
        !InitReply::Lost.has_window(),
        state_after_new(state, reply).color == state.color,
        reply is Window ==> state_after_new(state, reply).rects.len() == 0,
        reply is Window ==> state_after_new(state, reply).alpha == OVERLAY_ALPHA,
        !(reply is Window) ==> state_after_new(state, reply) == state,
{
}

/// To give an overlay window up takes three things in this order, and nothing after
/// them: its thread is told to end, it is waited for, and the mark is taken away.
pub proof fn law_order_of_giving_up(hwnd: isize)
    ensures
        ({
            let told = CloseStage::Open.next();
            let ended = told.next();
            let closed = ended.next();
            &&& CloseStage::Open.action(hwnd) == (CloseAction::Post {
                hwnd,
                message: WM_QUIT_OVERLAY,
            })
            &&& told.action(hwnd) is Join
            &&& ended.action(hwnd) is ClearActive
            &&& closed.action(hwnd) is Nothing
            &&& closed.next() == closed
        }),
{
}

} // verus!
