//! What holds of the overlay over several calls.
use vstd::prelude::*;

use crate::canvas::law_painted_point;
use crate::canvas::painted;
use crate::canvas::Canvas;
use crate::color::law_pixel_of_bytes;
use crate::color::pixel_of;
use crate::overlay::column_rect;
use crate::overlay::half;
use crate::overlay::state_after_new;
use crate::overlay::CloseAction;
use crate::overlay::CloseStage;
use crate::overlay::InitReply;
use crate::rect::bottom_of;
use crate::rect::covered;
use crate::rect::drawable;
use crate::rect::fits_i32;
use crate::rect::law_covered_point;
use crate::rect::law_covered_points_lie_in_the_box;
use crate::rect::left_of;
use crate::rect::right_of;
use crate::rect::top_of;
use crate::rect::Rect;
use crate::state::CommandModel;
use crate::state::OverlayModel;
use crate::worker::law_thread_pumps_until_told;
use crate::worker::law_window_has_its_styles;
use crate::worker::overlay_settings;
use crate::worker::ThreadEvent;
use crate::worker::ThreadState;
use crate::worker::WM_QUIT_OVERLAY;
use crate::worker::WS_VISIBLE;

verus! {

/// A picture on the screen: where it is, how large it is, and its pixels, row by
/// row.
pub struct Frame {
    pub x: int,
    pub y: int,
    pub width: int,
    pub height: int,
    pub pixels: Seq<u32>,
}

/// The picture of an overlay whose bitmap starts out clear; none where there is
/// nothing to draw.
pub open spec fn frame_of(content: OverlayModel) -> Option<Frame> {
    let rects = content.rects;
    if drawable(rects) {
        let width = right_of(rects) - left_of(rects);
        let height = bottom_of(rects) - top_of(rects);
        let clear = Seq::new((width * height) as nat, |k: int| 0u32);
        Some(
            Frame {
                x: left_of(rects),
                y: top_of(rects),
                width,
                height,
                pixels: painted(
                    clear,
                    left_of(rects),
                    top_of(rects),
                    width,
                    rects,
                    pixel_of(content.color, content.alpha) as u32,
                ),
            },
        )
    } else {
        None
    }
}

/// What the window shows: whether it is on the screen, and the picture that was
/// last drawn into it.
pub struct Screen {
    pub shown: bool,
    pub frame: Option<Frame>,
}

impl Screen {
    /// What a window shows that was just created.
    pub open spec fn of_new_window() -> Screen {
        Screen { shown: overlay_settings().style & WS_VISIBLE != 0, frame: None }
    }

    /// The screen after a command whose bitmap could be created. A drawing that is
    /// left to the thread of the window is not there yet.
    pub open spec fn after(self, cmd: CommandModel) -> Screen {
        match cmd {
            CommandModel::Nothing => self,
            CommandModel::Hide { .. } => Screen { shown: false, ..self },
            CommandModel::Push { message: Some(_), .. } => self,
            CommandModel::Push { content, message: None, .. } => match frame_of(content) {
                Some(frame) => Screen { shown: true, frame: Some(frame) },
                None => self,
            },
        }
    }

    /// Whether the screen shows what the state says: the picture of a visible
    /// overlay, and nothing of one that is not.
    pub open spec fn agrees_with(self, state: OverlayModel) -> bool {
        if state.visible() {
            self.shown && self.frame is Some && self.frame == frame_of(state)
        } else {
            !self.shown
        }
    }
}

/// A call that shows, hides or changes the overlay.
pub enum Call {
    Show(Seq<Rect>),
    Reposition(Seq<Rect>),
    Hide,
    Color(u32),
    Opacity(u8),
}

impl Call {
    /// Whether what the call shows can be drawn, or is nothing at all.
    pub open spec fn can_be_drawn(self) -> bool {
        match self {
            Call::Show(rects) | Call::Reposition(rects) => rects.len() > 0 ==> drawable(rects),
            _ => true,
        }
    }

    /// Whether the call changes nothing but the color or the alpha.
    pub open spec fn is_setting(self) -> bool {
        self is Color || self is Opacity
    }

    /// The state after the call.
    pub open spec fn state_after(self, state: OverlayModel) -> OverlayModel {
        match self {
            Call::Show(rects) | Call::Reposition(rects) => state.show(rects),
            Call::Hide => state.hidden(),
            Call::Color(color) => state.with_color(color),
            Call::Opacity(alpha) => state.with_alpha(alpha),
        }
    }

    /// The command that the call gives.
    pub open spec fn command(self, state: OverlayModel, hwnd: isize) -> CommandModel {
        match self {
            Call::Show(rects) => state.show(rects).request(hwnd),
            Call::Reposition(rects) => state.show(rects).draw(hwnd),
            Call::Hide => CommandModel::Hide { hwnd },
            Call::Color(color) => state.with_color(color).redraw(hwnd),
            Call::Opacity(alpha) => state.with_alpha(alpha).redraw(hwnd),
        }
    }
}

/// The state after several calls.
pub open spec fn state_after_calls(state: OverlayModel, calls: Seq<Call>) -> OverlayModel
    decreases calls.len(),
{
    if calls.len() == 0 {
        state
    } else {
        calls.last().state_after(state_after_calls(state, calls.drop_last()))
    }
}

/// The state of the overlay, what its window shows, and how many requests to draw
/// the overlay its thread has not answered yet.
pub struct World {
    pub state: OverlayModel,
    pub screen: Screen,
    pub pending: int,
}

/// Whether a command posts a message that the thread of the window answers with a
/// drawing.
pub open spec fn asks_for_drawing(cmd: CommandModel) -> bool {
    cmd matches CommandModel::Push { hwnd, message: Some(message), .. } && {
        let event = ThreadEvent::Received { result: 1, message };
        event.asks_repaint() && (ThreadState::Pumping { hwnd }).next(event) == (
        ThreadState::Pumping { hwnd })
    }
}

/// What happens to an overlay: a call, or its thread answers a request to draw.
pub enum Happening {
    Called(Call),
    Repainted,
}

impl Happening {
    /// Whether what is shown can be drawn, or is nothing at all.
    pub open spec fn can_be_drawn(self) -> bool {
        self matches Happening::Called(call) ==> call.can_be_drawn()
    }
}

impl World {
    /// A window that is hidden where the overlay is, and shows the overlay once no
    /// request is left to answer.
    pub open spec fn inv(self) -> bool {
        &&& 0 <= self.pending
        &&& self.state.visible() ==> drawable(self.state.rects)
        &&& !self.state.visible() ==> !self.screen.shown
        &&& self.pending == 0 ==> self.screen.agrees_with(self.state)
    }

    /// After a call.
    pub open spec fn called(self, call: Call, hwnd: isize) -> World {
        let cmd = call.command(self.state, hwnd);
        World {
            state: call.state_after(self.state),
            screen: self.screen.after(cmd),
            pending: self.pending + if asks_for_drawing(cmd) {
                1int
            } else {
                0
            },
        }
    }

    /// After the thread of the window answered a request to draw.
    pub open spec fn repainted(self, hwnd: isize) -> World {
        World {
            screen: self.screen.after(self.state.draw(hwnd)),
            pending: if self.pending > 0 {
                self.pending - 1
            } else {
                0
            },
            ..self
        }
    }

    /// After something happened.
    pub open spec fn after(self, h: Happening, hwnd: isize) -> World {
        match h {
            Happening::Called(call) => self.called(call, hwnd),
            Happening::Repainted => self.repainted(hwnd),
        }
    }

    /// After several things happened.
    pub open spec fn after_all(self, hs: Seq<Happening>, hwnd: isize) -> World
        decreases hs.len(),
    {
        if hs.len() == 0 {
            self
        } else {
            self.after_all(hs.drop_last(), hwnd).after(hs.last(), hwnd)
        }
    }
}

/// Painting a clear bitmap on the canvas that is chosen for an overlay gives the
/// picture of the overlay.
pub proof fn law_canvas_gives_the_picture(canvas: Canvas, content: OverlayModel)
    requires
        drawable(content.rects),
        canvas.draws(content.rects, content.color, content.alpha),
    ensures
        frame_of(content) == Some(
            Frame {
                x: canvas.x as int,
                y: canvas.y as int,
                width: canvas.width as int,
                height: canvas.height as int,
                pixels: painted(
                    Seq::new((canvas.width * canvas.height) as nat, |k: int| 0u32),
                    canvas.x as int,
                    canvas.y as int,
                    canvas.width as int,
                    content.rects,
                    canvas.pixel,
                ),
            },
        ),
{
}

/// The picture of an overlay shows each point of its rectangles, in the color with
/// the bytes `blue`, `green` and `red` premultiplied by the alpha, and is clear
/// elsewhere.
pub proof fn law_picture_shows_the_rects(
    content: OverlayModel,
    high: int,
    blue: int,
    green: int,
    red: int,
    sx: int,
    sy: int,
)
    requires
        drawable(content.rects),
        0 <= blue <= 255,
        0 <= green <= 255,
        0 <= red <= 255,
        content.color == high * 0x100_0000 + blue * 0x1_0000 + green * 0x100 + red,
    ensures
        ({
            let hit = exists|i: int|
                0 <= i < content.rects.len() && 0 <= sx - (#[trigger] content.rects[i]).x
                    < content.rects[i].width && 0 <= sy - content.rects[i].y
                    < content.rects[i].height;
            &&& frame_of(content) matches Some(f)
            &&& f.width > 0 && f.height > 0 && f.pixels.len() == f.width * f.height
            &&& hit ==> f.x <= sx < f.x + f.width && f.y <= sy < f.y + f.height
            &&& f.x <= sx < f.x + f.width && f.y <= sy < f.y + f.height ==> {
                let k = (sy - f.y) * f.width + (sx - f.x);
                let pixel = f.pixels[k] as int;
                let r = (pixel / 0x1_0000) % 0x100;
                let g = (pixel / 0x100) % 0x100;
                let b = pixel % 0x100;
                &&& 0 <= k < f.pixels.len()
                &&& !hit ==> pixel == 0
                &&& hit ==> {
                    &&& pixel / 0x100_0000 == content.alpha
                    &&& 255 * r <= red * content.alpha < 255 * r + 255
                    &&& 255 * g <= green * content.alpha < 255 * g + 255
                    &&& 255 * b <= blue * content.alpha < 255 * b + 255
                }
            }
        }),
{
    let rects = content.rects;
    let f = frame_of(content)->0;
    law_covered_point(rects, sx, sy);
    if covered(rects, sx, sy) {
        law_covered_points_lie_in_the_box(rects, sx, sy);
    }
    law_pixel_of_bytes(content.color, content.alpha, high, blue, green, red);
    assert(f.width * f.height > 0) by (nonlinear_arith)
        requires
            f.width > 0,
            f.height > 0,
    ;
    if f.x <= sx < f.x + f.width && f.y <= sy < f.y + f.height {
        law_painted_point(
            Seq::new((f.width * f.height) as nat, |k: int| 0u32),
            f.x,
            f.y,
            f.width,
            f.height,
            rects,
            pixel_of(content.color, content.alpha) as u32,
            sx - f.x,
            sy - f.y,
        );
    }
}

/// A new overlay is hidden and at half opacity, whatever an earlier one showed. It
/// keeps the color. Its window is not on the screen either.
pub proof fn law_new_overlay_is_hidden(state: OverlayModel, reply: InitReply)
    requires
        reply.has_window(),
    ensures
        !state_after_new(state, reply).visible(),
        state_after_new(state, reply).alpha == 128,
        state_after_new(state, reply).color == state.color,
        !Screen::of_new_window().shown,
        (World {
            state: state_after_new(state, reply),
            screen: Screen::of_new_window(),
            pending: 0,
        }).inv(),
{
    law_window_has_its_styles();
}

/// Until it is shown something, a new overlay stays hidden, whatever colors and
/// alphas are set.
pub proof fn law_new_overlay_must_be_shown(
    state: OverlayModel,
    reply: InitReply,
    calls: Seq<Call>,
)
    requires
        reply.has_window(),
        forall|i: int| 0 <= i < calls.len() ==> (#[trigger] calls[i]).is_setting(),
    ensures
        !state_after_calls(state_after_new(state, reply), calls).visible(),
{
    lemma_settings_keep_rects(state_after_new(state, reply), calls);
}

/// Showing rectangles that can be drawn makes the overlay visible, and asks the
/// thread of the window for one drawing. When the thread answers, their picture is
/// on the screen, whatever was there before.
pub proof fn law_show_brings_the_picture(world: World, rects: Seq<Rect>, hwnd: isize)
    requires
        drawable(rects),
    ensures
        ({
            let asked = world.called(Call::Show(rects), hwnd);
            let drawn = asked.repainted(hwnd);
            &&& asked.state.visible()
            &&& asked.state == world.state.show(rects)
            &&& asked.pending == world.pending + 1
            &&& drawn.screen.shown
            &&& drawn.screen.agrees_with(world.state.show(rects))
        }),
{
}

/// Repositioning to rectangles that can be drawn brings their picture on the screen
/// at once, and leaves the thread of the window out of it.
pub proof fn law_reposition_brings_the_picture(world: World, rects: Seq<Rect>, hwnd: isize)
    requires
        drawable(rects),
    ensures
        ({
            let drawn = world.called(Call::Reposition(rects), hwnd);
            &&& drawn.state == world.called(Call::Show(rects), hwnd).state
            &&& drawn.pending == world.pending
            &&& drawn.screen.shown
            &&& drawn.screen.agrees_with(drawn.state)
        }),
{
}

/// To show no rectangle is to hide the overlay.
pub proof fn law_showing_nothing_hides(world: World, hwnd: isize)
    ensures
        world.called(Call::Show(Seq::empty()), hwnd) == world.called(Call::Hide, hwnd),
        world.called(Call::Reposition(Seq::empty()), hwnd) == world.called(Call::Hide, hwnd),
{
}

/// Hiding takes the overlay off the screen at once, whatever was there before, and
/// keeps its color and its alpha. A request that is answered later does not bring
/// it back.
pub proof fn law_hide_takes_the_picture_away(world: World, hwnd: isize)
    ensures
        ({
            let hidden = world.called(Call::Hide, hwnd);
            &&& !hidden.state.visible()
            &&& hidden.state.color == world.state.color
            &&& hidden.state.alpha == world.state.alpha
            &&& hidden.screen.agrees_with(hidden.state)
            &&& !hidden.repainted(hwnd).screen.shown
        }),
{
}

/// A new color reaches the screen where the overlay is visible, as soon as the
/// thread of the window answers. It neither shows nor hides the overlay, and leaves
/// the rectangles in place. Where the overlay is not visible, nothing is drawn.
pub proof fn law_color_reaches_the_screen(world: World, color: u32, hwnd: isize)
    requires
        world.inv(),
    ensures
        ({
            let set = world.called(Call::Color(color), hwnd);
            &&& set.state.rects == world.state.rects
            &&& set.state.visible() == world.state.visible()
            &&& set.screen == world.screen
            &&& set.pending == world.pending + if world.state.visible() {
                1int
            } else {
                0
            }
            &&& world.state.visible() ==> set.repainted(hwnd).screen.agrees_with(set.state)
        }),
{
}

/// A new alpha reaches the screen where the overlay is visible, as soon as the
/// thread of the window answers. It neither shows nor hides the overlay, and leaves
/// the rectangles in place. Where the overlay is not visible, nothing is drawn.
pub proof fn law_opacity_reaches_the_screen(world: World, alpha: u8, hwnd: isize)
    requires
        world.inv(),
    ensures
        ({
            let set = world.called(Call::Opacity(alpha), hwnd);
            &&& set.state.rects == world.state.rects
            &&& set.state.visible() == world.state.visible()
            &&& set.screen == world.screen
            &&& set.pending == world.pending + if world.state.visible() {
                1int
            } else {
                0
            }
            &&& world.state.visible() ==> set.repainted(hwnd).screen.agrees_with(set.state)
        }),
{
}

/// Whatever is called, and whenever the thread of the window answers: the window is
/// off the screen while the overlay is hidden, and once every request is answered
/// it is on the screen exactly if the overlay is visible, with the picture of its
/// rectangles in its color and at its alpha. Rectangles whose box has no area are
/// left out.
pub proof fn law_screen_keeps_up(world: World, hs: Seq<Happening>, hwnd: isize)
    requires
        world.inv(),
        forall|i: int| 0 <= i < hs.len() ==> (#[trigger] hs[i]).can_be_drawn(),
    ensures
        ({
            let w = world.after_all(hs, hwnd);
            &&& w.inv()
            &&& !w.state.visible() ==> !w.screen.shown
            &&& w.pending == 0 ==> w.screen.shown == w.state.visible()
            &&& w.pending == 0 && w.state.visible() ==> w.screen.frame == frame_of(w.state)
        }),
    decreases hs.len(),
{
    if hs.len() > 0 {
        let rest = hs.drop_last();
        assert forall|i: int| 0 <= i < rest.len() implies (#[trigger] rest[i]).can_be_drawn() by {
            assert(rest[i] == hs[i]);
        }
        law_screen_keeps_up(world, rest, hwnd);
        assert(hs.last().can_be_drawn());
    }
}

/// Drawing rectangles whose box has no area leaves the picture on the screen as it
/// was.
pub proof fn law_box_without_area_leaves_the_picture(
    state: OverlayModel,
    screen: Screen,
    rects: Seq<Rect>,
    hwnd: isize,
)
    requires
        rects.len() > 0,
        !drawable(rects),
    ensures
        screen.after(state.show(rects).draw(hwnd)) == screen,
{
}

/// What is shown stays until something else is shown or the overlay is hidden: the
/// rectangles of the last call are those of the state, whatever was shown before
/// and whatever colors and alphas were set since.
pub proof fn law_last_show_counts(
    state: OverlayModel,
    before: Seq<Call>,
    last: Seq<Rect>,
    since: Seq<Call>,
)
    requires
        forall|i: int| 0 <= i < since.len() ==> (#[trigger] since[i]).is_setting(),
    ensures
        state_after_calls(
            Call::Show(last).state_after(state_after_calls(state, before)),
            since,
        ).rects == last,
{
    lemma_settings_keep_rects(
        Call::Show(last).state_after(state_after_calls(state, before)),
        since,
    );
}

proof fn lemma_settings_keep_rects(state: OverlayModel, calls: Seq<Call>)
    requires
        forall|i: int| 0 <= i < calls.len() ==> (#[trigger] calls[i]).is_setting(),
    ensures
        state_after_calls(state, calls).rects == state.rects,
    decreases calls.len(),
{
    if calls.len() > 0 {
        let rest = calls.drop_last();
        assert forall|i: int| 0 <= i < rest.len() implies (#[trigger] rest[i]).is_setting() by {
            assert(rest[i] == calls[i]);
        }
        lemma_settings_keep_rects(state, rest);
        assert(calls.last().is_setting());
    }
}

/// It does not matter in which order the color, the alpha and the rectangles are
/// set.
pub proof fn law_settings_commute(state: OverlayModel, rects: Seq<Rect>, color: u32, alpha: u8)
    ensures
        state.with_color(color).with_alpha(alpha) == state.with_alpha(alpha).with_color(color),
        state.show(rects).with_color(color) == state.with_color(color).show(rects),
        state.show(rects).with_alpha(alpha) == state.with_alpha(alpha).show(rects),
{
}

/// The line of a column boundary is centered at its column: the part left of the
/// column is half of the width, and the part from the column on is as wide, or
/// one pixel wider. A line with a positive width covers the column.
pub proof fn law_boundary_is_centered(x: i32, y: i32, height: i32, width: i32)
    requires
        fits_i32(x - half(width)),
        width >= 0,
    ensures
        ({
            let r = column_rect(x, y, height, width);
            &&& x - r.x == width as int / 2
            &&& 0 <= (r.right() - x) - (x - r.x) <= 1
            &&& width > 0 ==> r.x <= x < r.right()
            &&& r.y == y
            &&& r.bottom() == y + height
        }),
{
}

/// The boundary line covers, in each of its rows, exactly `width` columns.
pub proof fn law_boundary_covers_its_rows(
    x: i32,
    y: i32,
    height: i32,
    width: i32,
    sx: int,
    sy: int,
)
    requires
        fits_i32(x - half(width)),
    ensures
        covered(seq![column_rect(x, y, height, width)], sx, sy) <==> {
            &&& x - half(width) <= sx < x - half(width) + width
            &&& y <= sy < y + height
        },
{
    let rects = seq![column_rect(x, y, height, width)];
    assert(rects[0] == column_rect(x, y, height, width));
}

/// Who counts on the mark that the overlay is active: the callers that have
/// claimed the overlay and wait for their window, and the overlay windows.
pub struct ActiveMark {
    pub active: bool,
    pub claims: int,
    pub windows: int,
}

impl ActiveMark {
    /// The overlay is marked as active exactly while there is a claim or a
    /// window, and there is at most one of them.
    pub open spec fn inv(self) -> bool {
        &&& 0 <= self.claims
        &&& 0 <= self.windows
        &&& self.claims + self.windows == if self.active {
            1int
        } else {
            0
        }
    }

    /// The mark after a caller marked the overlay as active and asked for the
    /// right to set it up, which it gets where there was no mark.
    pub open spec fn after_claim(self) -> ActiveMark {
        if self.active {
            self
        } else {
            ActiveMark { active: true, claims: self.claims + 1, ..self }
        }
    }

    /// The mark after a claim ended with an answer of the thread.
    pub open spec fn after_new(self, reply: InitReply) -> ActiveMark {
        ActiveMark {
            active: reply.has_window(),
            claims: self.claims - 1,
            windows: self.windows + if reply.has_window() {
                1int
            } else {
                0
            },
        }
    }

    /// The mark after it was taken away for an overlay window that is given up.
    pub open spec fn after_close(self) -> ActiveMark {
        ActiveMark { active: false, windows: self.windows - 1, ..self }
    }
}

/// There is at most one overlay window, and a claim is refused exactly while
/// there is one or one is being set up.
pub proof fn law_one_overlay_at_a_time(mark: ActiveMark)
    requires
        mark.inv(),
    ensures
        mark.windows <= 1,
        mark.after_claim().inv(),
        mark.active <==> mark.claims + mark.windows > 0,
{
}

/// The end of a claim keeps the mark exactly where it led to a window, so that
/// after a failure the overlay can be set up again.
pub proof fn law_failed_set_up_can_be_repeated(mark: ActiveMark, reply: InitReply)
    requires
        mark.inv(),
        mark.claims > 0,
    ensures
        mark.after_new(reply).inv(),
        mark.after_new(reply).windows == if reply.has_window() {
            1int
        } else {
            0
        },
        !reply.has_window() ==> !mark.after_new(reply).active,
{
}

/// After an overlay window was given up, the overlay can be set up again.
pub proof fn law_closed_overlay_can_be_set_up_again(mark: ActiveMark)
    requires
        mark.inv(),
        mark.windows > 0,
    ensures
        mark.after_close().inv(),
        mark.after_close().windows == 0,
        mark.after_close().after_claim().claims == 1,
{
}

/// The message that is posted when an overlay window is given up ends its thread,
/// whatever came before and whatever comes after.
pub proof fn law_closing_message_ends_the_thread(
    hwnd: isize,
    result: i32,
    before: Seq<ThreadEvent>,
    after: Seq<ThreadEvent>,
)
    ensures
        CloseStage::Open.action(hwnd) == (CloseAction::Post { hwnd, message: WM_QUIT_OVERLAY }),
        ({
            let posted = ThreadEvent::Received { result, message: WM_QUIT_OVERLAY };
            (ThreadState::Pumping { hwnd }).run(before.push(posted) + after)
                == ThreadState::Finished
        }),
{
    let posted = ThreadEvent::Received { result, message: WM_QUIT_OVERLAY };
    let events = before.push(posted) + after;
    assert(events[before.len() as int] == posted);
    assert(events[before.len() as int].ends_pump());
    law_thread_pumps_until_told(hwnd, events);
}

/// The life of an overlay window, its thread and its mark.
pub struct Life {
    /// The handle of the window.
    pub hwnd: isize,
    /// How far the window has been given up.
    pub stage: CloseStage,
    /// Where its thread is.
    pub thread: ThreadState,
    /// Whether the window and its class exist.
    pub window: bool,
    /// Whether the overlay is marked as active.
    pub active: bool,
}

/// What happens in the life of an overlay window: the next thing is done to give it
/// up, or its thread learns of an event.
pub enum LifeStep {
    Close,
    Thread(ThreadEvent),
}

impl Life {
    /// A window that was just set up.
    pub open spec fn begun(hwnd: isize) -> Life {
        Life {
            hwnd,
            stage: CloseStage::Open,
            thread: ThreadState::Pumping { hwnd },
            window: true,
            active: true,
        }
    }

    /// After a step. To wait for the thread takes until it has ended: before that,
    /// nothing happens.
    pub open spec fn after(self, step: LifeStep) -> Life {
        match step {
            LifeStep::Close => {
                let action = self.stage.action(self.hwnd);
                if action is Join && !(self.thread is Finished) {
                    self
                } else {
                    Life {
                        stage: self.stage.next(),
                        active: self.active && !(action is ClearActive),
                        ..self
                    }
                }
            },
            LifeStep::Thread(event) => Life {
                thread: self.thread.next(event),
                window: self.window && !self.thread.destroys(event),
                ..self
            },
        }
    }

    /// After several steps.
    pub open spec fn after_all(self, steps: Seq<LifeStep>) -> Life
        decreases steps.len(),
    {
        if steps.len() == 0 {
            self
        } else {
            self.after_all(steps.drop_last()).after(steps.last())
        }
    }

    /// What holds at every moment.
    pub open spec fn inv(self) -> bool {
        &&& self.active <==> !(self.stage is Closed)
        &&& self.stage is Ended || self.stage is Closed ==> self.thread is Finished
        &&& self.thread is Finished <==> !self.window
        &&& self.thread is Finished || self.thread == (ThreadState::Pumping { hwnd: self.hwnd })
    }
}

/// The mark that an overlay is active outlives its thread: at every moment, if the
/// mark was taken away, the thread has ended, and the window and its class were
/// destroyed. The mark is all that a new claim asks for, so the threads of an old
/// and of a new overlay window never run at once. The same holds when the window
/// has been given up.
pub proof fn law_mark_outlives_the_thread(hwnd: isize, steps: Seq<LifeStep>)
    ensures
        ({
            let life = Life::begun(hwnd).after_all(steps);
            &&& life.inv()
            &&& !life.active ==> life.thread is Finished && !life.window
            &&& life.stage is Closed ==> !life.active && life.thread is Finished && !life.window
        }),
    decreases steps.len(),
{
    if steps.len() > 0 {
        law_mark_outlives_the_thread(hwnd, steps.drop_last());
        lemma_life_step(Life::begun(hwnd).after_all(steps.drop_last()), steps.last());
    }
}

proof fn lemma_life_step(life: Life, step: LifeStep)
    requires
        life.inv(),
    ensures
        life.after(step).inv(),
{
}

/// An overlay window whose thread learns of the message that was posted to it is
/// given up in the end: the thread has ended, the window and its class are
/// destroyed, and the mark is gone.
pub proof fn law_giving_up_comes_to_an_end(hwnd: isize, result: i32)
    ensures
        ({
            let posted = ThreadEvent::Received { result, message: WM_QUIT_OVERLAY };
            let told = Life::begun(hwnd).after(LifeStep::Close);
            let ended = told.after(LifeStep::Thread(posted)).after(LifeStep::Close);
            let closed = ended.after(LifeStep::Close);
            &&& told.active && ended.active
            &&& ended.thread is Finished && !ended.window
            &&& closed.stage is Closed && !closed.active
            &&& closed.stage.action(hwnd) is Nothing
        }),
{
}

} // verus!
