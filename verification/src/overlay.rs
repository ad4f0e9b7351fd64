//! The borderless overlay window: the outline drawn while it is dragged,
//! the drag-to-move and drag-to-resize gestures, and the frame counter.
use vstd::prelude::*;
use crate::settings::Settings;

verus! {

/// Smallest window width that a resize keeps without correction.
pub const MIN_WIDTH: i32 = 200;
/// Smallest window height that a resize keeps without correction.
pub const MIN_HEIGHT: i32 = 200;
/// Margin, in pixels, of the top band, bottom band and corners.
pub const EDGE_MARGIN: i32 = 50;
/// Frames after which the frame counter starts again from zero.
pub const FRAME_COUNTER_LIMIT: i64 = 10000;
/// Every this many frames the target frame rate is refreshed.
pub const FPS_REFRESH_PERIOD: i64 = 100;

/// A screen rectangle given by its edges.
#[derive(Clone, Copy, Debug, PartialEq, Eq, Structural)]
pub struct Rect {
    pub left: i32,
    pub top: i32,
    pub right: i32,
    pub bottom: i32,
}

/// The two XOR drawings of one outline update: the outline drawn last
/// time is drawn again (which erases it), then the new one is drawn.
#[derive(Clone, Copy, Debug, PartialEq, Eq, Structural)]
pub struct RectangleRedraw {
    pub erase: Rect,
    pub draw: Rect,
}

/// The value fits in an `i32`.
pub open spec fn fits_i32(v: int) -> bool {
    i32::MIN <= v <= i32::MAX
}

/// The rectangle at `pos` with the given width and height.
pub open spec fn rect_at(pos: (i32, i32), size: (i32, i32)) -> Rect {
    Rect {
        left: pos.0,
        top: pos.1,
        right: (pos.0 + size.0) as i32,
        bottom: (pos.1 + size.1) as i32,
    }
}

/// Plans an outline update: erase `old_rect`, draw the rectangle at
/// `new_pos` of size `new_size`; the drawn rectangle is the one to erase
/// next time.
pub fn erase_and_draw_rectangle(old_rect: Rect, new_pos: (i32, i32), new_size: (i32, i32)) -> (r: RectangleRedraw)
    requires
        fits_i32(new_pos.0 + new_size.0),
        fits_i32(new_pos.1 + new_size.1),
    ensures
        r.erase == old_rect,
        r.draw == rect_at(new_pos, new_size),
{
    RectangleRedraw {
        erase: old_rect,
        draw: Rect {
            left: new_pos.0,
            top: new_pos.1,
            right: new_pos.0 + new_size.0,
            bottom: new_pos.1 + new_size.1,
        },
    }
}

/// Something the window has to do for a drag gesture, in order.
#[derive(Clone, Copy, Debug, PartialEq, Eq, Structural)]
pub enum WindowCommand {
    /// Erase and draw the drag outline on the desktop.
    DrawOutline(RectangleRedraw),
    /// Resize the window.
    SetSize { width: i32, height: i32 },
    /// Move the window.
    SetPosition { x: i32, y: i32 },
    /// Have the desktop repaint the area under the last outline.
    Repaint(Rect),
}

/// What the pointer and window look like in one frame. The `*_band`
/// fields are fractions of the window size rounded toward zero, which the
/// caller computes: a tenth and nine tenths of the height, half, a tenth
/// and nine tenths of the width.
#[derive(Clone, Copy, Debug, PartialEq, Eq)]
pub struct PointerFrame {
    pub left_down: bool,
    pub screen: (i32, i32),
    pub window_pos: (i32, i32),
    pub mouse: (i32, i32),
    pub mouse_delta: (i32, i32),
    pub tenth_height: i32,
    pub nine_tenths_height: i32,
    pub half_width: i32,
    pub tenth_width: i32,
    pub nine_tenths_width: i32,
}

/// State of the drag gestures between frames.
#[derive(Clone, Copy, Debug, PartialEq, Eq)]
pub struct DragState {
    /// No move is under way (a move starts from the top band).
    pub required_to_be_in_pos: bool,
    /// No resize is under way (a resize starts from a bottom corner).
    pub required_to_be_in_pos_resize: bool,
    /// The window is to be moved when the button is released.
    pub need_to_move: bool,
    /// The outline last drawn on the desktop.
    pub old_rectangle: Rect,
    /// The window size that F11 goes back to.
    pub size_after_resize: (i32, i32),
    /// Pointer position, in the window, when the button was last up.
    pub last_mouse_pos: (i32, i32),
    /// No frame has been handled yet.
    pub first_frame: bool,
}

/// The state before the first frame.
pub open spec fn initial_drag_state() -> DragState {
    DragState {
        required_to_be_in_pos: true,
        required_to_be_in_pos_resize: true,
        need_to_move: false,
        old_rectangle: Rect { left: 0, top: 0, right: 0, bottom: 0 },
        size_after_resize: (500, 500),
        last_mouse_pos: (0, 0),
        first_frame: true,
    }
}

pub open spec fn max_i32(a: int, b: int) -> int {
    if a >= b { a } else { b }
}

/// The pointer is in the top band, where a move starts.
pub open spec fn on_top(p: PointerFrame) -> bool {
    p.mouse.1 < max_i32(p.tenth_height as int, EDGE_MARGIN as int)
}

/// The pointer is in the bottom band.
pub open spec fn on_bottom(p: PointerFrame) -> bool {
    p.mouse.1 > max_i32(p.nine_tenths_height as int, p.screen.1 - EDGE_MARGIN)
}

/// The pointer is in the left half.
pub open spec fn on_left(p: PointerFrame) -> bool {
    p.mouse.0 < p.half_width
}

/// The pointer is near the left or the right edge.
pub open spec fn in_corner(p: PointerFrame) -> bool {
    p.mouse.0 < max_i32(p.tenth_width as int, EDGE_MARGIN as int)
        || p.mouse.0 > max_i32(p.nine_tenths_width as int, p.screen.0 - EDGE_MARGIN)
}

/// With the button down, a move starts (from the top band, away from the
/// corners, when no resize is under way) or goes on.
pub open spec fn moves(st: DragState, p: PointerFrame) -> bool {
    (on_top(p) && !in_corner(p) && st.required_to_be_in_pos_resize) || !st.required_to_be_in_pos
}

/// With the button down, a resize starts (from a bottom corner, when no
/// move is pending) or goes on, as long as the pointer is in the right half.
pub open spec fn resizes(st: DragState, p: PointerFrame) -> bool {
    let need = st.need_to_move || moves(st, p);
    ((in_corner(p) && on_bottom(p) && !need) || !st.required_to_be_in_pos_resize) && !on_left(p)
}

/// Where the dragged window is: its position moved by how far the pointer
/// went since the button was pressed.
pub open spec fn drag_target(st: DragState, p: PointerFrame) -> (i32, i32) {
    (
        (p.window_pos.0 + p.mouse.0 - st.last_mouse_pos.0) as i32,
        (p.window_pos.1 + p.mouse.1 - st.last_mouse_pos.1) as i32,
    )
}

/// The size that the resize gesture asks for.
pub open spec fn resized(p: PointerFrame) -> (i32, i32) {
    ((p.screen.0 + p.mouse_delta.0) as i32, (p.screen.1 + p.mouse_delta.1) as i32)
}

/// The inputs for which every sum that the frame computes fits in an `i32`.
pub open spec fn drag_step_fits(st: DragState, p: PointerFrame) -> bool {
    if p.left_down {
        &&& fits_i32(p.screen.1 - EDGE_MARGIN)
        &&& p.mouse.0 >= max_i32(p.tenth_width as int, EDGE_MARGIN as int) ==> fits_i32(p.screen.0 - EDGE_MARGIN)
        &&& moves(st, p) ==> {
            &&& fits_i32(p.window_pos.0 + p.mouse.0)
            &&& fits_i32(p.window_pos.1 + p.mouse.1)
            &&& fits_i32(p.window_pos.0 + p.mouse.0 - st.last_mouse_pos.0)
            &&& fits_i32(p.window_pos.1 + p.mouse.1 - st.last_mouse_pos.1)
            &&& fits_i32(drag_target(st, p).0 + p.screen.0)
            &&& fits_i32(drag_target(st, p).1 + p.screen.1)
        }
        &&& resizes(st, p) ==> fits_i32(p.screen.0 + p.mouse_delta.0) && fits_i32(p.screen.1 + p.mouse_delta.1)
    } else {
        st.need_to_move ==> {
            &&& fits_i32(p.window_pos.0 + p.mouse.0)
            &&& fits_i32(p.window_pos.1 + p.mouse.1)
            &&& fits_i32(p.window_pos.0 + p.mouse.0 - st.last_mouse_pos.0)
            &&& fits_i32(p.window_pos.1 + p.mouse.1 - st.last_mouse_pos.1)
        }
    }
}

/// The commands of a frame with the button down.
pub open spec fn held_commands(st: DragState, p: PointerFrame) -> Seq<WindowCommand> {
    let outline = if moves(st, p) {
        seq![WindowCommand::DrawOutline(RectangleRedraw {
            erase: st.old_rectangle,
            draw: rect_at(drag_target(st, p), p.screen),
        })]
    } else {
        Seq::empty()
    };
    let size = resized(p);
    let resize = if resizes(st, p) {
        seq![WindowCommand::SetSize { width: size.0, height: size.1 }]
            + (if p.screen.0 > MIN_WIDTH {
                Seq::empty()
            } else {
                seq![WindowCommand::SetSize { width: (MIN_WIDTH + 50) as i32, height: p.screen.1 }]
            })
            + (if p.screen.1 > MIN_HEIGHT {
                Seq::empty()
            } else {
                seq![WindowCommand::SetSize { width: p.screen.0, height: (MIN_HEIGHT + 50) as i32 }]
            })
    } else {
        Seq::empty()
    };
    outline + resize
}

/// The state after a frame.
pub open spec fn next_drag_state(st: DragState, p: PointerFrame) -> DragState {
    if p.left_down {
        let mv = moves(st, p);
        let rs = resizes(st, p);
        DragState {
            required_to_be_in_pos: st.required_to_be_in_pos && !mv,
            required_to_be_in_pos_resize: st.required_to_be_in_pos_resize && !rs,
            need_to_move: st.need_to_move || mv,
            old_rectangle: if mv { rect_at(drag_target(st, p), p.screen) } else { st.old_rectangle },
            size_after_resize: if rs { resized(p) } else { st.size_after_resize },
            last_mouse_pos: st.last_mouse_pos,
            first_frame: false,
        }
    } else {
        DragState {
            required_to_be_in_pos: true,
            required_to_be_in_pos_resize: true,
            need_to_move: false,
            old_rectangle: st.old_rectangle,
            size_after_resize: if st.first_frame { p.screen } else { st.size_after_resize },
            last_mouse_pos: p.mouse,
            first_frame: false,
        }
    }
}

/// The commands of a frame.
pub open spec fn drag_commands(st: DragState, p: PointerFrame) -> Seq<WindowCommand> {
    if p.left_down {
        held_commands(st, p)
    } else if st.need_to_move {
        let to = drag_target(st, p);
        seq![WindowCommand::SetPosition { x: to.0, y: to.1 }, WindowCommand::Repaint(st.old_rectangle)]
    } else {
        Seq::empty()
    }
}

/// The settings after a frame: releasing the button records the window size.
pub open spec fn settings_after_frame(s: Settings, p: PointerFrame) -> Settings {
    if p.left_down { s } else { Settings { size: p.screen, ..s } }
}

/// At most one gesture is under way, and a move is pending exactly while
/// a move is under way.
pub open spec fn drag_state_consistent(st: DragState) -> bool {
    &&& st.need_to_move == !st.required_to_be_in_pos
    &&& st.required_to_be_in_pos || st.required_to_be_in_pos_resize
}

impl DragState {
    /// The state before the first frame: no gesture, no outline, F11
    /// falling back to 500 x 500.
    pub fn new() -> (st: Self)
        ensures
            st == initial_drag_state(),
    {
        DragState {
            required_to_be_in_pos: true,
            required_to_be_in_pos_resize: true,
            need_to_move: false,
            old_rectangle: Rect { left: 0, top: 0, right: 0, bottom: 0 },
            size_after_resize: (500, 500),
            last_mouse_pos: (0, 0),
            first_frame: true,
        }
    }

    /// Tells whether every sum that `drag_step` computes for this frame
    /// fits in an `i32`, so that callers can refuse the frame otherwise.
    pub fn frame_fits(&self, p: PointerFrame) -> (ok: bool)
        ensures
            ok == drag_step_fits(*self, p),
    {
        let wx: i64 = p.window_pos.0 as i64 + p.mouse.0 as i64;
        let wy: i64 = p.window_pos.1 as i64 + p.mouse.1 as i64;
        let tx: i64 = wx - self.last_mouse_pos.0 as i64;
        let ty: i64 = wy - self.last_mouse_pos.1 as i64;
        let min: i64 = i32::MIN as i64;
        let max: i64 = i32::MAX as i64;
        let drop_fits = min <= wx && wx <= max && min <= wy && wy <= max && min <= tx && tx <= max
            && min <= ty && ty <= max;
        if p.left_down {
            let low: i64 = p.screen.1 as i64 - EDGE_MARGIN as i64;
            let high: i64 = p.screen.0 as i64 - EDGE_MARGIN as i64;
            let left_corner: i64 = if p.tenth_width >= EDGE_MARGIN { p.tenth_width as i64 } else { EDGE_MARGIN as i64 };
            let top_band: i64 = if p.tenth_height >= EDGE_MARGIN { p.tenth_height as i64 } else { EDGE_MARGIN as i64 };
            let bottom_band: i64 = if p.nine_tenths_height as i64 >= low { p.nine_tenths_height as i64 } else { low };
            let right_corner: i64 = if p.nine_tenths_width as i64 >= high { p.nine_tenths_width as i64 } else { high };
            let on_top = (p.mouse.1 as i64) < top_band;
            let on_bottom = (p.mouse.1 as i64) > bottom_band;
            let corner = (p.mouse.0 as i64) < left_corner || (p.mouse.0 as i64) > right_corner;
            let mv = (on_top && !corner && self.required_to_be_in_pos_resize) || !self.required_to_be_in_pos;
            let need = self.need_to_move || mv;
            let rs = ((corner && on_bottom && !need) || !self.required_to_be_in_pos_resize)
                && !(p.mouse.0 < p.half_width);
            let rx: i64 = p.screen.0 as i64 + p.mouse_delta.0 as i64;
            let ry: i64 = p.screen.1 as i64 + p.mouse_delta.1 as i64;
            let edges_fit = min <= low && ((p.mouse.0 as i64) < left_corner || min <= high);
            let move_fits = !mv || (drop_fits && min <= tx + p.screen.0 as i64 && tx + p.screen.0 as i64 <= max
                && min <= ty + p.screen.1 as i64 && ty + p.screen.1 as i64 <= max);
            let resize_fits = !rs || (min <= rx && rx <= max && min <= ry && ry <= max);
            edges_fit && move_fits && resize_fits
        } else {
            !self.need_to_move || drop_fits
        }
    }

    /// Handles the pointer for one frame. With the left button down, a
    /// press in the top band (away from the corners) starts moving the
    /// window: an outline of it follows the pointer on the desktop. A
    /// press in a bottom corner on the right half starts resizing it by
    /// the pointer's motion, and a width or height at or below 200 is
    /// corrected to 250. When the button is released, a pending move
    /// moves the window to where the outline is and has the desktop
    /// repaint under the outline; the window size is then recorded in the
    /// settings (and on the first frame kept for F11).
    pub fn drag_step(&mut self, settings: &mut Settings, p: PointerFrame) -> (cmds: Vec<WindowCommand>)
        requires
            drag_step_fits(*old(self), p),
        ensures
            *final(self) == next_drag_state(*old(self), p),
            *final(settings) == settings_after_frame(*old(settings), p),
            cmds@ == drag_commands(*old(self), p),
    {
        let ghost st0 = *self;
        let mut cmds: Vec<WindowCommand> = Vec::new();
        if p.left_down {
            let is_allowed_width = p.screen.0 > MIN_WIDTH;
            let is_allowed_height = p.screen.1 > MIN_HEIGHT;
            let top_band = if p.tenth_height >= EDGE_MARGIN { p.tenth_height } else { EDGE_MARGIN };
            let low = p.screen.1 - EDGE_MARGIN;
            let bottom_band = if p.nine_tenths_height >= low { p.nine_tenths_height } else { low };
            let is_mouse_on_top = p.mouse.1 < top_band;
            let is_mouse_on_bottom = p.mouse.1 > bottom_band;
            let is_mouse_on_left = p.mouse.0 < p.half_width;
            let left_corner = if p.tenth_width >= EDGE_MARGIN { p.tenth_width } else { EDGE_MARGIN };
            let is_mouse_in_corner = if p.mouse.0 < left_corner {
                true
            } else {
                let high = p.screen.0 - EDGE_MARGIN;
                let right_corner = if p.nine_tenths_width >= high { p.nine_tenths_width } else { high };
                p.mouse.0 > right_corner
            };
            assert(is_mouse_in_corner == in_corner(p));
            if (is_mouse_on_top && !is_mouse_in_corner && self.required_to_be_in_pos_resize)
                || !self.required_to_be_in_pos {
                self.required_to_be_in_pos = false;
                let new_pos = (
                    p.window_pos.0 + p.mouse.0 - self.last_mouse_pos.0,
                    p.window_pos.1 + p.mouse.1 - self.last_mouse_pos.1,
                );
                let redraw = erase_and_draw_rectangle(self.old_rectangle, new_pos, p.screen);
                self.old_rectangle = redraw.draw;
                cmds.push(WindowCommand::DrawOutline(redraw));
                self.need_to_move = true;
            }
            let ghost after_move = cmds@;
            if (is_mouse_in_corner && is_mouse_on_bottom && !self.need_to_move)
                || !self.required_to_be_in_pos_resize {
                if !is_mouse_on_left {
                    self.required_to_be_in_pos_resize = false;
                    let resized_x = p.screen.0 + p.mouse_delta.0;
                    let resized_y = p.screen.1 + p.mouse_delta.1;
                    cmds.push(WindowCommand::SetSize { width: resized_x, height: resized_y });
                    self.size_after_resize = (resized_x, resized_y);
                    if !is_allowed_width {
                        cmds.push(WindowCommand::SetSize { width: MIN_WIDTH + 50, height: p.screen.1 });
                    }
                    if !is_allowed_height {
                        cmds.push(WindowCommand::SetSize { width: p.screen.0, height: MIN_HEIGHT + 50 });
                    }
                }
            }
            assert(cmds@ =~= held_commands(st0, p));
        } else {
            if self.need_to_move {
                let x = p.window_pos.0 + p.mouse.0 - self.last_mouse_pos.0;
                let y = p.window_pos.1 + p.mouse.1 - self.last_mouse_pos.1;
                cmds.push(WindowCommand::SetPosition { x, y });
                self.need_to_move = false;
                cmds.push(WindowCommand::Repaint(self.old_rectangle));
            }
            self.required_to_be_in_pos = true;
            self.required_to_be_in_pos_resize = true;
            self.last_mouse_pos = p.mouse;
            settings.size = p.screen;
            if self.first_frame {
                self.size_after_resize = p.screen;
            }
            assert(cmds@ =~= drag_commands(st0, p));
        }
        self.first_frame = false;
        cmds
    }
}

/// The window is never moved and resized at once: from a consistent
/// state (which the initial state is), a frame never starts both
/// gestures, never draws an outline and resizes in the same frame, and
/// leaves a consistent state.
pub proof fn lemma_move_and_resize_exclusive(st: DragState, p: PointerFrame)
    requires
        drag_state_consistent(st),
    ensures
        drag_state_consistent(initial_drag_state()),
        drag_state_consistent(next_drag_state(st, p)),
        p.left_down ==> !(moves(st, p) && resizes(st, p)),
{
}

/// The XOR outline is always undone: the outline that a frame erases, and
/// the area that a release has repainted, are the outline drawn last; and
/// the outline a frame draws is the one remembered for the next frame.
pub proof fn lemma_outline_erases_last_drawn(st: DragState, p: PointerFrame)
    ensures
        forall|i: int| 0 <= i < drag_commands(st, p).len() ==> {
            &&& (#[trigger] drag_commands(st, p)[i] matches WindowCommand::DrawOutline(r) ==> {
                &&& r.erase == st.old_rectangle
                &&& r.draw == next_drag_state(st, p).old_rectangle
            })
            &&& (drag_commands(st, p)[i] matches WindowCommand::Repaint(r) ==> r == st.old_rectangle)
        },
{
}

/// Two frames of a move in a row: the second erases exactly the outline
/// that the first drew, and a release after a move sends the window to
/// where the pointer is and repaints under the outline drawn last.
pub proof fn lemma_consecutive_outlines(st: DragState, p1: PointerFrame, p2: PointerFrame)
    requires
        p1.left_down,
        moves(st, p1),
    ensures
        ({
            let st1 = next_drag_state(st, p1);
            let drawn = rect_at(drag_target(st, p1), p1.screen);
            &&& p2.left_down ==> moves(st1, p2) && drag_commands(st1, p2)[0] == WindowCommand::DrawOutline(
                RectangleRedraw { erase: drawn, draw: rect_at(drag_target(st1, p2), p2.screen) },
            )
            &&& !p2.left_down ==> drag_commands(st1, p2) == seq![
                WindowCommand::SetPosition { x: drag_target(st1, p2).0, y: drag_target(st1, p2).1 },
                WindowCommand::Repaint(drawn),
            ]
        }),
{
}

/// Releasing the button ends every gesture and records the window size.
pub proof fn lemma_release_ends_gestures(st: DragState, s: Settings, p: PointerFrame)
    requires
        !p.left_down,
    ensures
        next_drag_state(st, p).required_to_be_in_pos,
        next_drag_state(st, p).required_to_be_in_pos_resize,
        !next_drag_state(st, p).need_to_move,
        settings_after_frame(s, p).size == p.screen,
{
}

/// Advances the frame counter, which runs from 1 to 10000 and then starts
/// again from 0, and tells whether the frame rate is due for a refresh
/// (every hundredth value of the counter).
pub fn advance_frame_counter(counter: i64) -> (r: (i64, bool))
    requires
        counter < i64::MAX,
    ensures
        r.0 == (if counter + 1 > FRAME_COUNTER_LIMIT { 0 } else { counter + 1 }),
        r.1 == (r.0 % FPS_REFRESH_PERIOD == 0),
{
    let mut c: i64 = counter + 1;
    if c > FRAME_COUNTER_LIMIT {
        c = 0;
    }
    (c, c % FPS_REFRESH_PERIOD == 0)
}

/// Some command of the list resizes the window.
pub open spec fn has_set_size(c: Seq<WindowCommand>) -> bool {
    exists|i: int| 0 <= i < c.len() && #[trigger] c[i] is SetSize
}

/// Some command of the list draws the drag outline.
pub open spec fn has_outline(c: Seq<WindowCommand>) -> bool {
    exists|i: int| 0 <= i < c.len() && #[trigger] c[i] is DrawOutline
}

/// Size corrections of a resize frame. Whenever a held frame resizes the
/// window, its last command is decided by the window's current size alone:
/// a height of 200 or less is corrected to 250 (keeping the width), else a
/// width of 200 or less is corrected to 250 (keeping the height), else the
/// last command is the size asked for by the pointer's motion.
pub proof fn lemma_resize_corrections(st: DragState, p: PointerFrame)
    requires
        p.left_down,
        has_set_size(drag_commands(st, p)),
    ensures
        ({
            let c = drag_commands(st, p);
            let last = c[c.len() - 1];
            let height_fix = (WindowCommand::SetSize { width: p.screen.0, height: 250 });
            let width_fix = (WindowCommand::SetSize { width: 250, height: p.screen.1 });
            let asked = (WindowCommand::SetSize {
                width: (p.screen.0 + p.mouse_delta.0) as i32,
                height: (p.screen.1 + p.mouse_delta.1) as i32,
            });
            &&& c.len() >= 1
            &&& p.screen.1 <= 200 ==> last == height_fix
            &&& (p.screen.1 > 200 && p.screen.0 <= 200) ==> last == width_fix
            &&& (p.screen.1 > 200 && p.screen.0 > 200) ==> last == asked
            &&& (p.screen.1 <= 200 && p.screen.0 <= 200) ==> c.len() >= 3 && c[c.len() - 2]
                == width_fix && c[c.len() - 3] == asked
            &&& ((p.screen.1 <= 200) != (p.screen.0 <= 200)) ==> c.len() >= 2 && c[c.len() - 2] == asked
            &&& next_drag_state(st, p).size_after_resize == (
                (p.screen.0 + p.mouse_delta.0) as i32,
                (p.screen.1 + p.mouse_delta.1) as i32,
            )
            &&& !next_drag_state(st, p).required_to_be_in_pos_resize
        }),
{
    let c = drag_commands(st, p);
    let i = choose|i: int| 0 <= i < c.len() && #[trigger] c[i] is SetSize;
    if !resizes(st, p) {
        if moves(st, p) {
            assert(c.len() == 1);
        }
        assert(false);
    }
}

/// How gestures start. With the button held and no gesture under way, the
/// window is resized exactly when the pointer is in the bottom band, in the
/// right half and near the left or right edge (so in practice the
/// bottom-right corner), and the drag outline appears exactly when the
/// pointer is in the top band away from both edges. When the pointer is
/// not near an edge, no resize starts.
pub proof fn lemma_gesture_starts(st: DragState, p: PointerFrame)
    requires
        p.left_down,
        st.required_to_be_in_pos,
        st.required_to_be_in_pos_resize,
        !st.need_to_move,
    ensures
        ({
            let c = drag_commands(st, p);
            let near_edge = p.mouse.0 < max_i32(p.tenth_width as int, 50) || p.mouse.0 > max_i32(
                p.nine_tenths_width as int,
                p.screen.0 - 50,
            );
            let bottom = p.mouse.1 > max_i32(p.nine_tenths_height as int, p.screen.1 - 50);
            let top = p.mouse.1 < max_i32(p.tenth_height as int, 50);
            let right_half = p.mouse.0 >= p.half_width;
            &&& has_set_size(c) <==> (near_edge && bottom && right_half)
            &&& has_outline(c) <==> (top && !near_edge)
            &&& !near_edge ==> !has_set_size(c) && next_drag_state(st, p).required_to_be_in_pos_resize
        }),
{
    let c = drag_commands(st, p);
    if moves(st, p) {
        assert(c[0] is DrawOutline);
        assert(!resizes(st, p));
        assert(c.len() == 1);
    }
    if resizes(st, p) {
        assert(c[0] is SetSize);
        assert forall|i: int| 0 <= i < c.len() implies !(#[trigger] c[i] is DrawOutline) by {}
    }
    if !moves(st, p) && !resizes(st, p) {
        assert(c.len() == 0);
    }
}

/// A resize under way goes on while the button is held and the pointer
/// stays in the right half: the first resize command asks for the current
/// size grown by the pointer's motion, wherever the pointer is vertically.
pub proof fn lemma_resize_continues(st: DragState, p: PointerFrame)
    requires
        p.left_down,
        !st.required_to_be_in_pos_resize,
        st.required_to_be_in_pos,
        !st.need_to_move,
        p.mouse.0 >= p.half_width,
    ensures
        drag_commands(st, p).len() >= 1,
        drag_commands(st, p)[0] == (WindowCommand::SetSize {
            width: (p.screen.0 + p.mouse_delta.0) as i32,
            height: (p.screen.1 + p.mouse_delta.1) as i32,
        }),
        !next_drag_state(st, p).required_to_be_in_pos_resize,
{
}

/// A move under way goes on while the button is held, wherever the
/// pointer is: every such frame draws the outline first, and (from a
/// consistent state) nothing else, so the window is not resized meanwhile.
pub proof fn lemma_move_continues(st: DragState, p: PointerFrame)
    requires
        p.left_down,
        !st.required_to_be_in_pos,
    ensures
        drag_commands(st, p).len() >= 1,
        drag_commands(st, p)[0] is DrawOutline,
        next_drag_state(st, p).need_to_move,
        !next_drag_state(st, p).required_to_be_in_pos,
        drag_state_consistent(st) ==> drag_commands(st, p).len() == 1,
{
}

/// A resize under way stops changing the window while the pointer is in
/// the left half: no resize command, and the resize stays under way.
pub proof fn lemma_resize_paused_in_left_half(st: DragState, p: PointerFrame)
    requires
        p.left_down,
        !st.required_to_be_in_pos_resize,
        p.mouse.0 < p.half_width,
    ensures
        !has_set_size(drag_commands(st, p)),
        !next_drag_state(st, p).required_to_be_in_pos_resize,
        next_drag_state(st, p).size_after_resize == st.size_after_resize,
{
    let c = drag_commands(st, p);
    assert(!resizes(st, p));
    if moves(st, p) {
        assert(c.len() == 1 && c[0] is DrawOutline);
    } else {
        assert(c.len() == 0);
    }
}

/// Where the outline goes. Any outline that a held frame draws is the
/// window's rectangle shifted by how far the pointer moved since the
/// button went down (window position plus pointer minus the pointer's
/// position at the press), with the window's size; it erases the outline
/// remembered in the state, and the new one is remembered for next time.
/// The window itself is not resized in that frame.
pub proof fn lemma_outline_follows_pointer(st: DragState, p: PointerFrame, i: int)
    requires
        p.left_down,
        0 <= i < drag_commands(st, p).len(),
        drag_commands(st, p)[i] is DrawOutline,
        drag_step_fits(st, p),
        drag_state_consistent(st),
    ensures
        ({
            let left = p.window_pos.0 + p.mouse.0 - st.last_mouse_pos.0;
            let top = p.window_pos.1 + p.mouse.1 - st.last_mouse_pos.1;
            let drawn = Rect {
                left: left as i32,
                top: top as i32,
                right: (left + p.screen.0) as i32,
                bottom: (top + p.screen.1) as i32,
            };
            &&& drag_commands(st, p)[i] == WindowCommand::DrawOutline(
                RectangleRedraw { erase: st.old_rectangle, draw: drawn },
            )
            &&& next_drag_state(st, p).old_rectangle == drawn
            &&& next_drag_state(st, p).need_to_move
            &&& drag_commands(st, p).len() == 1
        }),
{
    let c = drag_commands(st, p);
    if !moves(st, p) {
        if resizes(st, p) {
            assert(c[i] is SetSize);
        }
        assert(false);
    }
}

/// What a release does. Releasing the button after a move sends the
/// window to the pointer's offset from where it was pressed and has the
/// desktop repaint under the last outline; releasing without a move does
/// nothing to the window. Either way the pointer position is remembered
/// as the new press origin and the window size is recorded in the
/// settings (and, on the very first frame, kept for F11).
pub proof fn lemma_release(st: DragState, s: Settings, p: PointerFrame)
    requires
        !p.left_down,
    ensures
        ({
            let c = drag_commands(st, p);
            let n = next_drag_state(st, p);
            let x = p.window_pos.0 + p.mouse.0 - st.last_mouse_pos.0;
            let y = p.window_pos.1 + p.mouse.1 - st.last_mouse_pos.1;
            &&& st.need_to_move ==> c == seq![
                WindowCommand::SetPosition { x: x as i32, y: y as i32 },
                WindowCommand::Repaint(st.old_rectangle),
            ]
            &&& !st.need_to_move ==> c.len() == 0
            &&& n.last_mouse_pos == p.mouse
            &&& n.old_rectangle == st.old_rectangle
            &&& settings_after_frame(s, p).size == p.screen
            &&& settings_after_frame(s, p).opacity == s.opacity
            &&& n.size_after_resize == (if st.first_frame { p.screen } else { st.size_after_resize })
            &&& !n.first_frame
        }),
{
}

/// The frame counter never leaves 0..=10000.
pub proof fn lemma_frame_counter_bounded(counter: i64)
    requires
        0 <= counter <= FRAME_COUNTER_LIMIT,
    ensures
        ({
            let next = if counter + 1 > FRAME_COUNTER_LIMIT { 0 } else { counter + 1 };
            0 <= next <= FRAME_COUNTER_LIMIT
        }),
{
}

} // verus!
