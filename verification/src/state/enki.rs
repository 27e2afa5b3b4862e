use vstd::prelude::*;

use crate::layout::Grid;
use crate::math::{div_toward_zero, divisible_i32, fits_i32, ivec, IVec2};
use crate::state::camera::{can_grow, can_grow_exec, can_shrink, can_shrink_exec, grown, panned, shrunk, Camera};

verus! {

/// The keys that the window manager tells apart; every other key is `Other`.
#[derive(Clone, Copy, Debug, PartialEq, Eq, Structural)]
pub enum Key {
    LowerH,
    UpperH,
    LowerJ,
    UpperJ,
    LowerK,
    UpperK,
    LowerL,
    UpperL,
    LowerU,
    UpperU,
    LowerI,
    UpperI,
    LowerO,
    UpperO,
    LowerP,
    UpperP,
    LowerW,
    Return,
    AltR,
    F12,
    Other,
}

/// A program that a key launches.
#[derive(Clone, Copy, Debug, PartialEq, Eq, Structural)]
pub enum Program {
    Alacritty,
    WestonTerminal,
    Kitty,
    Firefox,
}

impl Program {
    /// The command that starts the program.
    pub fn command(&self) -> (r: &'static str)
        ensures
            r@ == program_command(*self),
    {
        match self {
            Program::Alacritty => "alacritty",
            Program::WestonTerminal => "weston-terminal",
            Program::Kitty => "kitty",
            Program::Firefox => "firefox",
        }
    }
}

/// The command that starts a program.
pub open spec fn program_command(p: Program) -> Seq<char> {
    match p {
        Program::Alacritty => "alacritty"@,
        Program::WestonTerminal => "weston-terminal"@,
        Program::Kitty => "kitty"@,
        Program::Firefox => "firefox"@,
    }
}

/// What the compositor does after a key: whether the key is kept from the
/// focused client, and the work it asks for.
#[derive(Clone, Copy, Debug, PartialEq, Eq, Structural)]
pub struct KeyResponse {
    /// The key is consumed by the window manager instead of being forwarded.
    pub intercepted: bool,
    /// The windows and the output are laid out again.
    pub refresh_viewport: bool,
    /// The output scale changes with that layout (the mode was toggled).
    pub scale_changed: bool,
    /// The keyboard focus moves to the window under the cell cursor.
    pub refocus: bool,
    /// A program to start.
    pub launch: Option<Program>,
}

/// The key goes on to the focused client.
pub open spec fn forwarded() -> KeyResponse {
    KeyResponse { intercepted: false, refresh_viewport: false, scale_changed: false, refocus: false, launch: None }
}

/// The key is consumed, with the given work.
pub open spec fn intercepted(refresh_viewport: bool, scale_changed: bool, refocus: bool, launch: Option<Program>) -> KeyResponse {
    KeyResponse { intercepted: true, refresh_viewport, scale_changed, refocus, launch }
}

/// The direction in which a camera key moves the camera (y grows downwards):
/// `l` right, `h` left, `j` down, `k` up.
pub open spec fn camera_dir(key: Key) -> Option<IVec2> {
    match key {
        Key::LowerL | Key::UpperL => Some(ivec(1, 0)),
        Key::LowerH | Key::UpperH => Some(ivec(-1, 0)),
        Key::LowerJ | Key::UpperJ => Some(ivec(0, 1)),
        Key::LowerK | Key::UpperK => Some(ivec(0, -1)),
        _ => None,
    }
}

/// The camera after a camera key: shift grows it, alt shrinks it, and the
/// key alone moves it.
pub open spec fn camera_after(c: Camera, d: IVec2, shift: bool, alt: bool) -> Camera {
    if shift {
        grown(c, d)
    } else if alt {
        shrunk(c, d)
    } else {
        panned(c, d)
    }
}

/// Whether a camera key leaves the camera within `i32`.
pub open spec fn camera_room(c: Camera, d: IVec2, shift: bool, alt: bool) -> bool {
    if shift {
        can_grow(c.span.x as int, c.origin.x as int, d.x as int) && can_grow(c.span.y as int, c.origin.y as int, d.y as int)
    } else if alt {
        can_shrink(c.span.x as int, c.origin.x as int, d.x as int) && can_shrink(c.span.y as int, c.origin.y as int, d.y as int)
    } else {
        fits_i32(c.origin.x + d.x) && fits_i32(c.origin.y + d.y)
    }
}

/// Whether a camera key leaves the camera within `i32`, computed.
pub(crate) fn camera_room_exec(c: &Camera, d: IVec2, shift: bool, alt: bool) -> (r: bool)
    ensures
        r == camera_room(*c, d, shift, alt),
{
    if shift {
        can_grow_exec(c.span.x, c.origin.x, d.x) && can_grow_exec(c.span.y, c.origin.y, d.y)
    } else if alt {
        can_shrink_exec(c.span.x, c.origin.x, d.x) && can_shrink_exec(c.span.y, c.origin.y, d.y)
    } else {
        let x: i64 = (c.origin.x as i64) + (d.x as i64);
        let y: i64 = (c.origin.y as i64) + (d.y as i64);
        -0x8000_0000 <= x && x <= 0x7fff_ffff && -0x8000_0000 <= y && y <= 0x7fff_ffff
    }
}

/// Whether the product of two `i32`s fits in an `i32`.
fn fits_product(a: i32, b: i32) -> (r: bool)
    ensures
        r == fits_i32(a * b),
{
    let a64: i64 = a as i64;
    let b64: i64 = b as i64;
    assert(-0x4000_0000_0000_0000 <= a64 * b64 <= 0x4000_0000_0000_0000) by (nonlinear_arith)
        requires
            -0x8000_0000 <= a64 <= 0x7fff_ffff,
            -0x8000_0000 <= b64 <= 0x7fff_ffff,
    ;
    let p: i64 = a64 * b64;
    -0x8000_0000 <= p && p <= 0x7fff_ffff
}

/// The unflipped axis of a camera key, as the bindings name it.
pub(crate) fn camera_axis(key: Key) -> (r: Option<IVec2>)
    ensures
        match camera_dir(key) {
            Some(d) => r == Some(ivec(d.x as int, -d.y)),
            None => r is None,
        },
{
    match key {
        Key::LowerL | Key::UpperL => Some(IVec2::unit_x()),
        Key::LowerH | Key::UpperH => Some(IVec2::neg_x()),
        Key::LowerJ | Key::UpperJ => Some(IVec2::neg_y()),
        Key::LowerK | Key::UpperK => Some(IVec2::unit_y()),
        _ => None,
    }
}

/// Mirrors a unit axis onto the screen's downward y.
pub(crate) fn flip_axis(axis: IVec2) -> (d: IVec2)
    requires
        -1 <= axis.x <= 1,
        -1 <= axis.y <= 1,
    ensures
        d == ivec(axis.x as int, -axis.y),
{
    let flip = IVec2::flip_y();
    assert(flip.x == 1 && flip.y == -1);
    assert(axis.x * flip.x == axis.x);
    assert(axis.y * flip.y == -axis.y);
    axis * flip
}

/// Applies a camera key to a camera.
pub(crate) fn move_camera(camera: &mut Camera, d: IVec2, shift: bool, alt: bool)
    requires
        camera_room(*old(camera), d, shift, alt),
    ensures
        *final(camera) == camera_after(*old(camera), d, shift, alt),
{
    if shift {
        camera.grow(d);
    } else if alt {
        camera.shrink(d);
    } else {
        camera.pan(d);
    }
}

/// The key bindings of the plain layout: `F12` toggles the mode; in the
/// mode, the camera keys move the camera, `Return` starts alacritty and `w`
/// starts weston-terminal, and every other key is consumed.
pub open spec fn layout_key_outcome(modal: bool, c: Camera, key: Key, pressed: bool, shift: bool, alt: bool) -> (bool, Camera, KeyResponse) {
    if !pressed {
        (modal, c, forwarded())
    } else if key == Key::F12 {
        (!modal, c, intercepted(true, true, false, None))
    } else if !modal {
        (modal, c, forwarded())
    } else {
        match camera_dir(key) {
            Some(d) => (modal, camera_after(c, d, shift, alt), intercepted(true, false, false, None)),
            None => {
                let launch = match key {
                    Key::Return => Some(Program::Alacritty),
                    Key::LowerW => Some(Program::WestonTerminal),
                    _ => None,
                };
                (modal, c, intercepted(false, false, false, launch))
            },
        }
    }
}

/// Whether the plain layout's bindings keep the camera within `i32` on this key.
pub open spec fn layout_key_fits(modal: bool, c: Camera, key: Key, pressed: bool, shift: bool, alt: bool) -> bool {
    pressed && key != Key::F12 && modal && camera_dir(key) is Some ==> camera_room(c, camera_dir(key)->0, shift, alt)
}

/// The size of one grid cell on an output of `monitor` pixels showing
/// `span` cells.
pub open spec fn cell_size_of(monitor: IVec2, span: IVec2) -> IVec2 {
    ivec(div_toward_zero(monitor.x as int, span.x as int), div_toward_zero(monitor.y as int, span.y as int))
}

/// Where the window in `cell` goes, in pixels.
pub open spec fn cell_location(cell: IVec2, cell_size: IVec2) -> IVec2 {
    ivec(cell.x * cell_size.x, cell.y * cell_size.y)
}

/// Where the output sits in the layout: the camera's first cell, less half
/// of what the logical size exceeds the monitor by.
pub open spec fn output_location_of(origin: IVec2, cell_size: IVec2, monitor: IVec2, logical: IVec2) -> IVec2 {
    ivec(
        origin.x * cell_size.x - div_toward_zero(logical.x - monitor.x, 2),
        origin.y * cell_size.y - div_toward_zero(logical.y - monitor.y, 2),
    )
}

/// The cells of a list of placements.
pub open spec fn placed_cells(placements: Seq<(IVec2, IVec2)>) -> Seq<IVec2> {
    placements.map_values(|w: (IVec2, IVec2)| w.0)
}

/// Where the windows and the output go for the current camera.
pub struct ViewportPlan {
    /// The size of one cell, which is also the size of every window.
    pub cell_size: IVec2,
    /// Each occupied cell, once, with the location of its window.
    pub windows: Vec<(IVec2, IVec2)>,
    /// The location of the output in the layout.
    pub output_location: IVec2,
}

/// Pressing the mode key twice gives back the mode.
pub proof fn lemma_layout_toggle_twice(modal: bool, c: Camera, shift: bool, alt: bool)
    ensures
        layout_key_outcome(layout_key_outcome(modal, c, Key::F12, true, shift, alt).0, c, Key::F12, true, shift, alt).0
            == modal,
{
}

/// Windows of different cells do not overlap: with a positive cell size,
/// the cells' rectangles are apart on at least one axis.
pub proof fn lemma_windows_do_not_overlap(a: IVec2, b: IVec2, cs: IVec2)
    requires
        a != b,
        cs.x > 0,
        cs.y > 0,
        fits_i32(a.x * cs.x),
        fits_i32(a.y * cs.y),
        fits_i32(b.x * cs.x),
        fits_i32(b.y * cs.y),
    ensures
        ({
            let la = cell_location(a, cs);
            let lb = cell_location(b, cs);
            la.x + cs.x <= lb.x || lb.x + cs.x <= la.x || la.y + cs.y <= lb.y || lb.y + cs.y <= la.y
        }),
{
    if a.x < b.x {
        assert(a.x * cs.x + cs.x <= b.x * cs.x) by (nonlinear_arith)
            requires
                a.x < b.x,
                cs.x > 0,
        ;
    } else if b.x < a.x {
        assert(b.x * cs.x + cs.x <= a.x * cs.x) by (nonlinear_arith)
            requires
                b.x < a.x,
                cs.x > 0,
        ;
    } else if a.y < b.y {
        assert(a.y * cs.y + cs.y <= b.y * cs.y) by (nonlinear_arith)
            requires
                a.y < b.y,
                cs.y > 0,
        ;
    } else {
        assert(b.y * cs.y + cs.y <= a.y * cs.y) by (nonlinear_arith)
            requires
                b.y < a.y,
                cs.y > 0,
        ;
    }
}

/// The plain layout's bindings: a released key is always forwarded and
/// changes nothing; a pressed key other than the mode key keeps the mode and
/// is consumed exactly in the mode; in the mode a pressed `Return` starts
/// alacritty and a pressed `w` starts weston-terminal.
pub proof fn lemma_layout_key_laws(modal: bool, c: Camera, key: Key, pressed: bool, shift: bool, alt: bool)
    ensures
        !pressed ==> layout_key_outcome(modal, c, key, pressed, shift, alt) == (modal, c, forwarded()),
        pressed && key != Key::F12 ==> layout_key_outcome(modal, c, key, pressed, shift, alt).0 == modal
            && (layout_key_outcome(modal, c, key, pressed, shift, alt).2.intercepted <==> modal),
        pressed && modal && key == Key::Return ==> layout_key_outcome(modal, c, key, pressed, shift, alt).2.launch
            == Some(Program::Alacritty) && program_command(Program::Alacritty) == "alacritty"@,
        pressed && modal && key == Key::LowerW ==> layout_key_outcome(modal, c, key, pressed, shift, alt).2.launch
            == Some(Program::WestonTerminal) && program_command(Program::WestonTerminal) == "weston-terminal"@,
{
}

/// A camera key means the same whatever its case.
pub proof fn lemma_layout_keys_ignore_case(modal: bool, c: Camera, pressed: bool, shift: bool, alt: bool)
    ensures
        layout_key_outcome(modal, c, Key::UpperH, pressed, shift, alt) == layout_key_outcome(modal, c, Key::LowerH, pressed, shift, alt),
        layout_key_outcome(modal, c, Key::UpperJ, pressed, shift, alt) == layout_key_outcome(modal, c, Key::LowerJ, pressed, shift, alt),
        layout_key_outcome(modal, c, Key::UpperK, pressed, shift, alt) == layout_key_outcome(modal, c, Key::LowerK, pressed, shift, alt),
        layout_key_outcome(modal, c, Key::UpperL, pressed, shift, alt) == layout_key_outcome(modal, c, Key::LowerL, pressed, shift, alt),
        layout_key_outcome(modal, c, Key::UpperU, pressed, shift, alt) == layout_key_outcome(modal, c, Key::LowerU, pressed, shift, alt),
        layout_key_outcome(modal, c, Key::UpperI, pressed, shift, alt) == layout_key_outcome(modal, c, Key::LowerI, pressed, shift, alt),
        layout_key_outcome(modal, c, Key::UpperO, pressed, shift, alt) == layout_key_outcome(modal, c, Key::LowerO, pressed, shift, alt),
        layout_key_outcome(modal, c, Key::UpperP, pressed, shift, alt) == layout_key_outcome(modal, c, Key::LowerP, pressed, shift, alt),
{
}

/// In the mode, `l`, `h`, `j` and `k` move the camera one cell right, left,
/// down and up (y grows downwards); with shift they grow it by one cell on
/// that side, and with alt they shrink it by one cell from that side.
pub proof fn lemma_layout_camera_keys(c: Camera, alt: bool)
    ensures
        fits_i32(c.origin.x + 1) && fits_i32(c.origin.y + 0) ==> layout_key_outcome(true, c, Key::LowerL, true, false, false).1 == (Camera { origin: ivec(c.origin.x + 1, c.origin.y + 0), span: c.span }),
        fits_i32(c.origin.x + -1) && fits_i32(c.origin.y + 0) ==> layout_key_outcome(true, c, Key::LowerH, true, false, false).1 == (Camera { origin: ivec(c.origin.x + -1, c.origin.y + 0), span: c.span }),
        fits_i32(c.origin.x + 0) && fits_i32(c.origin.y + 1) ==> layout_key_outcome(true, c, Key::LowerJ, true, false, false).1 == (Camera { origin: ivec(c.origin.x + 0, c.origin.y + 1), span: c.span }),
        fits_i32(c.origin.x + 0) && fits_i32(c.origin.y + -1) ==> layout_key_outcome(true, c, Key::LowerK, true, false, false).1 == (Camera { origin: ivec(c.origin.x + 0, c.origin.y + -1), span: c.span }),
        fits_i32(c.origin.x as int) && fits_i32(c.origin.y as int) && fits_i32(c.span.x + 1) && fits_i32(c.span.y as int) ==> layout_key_outcome(true, c, Key::LowerL, true, true, alt).1 == (Camera { origin: ivec(c.origin.x as int, c.origin.y as int), span: ivec(c.span.x + 1, c.span.y as int) }),
        fits_i32(c.origin.x - 1) && fits_i32(c.origin.y as int) && fits_i32(c.span.x + 1) && fits_i32(c.span.y as int) ==> layout_key_outcome(true, c, Key::LowerH, true, true, alt).1 == (Camera { origin: ivec(c.origin.x - 1, c.origin.y as int), span: ivec(c.span.x + 1, c.span.y as int) }),
        fits_i32(c.origin.x as int) && fits_i32(c.origin.y as int) && fits_i32(c.span.x as int) && fits_i32(c.span.y + 1) ==> layout_key_outcome(true, c, Key::LowerJ, true, true, alt).1 == (Camera { origin: ivec(c.origin.x as int, c.origin.y as int), span: ivec(c.span.x as int, c.span.y + 1) }),
        fits_i32(c.origin.x as int) && fits_i32(c.origin.y - 1) && fits_i32(c.span.x as int) && fits_i32(c.span.y + 1) ==> layout_key_outcome(true, c, Key::LowerK, true, true, alt).1 == (Camera { origin: ivec(c.origin.x as int, c.origin.y - 1), span: ivec(c.span.x as int, c.span.y + 1) }),
        c.span.x >= 1 && c.span.y >= 1 && c.span.x >= 2 && fits_i32(c.origin.x as int) && fits_i32(c.origin.y as int) ==> layout_key_outcome(true, c, Key::LowerL, true, false, true).1 == (Camera { origin: ivec(c.origin.x as int, c.origin.y as int), span: ivec(c.span.x - 1, c.span.y as int) }),
        c.span.x >= 1 && c.span.y >= 1 && c.span.x >= 2 && fits_i32(c.origin.x + 1) && fits_i32(c.origin.y as int) ==> layout_key_outcome(true, c, Key::LowerH, true, false, true).1 == (Camera { origin: ivec(c.origin.x + 1, c.origin.y as int), span: ivec(c.span.x - 1, c.span.y as int) }),
        c.span.x >= 1 && c.span.y >= 1 && c.span.y >= 2 && fits_i32(c.origin.x as int) && fits_i32(c.origin.y as int) ==> layout_key_outcome(true, c, Key::LowerJ, true, false, true).1 == (Camera { origin: ivec(c.origin.x as int, c.origin.y as int), span: ivec(c.span.x as int, c.span.y - 1) }),
        c.span.x >= 1 && c.span.y >= 1 && c.span.y >= 2 && fits_i32(c.origin.x as int) && fits_i32(c.origin.y + 1) ==> layout_key_outcome(true, c, Key::LowerK, true, false, true).1 == (Camera { origin: ivec(c.origin.x as int, c.origin.y + 1), span: ivec(c.span.x as int, c.span.y - 1) }),
{
}

/// Two layouts of the same state for the same sizes agree: the same cell
/// size, the same output location, and the same windows at the same
/// places (in whatever order).
pub proof fn lemma_viewport_plan_unique<W>(e: Enki<W>, monitor: IVec2, logical: IVec2, p: ViewportPlan, q: ViewportPlan)
    requires
        e.is_viewport_plan(monitor, logical, p),
        e.is_viewport_plan(monitor, logical, q),
    ensures
        p.cell_size == q.cell_size,
        p.output_location == q.output_location,
        p.windows@.to_set() == q.windows@.to_set(),
{
    assert forall|w: (IVec2, IVec2)| p.windows@.to_set().contains(w) implies q.windows@.to_set().contains(w) by {
        let i = choose|i: int| 0 <= i < p.windows@.len() && p.windows@[i] == w;
        assert(placed_cells(p.windows@)[i] == w.0);
        assert(placed_cells(p.windows@).to_set().contains(w.0));
        assert(placed_cells(q.windows@).to_set().contains(w.0));
        let j = choose|j: int| 0 <= j < placed_cells(q.windows@).len() && placed_cells(q.windows@)[j] == w.0;
        assert(q.windows@[j].0 == w.0);
        assert(q.windows@[j] == w);
    }
    assert forall|w: (IVec2, IVec2)| q.windows@.to_set().contains(w) implies p.windows@.to_set().contains(w) by {
        let i = choose|i: int| 0 <= i < q.windows@.len() && q.windows@[i] == w;
        assert(placed_cells(q.windows@)[i] == w.0);
        assert(placed_cells(q.windows@).to_set().contains(w.0));
        assert(placed_cells(p.windows@).to_set().contains(w.0));
        let j = choose|j: int| 0 <= j < placed_cells(p.windows@).len() && placed_cells(p.windows@)[j] == w.0;
        assert(p.windows@[j].0 == w.0);
        assert(p.windows@[j] == w);
    }
    assert(p.windows@.to_set() =~= q.windows@.to_set());
}

/// The tiling state of the window manager: the window grid, the mode, the
/// camera over the grid and the cell cursor.
pub struct Enki<W> {
    pub grid: Grid<W>,
    pub modal_mode: bool,
    pub camera: Camera,
    pub cell_cursor: IVec2,
}

impl<W> Enki<W> {
    /// An empty grid seen through a one-cell camera at the origin, not in
    /// the mode, with the cursor at the origin.
    pub fn new() -> (e: Enki<W>)
        ensures
            e.grid@ == Map::<IVec2, W>::empty(),
            !e.modal_mode,
            e.camera == Camera::new_spec(),
            e.cell_cursor == ivec(0, 0),
    {
        Enki { grid: Grid::new(), modal_mode: false, camera: Camera::new(), cell_cursor: IVec2::zero() }
    }

    /// Whether laying out for a monitor of `monitor` pixels with a logical size
    /// of `logical` stays within `i32`.
    pub open spec fn viewport_fits(&self, monitor: IVec2, logical: IVec2) -> bool {
        let cs = cell_size_of(monitor, self.camera.span);
        &&& divisible_i32(monitor.x as int, self.camera.span.x as int)
        &&& divisible_i32(monitor.y as int, self.camera.span.y as int)
        &&& forall|c: IVec2| #[trigger] self.grid@.contains_key(c) ==> fits_i32(c.x * cs.x) && fits_i32(c.y * cs.y)
        &&& fits_i32(logical.x - monitor.x)
        &&& fits_i32(logical.y - monitor.y)
        &&& fits_i32(self.camera.origin.x * cs.x)
        &&& fits_i32(self.camera.origin.y * cs.y)
        &&& fits_i32(self.camera.origin.x * cs.x - div_toward_zero(logical.x - monitor.x, 2))
        &&& fits_i32(self.camera.origin.y * cs.y - div_toward_zero(logical.y - monitor.y, 2))
    }

    /// What laying the grid out yields: the cell size, every occupied cell
    /// once with its window's location, and the output's location.
    pub open spec fn is_viewport_plan(&self, monitor: IVec2, logical: IVec2, plan: ViewportPlan) -> bool {
        &&& plan.cell_size == cell_size_of(monitor, self.camera.span)
        &&& placed_cells(plan.windows@).to_set() == self.grid@.dom()
        &&& placed_cells(plan.windows@).no_duplicates()
        &&& forall|i: int| 0 <= i < plan.windows@.len() ==> (#[trigger] plan.windows@[i]).1 == cell_location(
            plan.windows@[i].0,
            plan.cell_size,
        )
        &&& plan.output_location == output_location_of(self.camera.origin, plan.cell_size, monitor, logical)
    }

    /// Whether laying out for these sizes stays within `i32` (see
    /// `viewport_fits`).
    pub fn can_update_viewport(&self, monitor_size: IVec2, logical_size: IVec2) -> (r: bool)
        ensures
            r == self.viewport_fits(monitor_size, logical_size),
    {
        let span = self.camera.span;
        if span.x == 0 || span.y == 0 || (monitor_size.x == i32::MIN && span.x == -1) || (monitor_size.y == i32::MIN
            && span.y == -1) {
            return false;
        }
        let cs = monitor_size / span;
        let cells = self.grid.positions();
        let mut i: usize = 0;
        while i < cells.len()
            invariant
                0 <= i <= cells@.len(),
                cs == cell_size_of(monitor_size, self.camera.span),
                cells@.to_set() == self.grid@.dom(),
                forall|j: int| 0 <= j < i ==> fits_i32(#[trigger] cells@[j].x * cs.x) && fits_i32(cells@[j].y * cs.y),
            decreases cells@.len() - i,
        {
            let c = cells[i];
            if !fits_product(c.x, cs.x) || !fits_product(c.y, cs.y) {
                proof {
                    assert(cells@.to_set().contains(c));
                }
                return false;
            }
            i = i + 1;
        }
        proof {
            assert forall|c: IVec2| #[trigger] self.grid@.contains_key(c) implies fits_i32(c.x * cs.x) && fits_i32(c.y * cs.y) by {
                assert(cells@.to_set().contains(c));
                let j = choose|j: int| 0 <= j < cells@.len() && cells@[j] == c;
            }
        }
        let dx: i64 = (logical_size.x as i64) - (monitor_size.x as i64);
        let dy: i64 = (logical_size.y as i64) - (monitor_size.y as i64);
        if !(-0x8000_0000 <= dx && dx <= 0x7fff_ffff && -0x8000_0000 <= dy && dy <= 0x7fff_ffff) {
            return false;
        }
        if !fits_product(self.camera.origin.x, cs.x) || !fits_product(self.camera.origin.y, cs.y) {
            return false;
        }
        let half = (logical_size - monitor_size) / 2;
        let base = self.camera.origin * cs;
        let bx: i64 = (base.x as i64) - (half.x as i64);
        let by: i64 = (base.y as i64) - (half.y as i64);
        -0x8000_0000 <= bx && bx <= 0x7fff_ffff && -0x8000_0000 <= by && by <= 0x7fff_ffff
    }

    /// Lays the grid out on an output of `monitor_size` pixels whose
    /// logical size (after its scale) is `logical_size`: each cell is the
    /// monitor divided by the camera's span, each window goes to its cell
    /// times the cell size, and the output is placed on the camera's first
    /// cell, centred on the monitor.
    pub fn update_viewport(&self, monitor_size: IVec2, logical_size: IVec2) -> (plan: ViewportPlan)
        requires
            self.viewport_fits(monitor_size, logical_size),
        ensures
            self.is_viewport_plan(monitor_size, logical_size, plan),
    {
        let cell_size = monitor_size / self.camera.span;
        let cells = self.grid.positions();
        let mut windows: Vec<(IVec2, IVec2)> = Vec::new();
        for i in 0..cells.len()
            invariant
                cell_size == cell_size_of(monitor_size, self.camera.span),
                self.viewport_fits(monitor_size, logical_size),
                cells@.to_set() == self.grid@.dom(),
                placed_cells(windows@) == cells@.take(i as int),
                forall|j: int| 0 <= j < windows@.len() ==> (#[trigger] windows@[j]).1 == cell_location(
                    windows@[j].0,
                    cell_size,
                ),
        {
            let grid_idx = cells[i];
            assert(cells@.to_set().contains(grid_idx));
            let pixel_loc = grid_idx * cell_size;
            let ghost before = windows@;
            windows.push((grid_idx, pixel_loc));
            proof {
                assert(placed_cells(before).len() == i);
                assert forall|j: int| 0 <= j < i + 1 implies #[trigger] placed_cells(windows@)[j]
                    == cells@.take(i + 1)[j] by {
                    if j < i {
                        assert(windows@[j] == before[j]);
                        assert(placed_cells(before)[j] == cells@.take(i as int)[j]);
                    }
                }
                assert(placed_cells(windows@) =~= cells@.take(i + 1));
            }
        }
        proof {
            assert(cells@.take(cells@.len() as int) =~= cells@);
        }
        let offset = (logical_size - monitor_size) / 2;
        let base_loc = self.camera.origin * cell_size;
        ViewportPlan { cell_size, windows, output_location: base_loc - offset }
    }

    /// Whether handling this key with the plain layout's bindings stays
    /// within `i32` (see `layout_key_fits`).
    pub fn key_fits(&self, key: Key, pressed: bool, shift: bool, alt: bool) -> (r: bool)
        ensures
            r == layout_key_fits(self.modal_mode, self.camera, key, pressed, shift, alt),
    {
        if !pressed || key == Key::F12 || !self.modal_mode {
            return true;
        }
        match camera_axis(key) {
            Some(axis) => camera_room_exec(&self.camera, flip_axis(axis), shift, alt),
            None => true,
        }
    }

    /// Handles a key with the plain layout's bindings (see
    /// `layout_key_outcome`) and says what the compositor does next.
    pub fn process_input_event(&mut self, key: Key, pressed: bool, shift: bool, alt: bool) -> (r: KeyResponse)
        requires
            layout_key_fits(old(self).modal_mode, old(self).camera, key, pressed, shift, alt),
        ensures
            final(self).grid@ == old(self).grid@,
            final(self).cell_cursor == old(self).cell_cursor,
            (final(self).modal_mode, final(self).camera, r) == layout_key_outcome(
                old(self).modal_mode,
                old(self).camera,
                key,
                pressed,
                shift,
                alt,
            ),
    {
        if pressed {
            if key == Key::F12 {
                self.modal_mode = !self.modal_mode;
                return KeyResponse { intercepted: true, refresh_viewport: true, scale_changed: true, refocus: false, launch: None };
            }
            if self.modal_mode {
                let dir_flipped = camera_axis(key);
                if let Some(dir_flipped) = dir_flipped {
                    let dir = flip_axis(dir_flipped);
                    move_camera(&mut self.camera, dir, shift, alt);
                    return KeyResponse { intercepted: true, refresh_viewport: true, scale_changed: false, refocus: false, launch: None };
                }
                let program = match key {
                    Key::Return => Some(Program::Alacritty),
                    Key::LowerW => Some(Program::WestonTerminal),
                    _ => None,
                };
                return KeyResponse { intercepted: true, refresh_viewport: false, scale_changed: false, refocus: false, launch: program };
            }
        }
        KeyResponse { intercepted: false, refresh_viewport: false, scale_changed: false, refocus: false, launch: None }
    }
}

} // verus!
