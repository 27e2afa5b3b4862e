pub mod backend;
pub mod camera;
pub mod enki;

use vstd::prelude::*;

use crate::layout::{lemma_swap_symmetric, lemma_swap_twice, swapped};
use crate::math::{fits_i32, ivec, IVec2};
use crate::state::camera::Camera;
use crate::state::enki::{
    camera_after, camera_dir, camera_room, forwarded, intercepted, camera_axis, camera_room_exec, flip_axis, move_camera, Enki, Key,
    KeyResponse, Program, ViewportPlan,
};

verus! {

/// The direction in which a focus key moves the cell cursor (y grows
/// downwards): `u` left, `i` down, `o` up, `p` right.
pub open spec fn focus_dir(key: Key) -> Option<IVec2> {
    match key {
        Key::LowerU | Key::UpperU => Some(ivec(-1, 0)),
        Key::LowerI | Key::UpperI => Some(ivec(0, 1)),
        Key::LowerO | Key::UpperO => Some(ivec(0, -1)),
        Key::LowerP | Key::UpperP => Some(ivec(1, 0)),
        _ => None,
    }
}

/// The effect of a key on the layout, with the compositor's bindings.
pub struct KeyOutcome {
    pub modal_mode: bool,
    pub camera: Camera,
    pub cell_cursor: IVec2,
    /// The two cells whose windows trade places, if any.
    pub swap: Option<(IVec2, IVec2)>,
    pub response: KeyResponse,
}

/// The compositor's key bindings: right `Alt` toggles the mode; in the mode,
/// the camera keys move the camera, the focus keys move the cell cursor (with
/// shift, carrying the window along), `Return` starts kitty (with shift,
/// weston-terminal), `w` starts firefox, and every other key is consumed.
pub open spec fn key_outcome(
    modal: bool,
    c: Camera,
    cursor: IVec2,
    key: Key,
    pressed: bool,
    shift: bool,
    alt: bool,
) -> KeyOutcome {
    let unchanged = KeyOutcome { modal_mode: modal, camera: c, cell_cursor: cursor, swap: None, response: forwarded() };
    if !pressed {
        unchanged
    } else if key == Key::AltR {
        KeyOutcome { modal_mode: !modal, response: intercepted(true, true, false, None), ..unchanged }
    } else if !modal {
        unchanged
    } else if camera_dir(key) is Some {
        KeyOutcome {
            camera: camera_after(c, camera_dir(key)->0, shift, alt),
            response: intercepted(true, false, false, None),
            ..unchanged
        }
    } else if focus_dir(key) is Some {
        let target = ivec(cursor.x + focus_dir(key)->0.x, cursor.y + focus_dir(key)->0.y);
        if shift {
            KeyOutcome {
                cell_cursor: target,
                swap: Some((cursor, target)),
                response: intercepted(true, false, true, None),
                ..unchanged
            }
        } else {
            KeyOutcome { cell_cursor: target, response: intercepted(false, false, true, None), ..unchanged }
        }
    } else {
        let launch = match key {
            Key::Return => if shift { Some(Program::WestonTerminal) } else { Some(Program::Kitty) },
            Key::LowerW => Some(Program::Firefox),
            _ => None,
        };
        KeyOutcome { response: intercepted(false, false, false, launch), ..unchanged }
    }
}

/// Whether the compositor's bindings keep the camera and the cursor within
/// `i32` on this key.
pub open spec fn key_fits(modal: bool, c: Camera, cursor: IVec2, key: Key, pressed: bool, shift: bool, alt: bool) -> bool {
    pressed && key != Key::AltR && modal ==> {
        &&& camera_dir(key) is Some ==> camera_room(c, camera_dir(key)->0, shift, alt)
        &&& camera_dir(key) is None && focus_dir(key) is Some ==> fits_i32(cursor.x + focus_dir(key)->0.x)
            && fits_i32(cursor.y + focus_dir(key)->0.y)
    }
}

/// The unflipped axis of a focus key, as the bindings name it.
fn focus_axis(key: Key) -> (r: Option<IVec2>)
    ensures
        match focus_dir(key) {
            Some(d) => r == Some(ivec(d.x as int, -d.y)),
            None => r is None,
        },
{
    match key {
        Key::LowerU | Key::UpperU => Some(IVec2::neg_x()),
        Key::LowerI | Key::UpperI => Some(IVec2::neg_y()),
        Key::LowerO | Key::UpperO => Some(IVec2::unit_y()),
        Key::LowerP | Key::UpperP => Some(IVec2::unit_x()),
        _ => None,
    }
}

/// Pressing the mode key twice gives back the mode.
pub proof fn lemma_toggle_twice(modal: bool, c: Camera, cursor: IVec2, shift: bool, alt: bool)
    ensures
        key_outcome(key_outcome(modal, c, cursor, Key::AltR, true, shift, alt).modal_mode, c, cursor, Key::AltR, true, shift, alt).modal_mode
            == modal,
{
}

/// The compositor's bindings: a released key is forwarded and changes
/// nothing; a pressed key other than the mode key keeps the mode and is
/// consumed exactly in the mode; only a focus key moves the cursor, only
/// with shift does it move a window, and only a camera key moves the
/// camera; in the mode `Return` starts kitty (with shift, weston-terminal)
/// and `w` starts firefox.
pub proof fn lemma_key_laws(modal: bool, c: Camera, cursor: IVec2, key: Key, pressed: bool, shift: bool, alt: bool)
    ensures
        ({
            let o = key_outcome(modal, c, cursor, key, pressed, shift, alt);
            &&& !pressed ==> o == KeyOutcome {
                modal_mode: modal,
                camera: c,
                cell_cursor: cursor,
                swap: None,
                response: forwarded(),
            }
            &&& pressed && key != Key::AltR ==> o.modal_mode == modal && (o.response.intercepted <==> modal)
            &&& o.cell_cursor != cursor ==> pressed && modal && focus_dir(key) is Some
            &&& o.swap is Some ==> pressed && modal && shift && focus_dir(key) is Some
            &&& o.camera != c ==> pressed && modal && camera_dir(key) is Some
            &&& pressed && modal && key == Key::Return ==> o.response.launch == Some(
                if shift { Program::WestonTerminal } else { Program::Kitty },
            )
            &&& pressed && modal && key == Key::LowerW ==> o.response.launch == Some(Program::Firefox)
        }),
{
}

/// A focus or camera key means the same whatever its case.
pub proof fn lemma_keys_ignore_case(modal: bool, c: Camera, cursor: IVec2, pressed: bool, shift: bool, alt: bool)
    ensures
        key_outcome(modal, c, cursor, Key::UpperH, pressed, shift, alt) == key_outcome(modal, c, cursor, Key::LowerH, pressed, shift, alt),
        key_outcome(modal, c, cursor, Key::UpperJ, pressed, shift, alt) == key_outcome(modal, c, cursor, Key::LowerJ, pressed, shift, alt),
        key_outcome(modal, c, cursor, Key::UpperK, pressed, shift, alt) == key_outcome(modal, c, cursor, Key::LowerK, pressed, shift, alt),
        key_outcome(modal, c, cursor, Key::UpperL, pressed, shift, alt) == key_outcome(modal, c, cursor, Key::LowerL, pressed, shift, alt),
        key_outcome(modal, c, cursor, Key::UpperU, pressed, shift, alt) == key_outcome(modal, c, cursor, Key::LowerU, pressed, shift, alt),
        key_outcome(modal, c, cursor, Key::UpperI, pressed, shift, alt) == key_outcome(modal, c, cursor, Key::LowerI, pressed, shift, alt),
        key_outcome(modal, c, cursor, Key::UpperO, pressed, shift, alt) == key_outcome(modal, c, cursor, Key::LowerO, pressed, shift, alt),
        key_outcome(modal, c, cursor, Key::UpperP, pressed, shift, alt) == key_outcome(modal, c, cursor, Key::LowerP, pressed, shift, alt),
{
}

/// In the mode, `p`, `u`, `i` and `o` move the cell cursor one cell right,
/// left, down and up (y grows downwards), with shift carrying the window
/// from the old cell to the new one; `l`, `h`, `j` and `k` move the camera
/// the same ways.
pub proof fn lemma_focus_and_camera_keys(c: Camera, cursor: IVec2, shift: bool, alt: bool)
    ensures
        fits_i32(cursor.x + 1) && fits_i32(cursor.y + 0) ==> key_outcome(true, c, cursor, Key::LowerP, true, shift, alt).cell_cursor == ivec(cursor.x + 1, cursor.y + 0) && key_outcome(true, c, cursor, Key::LowerP, true, shift, alt).camera == c
            && key_outcome(true, c, cursor, Key::LowerP, true, shift, alt).swap == (if shift { Some((cursor, ivec(cursor.x + 1, cursor.y + 0))) } else { None }),
        fits_i32(cursor.x + -1) && fits_i32(cursor.y + 0) ==> key_outcome(true, c, cursor, Key::LowerU, true, shift, alt).cell_cursor == ivec(cursor.x + -1, cursor.y + 0) && key_outcome(true, c, cursor, Key::LowerU, true, shift, alt).camera == c
            && key_outcome(true, c, cursor, Key::LowerU, true, shift, alt).swap == (if shift { Some((cursor, ivec(cursor.x + -1, cursor.y + 0))) } else { None }),
        fits_i32(cursor.x + 0) && fits_i32(cursor.y + 1) ==> key_outcome(true, c, cursor, Key::LowerI, true, shift, alt).cell_cursor == ivec(cursor.x + 0, cursor.y + 1) && key_outcome(true, c, cursor, Key::LowerI, true, shift, alt).camera == c
            && key_outcome(true, c, cursor, Key::LowerI, true, shift, alt).swap == (if shift { Some((cursor, ivec(cursor.x + 0, cursor.y + 1))) } else { None }),
        fits_i32(cursor.x + 0) && fits_i32(cursor.y + -1) ==> key_outcome(true, c, cursor, Key::LowerO, true, shift, alt).cell_cursor == ivec(cursor.x + 0, cursor.y + -1) && key_outcome(true, c, cursor, Key::LowerO, true, shift, alt).camera == c
            && key_outcome(true, c, cursor, Key::LowerO, true, shift, alt).swap == (if shift { Some((cursor, ivec(cursor.x + 0, cursor.y + -1))) } else { None }),
        fits_i32(c.origin.x + 1) && fits_i32(c.origin.y + 0) ==> key_outcome(true, c, cursor, Key::LowerL, true, false, false).camera == (Camera { origin: ivec(c.origin.x + 1, c.origin.y + 0), span: c.span })
            && key_outcome(true, c, cursor, Key::LowerL, true, false, false).cell_cursor == cursor,
        fits_i32(c.origin.x + -1) && fits_i32(c.origin.y + 0) ==> key_outcome(true, c, cursor, Key::LowerH, true, false, false).camera == (Camera { origin: ivec(c.origin.x + -1, c.origin.y + 0), span: c.span })
            && key_outcome(true, c, cursor, Key::LowerH, true, false, false).cell_cursor == cursor,
        fits_i32(c.origin.x + 0) && fits_i32(c.origin.y + 1) ==> key_outcome(true, c, cursor, Key::LowerJ, true, false, false).camera == (Camera { origin: ivec(c.origin.x + 0, c.origin.y + 1), span: c.span })
            && key_outcome(true, c, cursor, Key::LowerJ, true, false, false).cell_cursor == cursor,
        fits_i32(c.origin.x + 0) && fits_i32(c.origin.y + -1) ==> key_outcome(true, c, cursor, Key::LowerK, true, false, false).camera == (Camera { origin: ivec(c.origin.x + 0, c.origin.y + -1), span: c.span })
            && key_outcome(true, c, cursor, Key::LowerK, true, false, false).cell_cursor == cursor,
{
}

/// Carrying the window under the cursor one cell right and then back left
/// restores the cursor and the grid.
pub proof fn lemma_carry_there_and_back<W>(m: Map<IVec2, W>, c: Camera, cursor: IVec2, alt: bool)
    requires
        fits_i32(cursor.x + 1),
    ensures
        ({
            let there = key_outcome(true, c, cursor, Key::LowerP, true, true, alt);
            let back = key_outcome(true, c, there.cell_cursor, Key::LowerU, true, true, alt);
            &&& back.cell_cursor == cursor
            &&& there.swap matches Some((a1, b1))
            &&& back.swap matches Some((a2, b2))
            &&& swapped(swapped(m, a1, b1), a2, b2) == m
        }),
{
    let target = ivec(cursor.x + 1, cursor.y as int);
    lemma_swap_symmetric(swapped(m, cursor, target), target, cursor);
    lemma_swap_twice(m, cursor, target);
}

/// The compositor's state that the window manager's decisions read and change.
pub struct State<W> {
    pub enki: Enki<W>,
}

impl<W> State<W> {
    /// Whether handling this key with the compositor's bindings stays within
    /// `i32` (see `key_fits`).
    pub fn key_fits(&self, key: Key, pressed: bool, shift: bool, alt: bool) -> (r: bool)
        ensures
            r == key_fits(self.enki.modal_mode, self.enki.camera, self.enki.cell_cursor, key, pressed, shift, alt),
    {
        if !pressed || key == Key::AltR || !self.enki.modal_mode {
            return true;
        }
        if let Some(axis) = camera_axis(key) {
            return camera_room_exec(&self.enki.camera, flip_axis(axis), shift, alt);
        }
        if let Some(axis) = focus_axis(key) {
            let d = flip_axis(axis);
            let x: i64 = (self.enki.cell_cursor.x as i64) + (d.x as i64);
            let y: i64 = (self.enki.cell_cursor.y as i64) + (d.y as i64);
            return -0x8000_0000 <= x && x <= 0x7fff_ffff && -0x8000_0000 <= y && y <= 0x7fff_ffff;
        }
        true
    }

    /// Handles a key with the compositor's bindings (see `key_outcome`) and
    /// says what the compositor does next.
    pub fn process_input_event(&mut self, key: Key, pressed: bool, shift: bool, alt: bool) -> (r: KeyResponse)
        requires
            key_fits(
                old(self).enki.modal_mode,
                old(self).enki.camera,
                old(self).enki.cell_cursor,
                key,
                pressed,
                shift,
                alt,
            ),
        ensures
            ({
                let o = key_outcome(
                    old(self).enki.modal_mode,
                    old(self).enki.camera,
                    old(self).enki.cell_cursor,
                    key,
                    pressed,
                    shift,
                    alt,
                );
                &&& final(self).enki.modal_mode == o.modal_mode
                &&& final(self).enki.camera == o.camera
                &&& final(self).enki.cell_cursor == o.cell_cursor
                &&& final(self).enki.grid@ == match o.swap {
                    Some((a, b)) => swapped(old(self).enki.grid@, a, b),
                    None => old(self).enki.grid@,
                }
                &&& r == o.response
            }),
    {
        let data = &mut self.enki;
        if pressed {
            if key == Key::AltR {
                data.modal_mode = !data.modal_mode;
                return KeyResponse { intercepted: true, refresh_viewport: true, scale_changed: true, refocus: false, launch: None };
            }
            if data.modal_mode {
                let dir_flipped = camera_axis(key);
                if let Some(dir_flipped) = dir_flipped {
                    let dir = flip_axis(dir_flipped);
                    move_camera(&mut data.camera, dir, shift, alt);
                    return KeyResponse { intercepted: true, refresh_viewport: true, scale_changed: false, refocus: false, launch: None };
                }
                let focus_dir_flipped = focus_axis(key);
                if let Some(focus_dir) = focus_dir_flipped {
                    let dir = flip_axis(focus_dir);
                    if shift {
                        let target_loc = data.cell_cursor + dir;
                        data.grid.swap(data.cell_cursor, target_loc);
                        data.cell_cursor = target_loc;
                        return KeyResponse { intercepted: true, refresh_viewport: true, scale_changed: false, refocus: true, launch: None };
                    } else {
                        data.cell_cursor.add_assign(dir);
                        return KeyResponse { intercepted: true, refresh_viewport: false, scale_changed: false, refocus: true, launch: None };
                    }
                }
                let program = match key {
                    Key::Return => if shift {
                        Some(Program::WestonTerminal)
                    } else {
                        Some(Program::Kitty)
                    },
                    Key::LowerW => Some(Program::Firefox),
                    _ => None,
                };
                return KeyResponse { intercepted: true, refresh_viewport: false, scale_changed: false, refocus: false, launch: program };
            }
        }
        KeyResponse { intercepted: false, refresh_viewport: false, scale_changed: false, refocus: false, launch: None }
    }

    /// Lays out the windows and the output (see `Enki::update_viewport`).
    pub fn update_viewport(&self, monitor_size: IVec2, logical_size: IVec2) -> (plan: ViewportPlan)
        requires
            self.enki.viewport_fits(monitor_size, logical_size),
        ensures
            self.enki.is_viewport_plan(monitor_size, logical_size, plan),
    {
        self.enki.update_viewport(monitor_size, logical_size)
    }
}

} // verus!
