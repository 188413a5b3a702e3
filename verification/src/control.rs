use vstd::prelude::*;
use crate::text::str_equal;

verus! {

/// What the canvas and window events have told the camera so far: the last
/// mouse movement, the pulses of this frame (clicks, wheel) and the held
/// keys. The wheel's scroll amount is floating point data and stays with the
/// renderer, beside this state.
#[derive(Clone, Copy, Debug, PartialEq, Eq, Structural)]
pub struct ControlResponseJs {
    pub movement_x: i32,
    pub movement_y: i32,
    pub on_left_click: bool,
    pub on_right_click: bool,
    pub on_wheel: bool,
    pub on_shift: bool,
    pub on_w: bool,
    pub on_a: bool,
    pub on_s: bool,
    pub on_d: bool,
}

/// The control state before any event.
pub open spec fn released() -> ControlResponseJs {
    ControlResponseJs {
        movement_x: 0,
        movement_y: 0,
        on_left_click: false,
        on_right_click: false,
        on_wheel: false,
        on_shift: false,
        on_w: false,
        on_a: false,
        on_s: false,
        on_d: false,
    }
}

impl Default for ControlResponseJs {
    fn default() -> (c: Self)
        ensures
            c == released(),
    {
        ControlResponseJs {
            movement_x: 0,
            movement_y: 0,
            on_left_click: false,
            on_right_click: false,
            on_wheel: false,
            on_shift: false,
            on_w: false,
            on_a: false,
            on_s: false,
            on_d: false,
        }
    }
}

/// An input event of the canvas or the window, as the control reads it.
pub enum ControlEvent {
    /// `mousemove` on the canvas: the movement and the pressed button (`which`).
    MouseMove { movement_x: i32, movement_y: i32, which: u32 },
    /// `wheel` on the canvas.
    Wheel,
    /// `keydown` on the window: the key and whether shift is held.
    KeyDown { key: String, shift_key: bool },
    /// `keyup` on the window.
    KeyUp { key: String },
    /// `blur` of the window.
    Blur,
    /// `contextmenu` on the window.
    ContextMenu,
}

/// `key` names the letter `lower`, in either case.
pub open spec fn is_letter_key(key: Seq<char>, lower: Seq<char>, upper: Seq<char>) -> bool {
    key == lower || key == upper
}

/// All held keys let go.
pub open spec fn release_keys(c: ControlResponseJs) -> ControlResponseJs {
    ControlResponseJs { on_a: false, on_d: false, on_s: false, on_w: false, on_shift: false, ..c }
}

/// The control state after an event.
pub open spec fn after_event(c: ControlResponseJs, e: ControlEvent) -> ControlResponseJs {
    match e {
        ControlEvent::MouseMove { movement_x, movement_y, which } => ControlResponseJs {
            movement_x,
            movement_y,
            on_left_click: which == 1,
            on_right_click: which == 3,
            ..c
        },
        ControlEvent::Wheel => ControlResponseJs { on_wheel: true, ..c },
        ControlEvent::KeyDown { key, shift_key } => ControlResponseJs {
            on_shift: c.on_shift || shift_key,
            on_w: c.on_w || is_letter_key(key@, "w"@, "W"@),
            on_a: c.on_a || is_letter_key(key@, "a"@, "A"@),
            on_s: c.on_s || is_letter_key(key@, "s"@, "S"@),
            on_d: c.on_d || is_letter_key(key@, "d"@, "D"@),
            ..c
        },
        ControlEvent::KeyUp { key } => ControlResponseJs {
            on_shift: c.on_shift && key@ != "shift"@,
            on_w: c.on_w && !is_letter_key(key@, "w"@, "W"@),
            on_a: c.on_a && !is_letter_key(key@, "a"@, "A"@),
            on_s: c.on_s && !is_letter_key(key@, "s"@, "S"@),
            on_d: c.on_d && !is_letter_key(key@, "d"@, "D"@),
            ..c
        },
        ControlEvent::Blur => release_keys(c),
        ControlEvent::ContextMenu => release_keys(c),
    }
}

fn is_letter(key: &String, lower: &str, upper: &str) -> (r: bool)
    ensures
        r == is_letter_key(key@, lower@, upper@),
{
    str_equal(key.as_str(), lower) || str_equal(key.as_str(), upper)
}

impl ControlResponseJs {
    fn press_keys(&mut self, shift: bool, w: bool, a: bool, s: bool, d: bool)
        ensures
            *final(self) == (ControlResponseJs {
                on_shift: old(self).on_shift || shift,
                on_w: old(self).on_w || w,
                on_a: old(self).on_a || a,
                on_s: old(self).on_s || s,
                on_d: old(self).on_d || d,
                ..*old(self)
            }),
    {
        if shift {
            self.on_shift = true;
        }
        if w {
            self.on_w = true;
        }
        if a {
            self.on_a = true;
        }
        if s {
            self.on_s = true;
        }
        if d {
            self.on_d = true;
        }
    }

    fn release_keys(&mut self, shift: bool, w: bool, a: bool, s: bool, d: bool)
        ensures
            *final(self) == (ControlResponseJs {
                on_shift: old(self).on_shift && !shift,
                on_w: old(self).on_w && !w,
                on_a: old(self).on_a && !a,
                on_s: old(self).on_s && !s,
                on_d: old(self).on_d && !d,
                ..*old(self)
            }),
    {
        if shift {
            self.on_shift = false;
        }
        if w {
            self.on_w = false;
        }
        if a {
            self.on_a = false;
        }
        if s {
            self.on_s = false;
        }
        if d {
            self.on_d = false;
        }
    }

    /// Records an event, as the listeners on the canvas and the window do.
    pub fn handle_event(&mut self, event: &ControlEvent)
        ensures
            *final(self) == after_event(*old(self), *event),
    {
        match event {
            ControlEvent::MouseMove { movement_x, movement_y, which } => {
                self.movement_x = *movement_x;
                self.movement_y = *movement_y;
                self.on_left_click = *which == 1;
                self.on_right_click = *which == 3;
            },
            ControlEvent::Wheel => {
                self.on_wheel = true;
            },
            ControlEvent::KeyDown { key, shift_key } => {
                let w = is_letter(key, "w", "W");
                let a = is_letter(key, "a", "A");
                let s = is_letter(key, "s", "S");
                let d = is_letter(key, "d", "D");
                self.press_keys(*shift_key, w, a, s, d);
            },
            ControlEvent::KeyUp { key } => {
                let shift = str_equal(key.as_str(), "shift");
                let w = is_letter(key, "w", "W");
                let a = is_letter(key, "a", "A");
                let s = is_letter(key, "s", "S");
                let d = is_letter(key, "d", "D");
                self.release_keys(shift, w, a, s, d);
            },
            ControlEvent::Blur | ControlEvent::ContextMenu => {
                self.on_a = false;
                self.on_d = false;
                self.on_s = false;
                self.on_w = false;
                self.on_shift = false;
            },
        }
    }
}

/// What the camera does in a frame: rotate by the mouse movement while a
/// button is down, dolly along the view direction on a wheel event, and
/// walk forward, back, left or right while W, S, A or D is held.
#[derive(Clone, Copy, Debug, PartialEq, Eq, Structural)]
pub struct CameraControl {
    pub rotate: bool,
    pub movement_x: i32,
    pub movement_y: i32,
    pub zoom: bool,
    pub forward: bool,
    pub backward: bool,
    pub left: bool,
    pub right: bool,
}

/// The camera moves that a control state asks for.
pub open spec fn camera_control_of(c: ControlResponseJs) -> CameraControl {
    CameraControl {
        rotate: c.on_left_click || c.on_right_click,
        movement_x: c.movement_x,
        movement_y: c.movement_y,
        zoom: c.on_wheel,
        forward: c.on_w,
        backward: c.on_s,
        left: c.on_a,
        right: c.on_d,
    }
}

/// The control state once a frame has consumed its pulses: clicks and wheel
/// are cleared, the rest is kept.
pub open spec fn consumed(c: ControlResponseJs) -> ControlResponseJs {
    ControlResponseJs { on_left_click: false, on_right_click: false, on_wheel: false, ..c }
}

/// Decides the camera moves of a frame from the control state, and clears
/// the pulses that the frame consumes (clicks and wheel).
pub fn update_camera_control(control: &mut ControlResponseJs) -> (moves: CameraControl)
    ensures
        moves == camera_control_of(*old(control)),
        *final(control) == consumed(*old(control)),
{
    let moves = CameraControl {
        rotate: control.on_right_click || control.on_left_click,
        movement_x: control.movement_x,
        movement_y: control.movement_y,
        zoom: control.on_wheel,
        forward: control.on_w,
        backward: control.on_s,
        left: control.on_a,
        right: control.on_d,
    };
    control.on_left_click = false;
    control.on_right_click = false;
    control.on_wheel = false;
    moves
}

// Laws --------------------------------------------------------------------------------------

/// A click or a wheel event moves the camera in one frame only: the frame
/// after it neither rotates nor dollies, while held keys keep walking.
pub proof fn lemma_pulses_consumed_once(c: ControlResponseJs)
    ensures
        !camera_control_of(consumed(c)).rotate,
        !camera_control_of(consumed(c)).zoom,
        camera_control_of(consumed(c)).forward == camera_control_of(c).forward,
        camera_control_of(consumed(c)).backward == camera_control_of(c).backward,
        camera_control_of(consumed(c)).left == camera_control_of(c).left,
        camera_control_of(consumed(c)).right == camera_control_of(c).right,
        consumed(consumed(c)) == consumed(c),
{
}

/// Losing focus, or opening the context menu, stops every walk.
pub proof fn lemma_focus_loss_stops_walking(c: ControlResponseJs)
    ensures
        ({
            let m = camera_control_of(after_event(c, ControlEvent::Blur));
            !m.forward && !m.backward && !m.left && !m.right
        }),
        ({
            let m = camera_control_of(after_event(c, ControlEvent::ContextMenu));
            !m.forward && !m.backward && !m.left && !m.right
        }),
{
}

/// Pressing and releasing a key stops the walk of its letter (in either
/// case) and leaves the other walks as they were before the press.
pub proof fn lemma_key_press_release(c: ControlResponseJs, key: String, shift_key: bool)
    ensures
        ({
            let down = after_event(c, ControlEvent::KeyDown { key, shift_key });
            let up = after_event(down, ControlEvent::KeyUp { key });
            &&& up.on_w == (c.on_w && !is_letter_key(key@, "w"@, "W"@))
            &&& up.on_a == (c.on_a && !is_letter_key(key@, "a"@, "A"@))
            &&& up.on_s == (c.on_s && !is_letter_key(key@, "s"@, "S"@))
            &&& up.on_d == (c.on_d && !is_letter_key(key@, "d"@, "D"@))
        }),
{
}

/// Pressing W, A, S or D, in either case and whether or not shift is held,
/// makes the camera walk that way, and leaves the other walks as they were.
pub proof fn lemma_key_down_walks(c: ControlResponseJs, key: String, shift_key: bool)
    ensures
        ({
            let down = after_event(c, ControlEvent::KeyDown { key, shift_key });
            &&& (key@ == "w"@ || key@ == "W"@) ==> camera_control_of(down).forward
            &&& (key@ == "s"@ || key@ == "S"@) ==> camera_control_of(down).backward
            &&& (key@ == "a"@ || key@ == "A"@) ==> camera_control_of(down).left
            &&& (key@ == "d"@ || key@ == "D"@) ==> camera_control_of(down).right
            &&& (key@ != "w"@ && key@ != "W"@) ==> down.on_w == c.on_w
            &&& (key@ != "s"@ && key@ != "S"@) ==> down.on_s == c.on_s
            &&& (key@ != "a"@ && key@ != "A"@) ==> down.on_a == c.on_a
            &&& (key@ != "d"@ && key@ != "D"@) ==> down.on_d == c.on_d
            &&& shift_key ==> down.on_shift
        }),
{
}

/// A drag with the left or the right button rotates the camera by the drag's
/// movement in the next frame; a movement with neither button down does not
/// rotate it. Rotation follows the buttons alone.
pub proof fn lemma_drag_rotates(
    c: ControlResponseJs,
    movement_x: i32,
    movement_y: i32,
    which: u32,
)
    ensures
        ({
            let moved = after_event(c, ControlEvent::MouseMove { movement_x, movement_y, which });
            let moves = camera_control_of(moved);
            &&& (which == 1 || which == 3) ==> moves.rotate
            &&& (which != 1 && which != 3) ==> !moves.rotate
            &&& moves.movement_x == movement_x
            &&& moves.movement_y == movement_y
        }),
        camera_control_of(c).rotate <==> (c.on_left_click || c.on_right_click),
{
}

} // verus!
