use vstd::prelude::*;
use crate::events::event::Event;

verus! {

/// A button of the mouse, as the windowing backend names it.
#[derive(Debug, Clone, Copy, PartialEq, Eq, Structural)]
pub enum MouseButton {
    Unknown,
    Left,
    Middle,
    Right,
    X1,
    X2,
}

impl MouseButton {
    /// The key code under which events of the button are dispatched.
    pub open spec fn spec_number(self) -> i32 {
        match self {
            MouseButton::Unknown => 6,
            MouseButton::Left => 1,
            MouseButton::Middle => 3,
            MouseButton::Right => 2,
            MouseButton::X1 => 4,
            MouseButton::X2 => 5,
        }
    }

    /// The key code under which events of the button are dispatched.
    #[verifier::when_used_as_spec(spec_number)]
    pub fn number(self) -> (n: i32)
        ensures
            n == self.spec_number(),
    {
        match self {
            MouseButton::Unknown => 6,
            MouseButton::Left => 1,
            MouseButton::Middle => 3,
            MouseButton::Right => 2,
            MouseButton::X1 => 4,
            MouseButton::X2 => 5,
        }
    }
}

/// What the windowing backend reports, reduced to what the loop's events are
/// made of. `Other` stands for every report that the loop has no event for.
#[derive(Debug, Clone, Copy, PartialEq, Eq, Structural)]
pub enum DeviceEvent {
    KeyDown { keycode: i32 },
    KeyUp { keycode: i32 },
    MouseButtonDown { x: i32, y: i32, mouse_btn: MouseButton },
    MouseButtonUp { x: i32, y: i32, mouse_btn: MouseButton },
    MouseMotion { x: i32, y: i32, xrel: i32, yrel: i32 },
    /// The wheel turned by `x` and `y`.
    MouseWheel { x: i32, y: i32 },
    Other,
}

/// The event that the loop makes of the report `e` while the pointer is at
/// `mouse`; none for a report that it has no event for. A turn of the wheel
/// carries no place of its own and is given the pointer's.
pub open spec fn translated(e: DeviceEvent, mouse: (i32, i32)) -> Option<Event> {
    match e {
        DeviceEvent::KeyDown { keycode } => Some(Event::KeyBoardButtonDown { key: keycode }),
        DeviceEvent::KeyUp { keycode } => Some(Event::KeyBoardButtonUp { key: keycode }),
        DeviceEvent::MouseButtonDown { x, y, mouse_btn } => Some(
            Event::MouseButtonDown { key: mouse_btn.spec_number(), x, y },
        ),
        DeviceEvent::MouseButtonUp { x, y, mouse_btn } => Some(
            Event::MouseButtonUp { key: mouse_btn.spec_number(), x, y },
        ),
        DeviceEvent::MouseMotion { x, y, xrel, yrel } => Some(
            Event::MouseMotion { x, y, x_rel: xrel, y_rel: yrel },
        ),
        DeviceEvent::MouseWheel { x, y } => Some(
            Event::MouseWheel { x_dir: x, y_dir: y, x: mouse.0, y: mouse.1 },
        ),
        DeviceEvent::Other => None,
    }
}

/// The events that the loop makes of the first `n` reports, in their order.
pub open spec fn translated_up_to(reports: Seq<DeviceEvent>, mouse: (i32, i32), n: nat) -> Seq<
    Event,
>
    decreases n,
{
    if n == 0 || n > reports.len() {
        Seq::empty()
    } else {
        let earlier = translated_up_to(reports, mouse, (n - 1) as nat);
        match translated(reports[n - 1], mouse) {
            Some(e) => earlier.push(e),
            None => earlier,
        }
    }
}

/// Makes the loop's event of one report of the backend.
pub fn translate(e: &DeviceEvent, mouse_x: i32, mouse_y: i32) -> (event: Option<Event>)
    ensures
        event == translated(*e, (mouse_x, mouse_y)),
{
    match e {
        DeviceEvent::KeyDown { keycode } => Some(Event::KeyBoardButtonDown { key: *keycode }),
        DeviceEvent::KeyUp { keycode } => Some(Event::KeyBoardButtonUp { key: *keycode }),
        DeviceEvent::MouseButtonDown { x, y, mouse_btn } => Some(
            Event::MouseButtonDown { key: mouse_btn.number(), x: *x, y: *y },
        ),
        DeviceEvent::MouseButtonUp { x, y, mouse_btn } => Some(
            Event::MouseButtonUp { key: mouse_btn.number(), x: *x, y: *y },
        ),
        DeviceEvent::MouseMotion { x, y, xrel, yrel } => Some(
            Event::MouseMotion { x: *x, y: *y, x_rel: *xrel, y_rel: *yrel },
        ),
        DeviceEvent::MouseWheel { x, y } => Some(
            Event::MouseWheel { x_dir: *x, y_dir: *y, x: mouse_x, y: mouse_y },
        ),
        DeviceEvent::Other => None,
    }
}

/// Appends to `buf` the events that the loop makes of the reports that the
/// backend had queued, in their order, for a pointer at `(mouse_x, mouse_y)`.
pub fn provide_device_events(
    reports: &Vec<DeviceEvent>,
    mouse_x: i32,
    mouse_y: i32,
    buf: &mut Vec<Event>,
)
    ensures
        final(buf)@ == old(buf)@ + translated_up_to(
            reports@,
            (mouse_x, mouse_y),
            reports.len() as nat,
        ),
{
    let ghost before = buf@;
    let mut n: usize = 0;
    while n < reports.len()
        invariant
            n <= reports.len(),
            buf@ == before + translated_up_to(reports@, (mouse_x, mouse_y), n as nat),
        decreases reports.len() - n,
    {
        if let Some(e) = translate(&reports[n], mouse_x, mouse_y) {
            buf.push(e);
        }
        n += 1;
        assert(buf@ =~= before + translated_up_to(reports@, (mouse_x, mouse_y), n as nat));
    }
}

} // verus!
