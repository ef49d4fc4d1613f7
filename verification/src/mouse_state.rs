//! Description of mouse coordinates, scroll movement and state of buttons.

use vstd::prelude::*;

verus! {

/// Mouse position in pixels.
pub type MousePosition = (i32, i32);

/// Mouse button number; buttons are counted from 1.
pub type MouseButton = usize;

/// Scroll wheel movement accumulated since it was last read.
/// Positive is up or right, negative is down or left.
#[derive(Debug, PartialEq, Eq, Structural, Clone, Copy)]
pub struct ScrollDelta {
    /// Vertical scroll delta (positive = up, negative = down)
    pub vertical: i32,
    /// Horizontal scroll delta (positive = right, negative = left)
    pub horizontal: i32,
}

impl ScrollDelta {
    /// The delta of a wheel that has not moved.
    pub open spec fn zero() -> ScrollDelta {
        ScrollDelta { vertical: 0, horizontal: 0 }
    }
}

impl Default for ScrollDelta {
    fn default() -> (d: ScrollDelta)
        ensures
            d == ScrollDelta::zero(),
    {
        ScrollDelta { vertical: 0, horizontal: 0 }
    }
}

/// One step of the scroll wheel, by its direction.
#[derive(Debug, PartialEq, Eq, Structural, Clone, Copy)]
pub enum MouseScrollEvent {
    /// Vertical scroll up
    VerticalUp,
    /// Vertical scroll down
    VerticalDown,
    /// Horizontal scroll right
    HorizontalRight,
    /// Horizontal scroll left
    HorizontalLeft,
}

/// The mouse at one instant: where the pointer is, which buttons are held and
/// how far the wheel has moved since the previous query. Button numbers start
/// at 1, so `button_pressed[0]` is always false and has no meaning.
#[derive(Debug, PartialEq)]
pub struct MouseState {
    /// Coordinates in pixel.
    pub coords: MousePosition,
    /// State of each mouse button.
    pub button_pressed: Vec<bool>,
    /// Scroll wheel delta since last query.
    pub scroll_delta: ScrollDelta,
}

/// A `MouseState` as a value of mathematics.
#[verifier::ext_equal]
pub struct MouseStateView {
    /// Coordinates in pixel.
    pub coords: MousePosition,
    /// State of each mouse button, by its number.
    pub button_pressed: Seq<bool>,
    /// Scroll wheel delta since last query.
    pub scroll_delta: ScrollDelta,
}

impl View for MouseState {
    type V = MouseStateView;

    open spec fn view(&self) -> MouseStateView {
        MouseStateView {
            coords: self.coords,
            button_pressed: self.button_pressed@,
            scroll_delta: self.scroll_delta,
        }
    }
}

impl MouseStateView {
    /// What every snapshot of a query holds: a slot for each of the buttons
    /// 1 to 4 at least, and slot 0 unused.
    pub open spec fn well_formed(self) -> bool {
        self.button_pressed.len() >= 5 && !self.button_pressed[0]
    }
}

impl Clone for MouseState {
    fn clone(&self) -> (copy: MouseState)
        ensures
            copy@ == self@,
    {
        MouseState {
            coords: (self.coords.0, self.coords.1),
            button_pressed: self.button_pressed.clone(),
            scroll_delta: self.scroll_delta,
        }
    }
}

impl Default for MouseState {
    /// The pointer at the origin, no button slots and no scroll movement.
    fn default() -> (state: MouseState)
        ensures
            state@ == (MouseStateView {
                coords: (0i32, 0i32),
                button_pressed: Seq::<bool>::empty(),
                scroll_delta: ScrollDelta::zero(),
            }),
    {
        MouseState {
            coords: (0, 0),
            button_pressed: Vec::new(),
            scroll_delta: ScrollDelta { vertical: 0, horizontal: 0 },
        }
    }
}

} // verus!
