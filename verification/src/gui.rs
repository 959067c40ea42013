//! A screen of components that know how to draw themselves.

use vstd::prelude::*;

verus! {

/// Something that can be drawn.
pub trait Draw {
    /// Draws the component.
    fn draw(&self);
}

/// A screen: the components on it, in the order in which they are drawn.
pub struct Screen {
    pub components: Vec<Box<dyn Draw>>,
}

impl Screen {
    /// Draws every component of the screen, first to last.
    pub fn run(&self) {
        let mut i: usize = 0;
        while i < self.components.len()
            invariant
                i <= self.components@.len(),
            decreases self.components@.len() - i,
        {
            self.components[i].draw();
            i += 1;
        }
    }
}

/// A button with a label.
pub struct Button {
    pub width: u32,
    pub height: u32,
    pub label: String,
}

impl Draw for Button {
    fn draw(&self) {
    }
}

} // verus!
