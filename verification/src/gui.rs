//! A tiny GUI sketch: components that know how to draw themselves, and a
//! screen that draws each of its components in order.

use vstd::prelude::*;

verus! {

/// The common behaviour of a GUI element: rendering itself.
pub trait Draw {
    /// Renders the element.
    fn draw(&self);
}

/// A screen holding a list of components, all of one drawable kind.
pub struct Screen<C: Draw> {
    pub components: Vec<C>,
}

impl<C: Draw> Screen<C> {
    /// Draws every component, in the order they were added.
    pub fn run(&self) {
        let mut i: usize = 0;
        while i < self.components.len()
            invariant
                i <= self.components.len(),
            decreases self.components.len() - i,
        {
            self.components[i].draw();
            i = i + 1;
        }
    }
}

/// A push button of a given size, with a label.
pub struct Button {
    pub width: u32,
    pub height: u32,
    pub label: String,
}

impl Draw for Button {
    /// Renders nothing visible in this sketch.
    fn draw(&self) {
    }
}

/// A selection box of a given size, offering a list of options.
pub struct SelectBox {
    pub width: u32,
    pub height: u32,
    pub options: Vec<String>,
}

impl Draw for SelectBox {
    /// Renders nothing visible in this sketch.
    fn draw(&self) {
    }
}

} // verus!
