//! The navigation stack: the screen on top is the one shown.
use vstd::prelude::*;
use crate::display::screen::navigation::Screen;

verus! {

/// A stack of screens that always holds at least the root screen.
pub struct UIState {
    stack: Vec<Screen>,
}

impl View for UIState {
    type V = Seq<Screen>;

    closed spec fn view(&self) -> Seq<Screen> {
        self.stack@
    }
}

impl UIState {
    /// The stack is never empty.
    pub open spec fn wf(&self) -> bool {
        self@.len() > 0
    }

    /// A stack holding only `root`.
    pub fn new(root: Screen) -> (r: Self)
        ensures
            r@ == seq![root],
            r.wf(),
    {
        let mut stack = Vec::new();
        stack.push(root);
        Self { stack }
    }

    /// Enters `screen` on top of the stack.
    pub fn push(&mut self, screen: Screen)
        ensures
            final(self)@ == old(self)@.push(screen),
    {
        self.stack.push(screen);
    }

    /// Leaves the top screen; the root screen is never left.
    pub fn pop(&mut self)
        ensures
            final(self)@ == (if old(self)@.len() > 1 { old(self)@.drop_last() } else { old(self)@ }),
    {
        if self.stack.len() > 1 {
            let _ = self.stack.pop();
        }
    }

    /// The screen shown.
    pub fn current(&mut self) -> (r: &Screen)
        requires
            old(self).wf(),
        ensures
            *final(self) == *old(self),
            *r == old(self)@.last(),
    {
        let n = self.stack.len();
        &self.stack[n - 1]
    }

    /// The screen shown, for changing it in place.
    pub fn current_mut(&mut self) -> (r: &mut Screen)
        requires
            old(self).wf(),
        ensures
            *r == old(self)@.last(),
            final(self)@ == old(self)@.update(old(self)@.len() - 1, *final(r)),
    {
        let n = self.stack.len();
        &mut self.stack[n - 1]
    }
}

} // verus!
