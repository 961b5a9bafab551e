//! Navigation driven by button gestures alone: a main menu, a volume screen
//! and a settings screen on a stack.
use vstd::prelude::*;
use crate::button_handling::ButtonEvent;

verus! {

/// A screen with its state.
#[derive(Debug, Clone, Copy, PartialEq, Eq, Structural)]
pub enum Screen {
    MainMenu { selected: u8 },
    VolumeAdjust { value: i32 },
    Settings { selected: u8 },
}

/// A stack of screens that always holds at least the root screen.
pub struct UIState {
    stack: Vec<Screen>,
}

impl View for UIState {
    type V = Seq<Screen>;

    closed spec fn view(&self) -> Seq<Screen> {
        self.stack@
    }
}

impl UIState {
    /// The stack is never empty.
    pub open spec fn wf(&self) -> bool {
        self@.len() > 0
    }

    /// A stack holding only the main menu with its cursor on the first entry.
    pub fn new() -> (r: Self)
        ensures
            r@ == seq![Screen::MainMenu { selected: 0 }],
            r.wf(),
    {
        let mut inner = Vec::new();
        inner.push(Screen::MainMenu { selected: 0 });
        Self { stack: inner }
    }

    /// Enters `screen` on top of the stack.
    pub fn push(&mut self, screen: Screen)
        ensures
            final(self)@ == old(self)@.push(screen),
    {
        self.stack.push(screen);
    }

    /// Leaves the top screen; the root screen is never left.
    pub fn pop(&mut self)
        ensures
            final(self)@ == (if old(self)@.len() > 1 { old(self)@.drop_last() } else { old(self)@ }),
    {
        if self.stack.len() > 1 {
            let _ = self.stack.pop();
        }
    }

    /// The screen shown.
    pub fn current(&mut self) -> (r: &Screen)
        requires
            old(self).wf(),
        ensures
            *final(self) == *old(self),
            *r == old(self)@.last(),
    {
        let n = self.stack.len();
        &self.stack[n - 1]
    }

    /// The screen shown, for changing it in place.
    pub fn current_mut(&mut self) -> (r: &mut Screen)
        requires
            old(self).wf(),
        ensures
            *r == old(self)@.last(),
            final(self)@ == old(self)@.update(old(self)@.len() - 1, *final(r)),
    {
        let n = self.stack.len();
        &mut self.stack[n - 1]
    }
}

/// Button roles.
#[derive(Debug, Clone, Copy, PartialEq, Eq, Structural)]
pub enum Button {
    DoubleClick,
    Select,
    Back,
}

/// The stack after `event` on a stack whose top screen is `top`: a long
/// press on the main menu opens the volume screen at zero, a long press on
/// the volume screen goes back, a click on the volume screen opens another
/// volume screen one higher, a double click on the main menu opens the
/// settings; every other event leaves the stack as it is.
pub open spec fn stack_after(stack: Seq<Screen>, event: ButtonEvent) -> Seq<Screen> {
    match (stack.last(), event) {
        (Screen::MainMenu { .. }, ButtonEvent::LongPress) => stack.push(Screen::VolumeAdjust { value: 0 }),
        (Screen::VolumeAdjust { .. }, ButtonEvent::LongPress) => if stack.len() > 1 { stack.drop_last() } else { stack },
        (Screen::VolumeAdjust { value }, ButtonEvent::SingleClick) => stack.push(Screen::VolumeAdjust { value: (value + 1) as i32 }),
        (Screen::MainMenu { .. }, ButtonEvent::DoubleClick) => stack.push(Screen::Settings { selected: 0 }),
        _ => stack,
    }
}

/// Moves between screens on a button gesture (see `stack_after`).
pub fn handle_event(ui_state: &mut UIState, event: ButtonEvent)
    requires
        old(ui_state).wf(),
        event == ButtonEvent::SingleClick ==> !(old(ui_state)@.last() matches Screen::VolumeAdjust { value }
            && value == i32::MAX),
    ensures
        final(ui_state).wf(),
        final(ui_state)@ == stack_after(old(ui_state)@, event),
{
    let current = *ui_state.current();
    match (current, event) {
        (Screen::MainMenu { selected }, ButtonEvent::LongPress) => {
            let _ = selected;
            ui_state.push(Screen::VolumeAdjust { value: 0 });
        },
        (Screen::VolumeAdjust { .. }, ButtonEvent::LongPress) => {
            ui_state.pop();
        },
        (Screen::VolumeAdjust { value }, ButtonEvent::SingleClick) => {
            let new_value = value + 1;
            ui_state.push(Screen::VolumeAdjust { value: new_value });
        },
        (Screen::MainMenu { .. }, ButtonEvent::DoubleClick) => {
            ui_state.push(Screen::Settings { selected: 0 });
        },
        _ => {},  // event doesn't apply to current screen — ignored
    }
}

/// No gesture empties the stack, and a long press on a volume screen
/// entered from the main menu by a long press returns to that menu.
pub proof fn gestures_keep_root(stack: Seq<Screen>, event: ButtonEvent, selected: u8)
    ensures
        stack.len() > 0 ==> stack_after(stack, event).len() > 0,
        stack.len() > 0 && stack.last() == (Screen::MainMenu { selected }) ==> stack_after(
            stack_after(stack, ButtonEvent::LongPress),
            ButtonEvent::LongPress,
        ) == stack,
{
    let pushed = stack.push(Screen::VolumeAdjust { value: 0 });
    assert(pushed.drop_last() =~= stack);
}

} // verus!
