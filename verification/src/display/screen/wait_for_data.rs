//! The screen shown while waiting for the host: a click asks the host for
//! its playback devices.
use vstd::prelude::*;
use crate::display::screen::navigation::Transition;
use crate::input::event::InputEvent;
use crate::protocol::Command;

verus! {

#[derive(Debug, Clone, Copy, PartialEq, Eq, Structural)]
pub struct WaitForDataState {
    pub sent: bool,
}

impl Default for WaitForDataState {
    fn default() -> (r: Self)
        ensures
            !r.sent,
    {
        WaitForDataState { sent: false }
    }
}

/// The request that `event` sends to the host: a click asks for the playback
/// devices.
pub fn wait_for_data_request(event: InputEvent) -> (r: Option<Command>)
    ensures
        event == InputEvent::SingleClick ==> r matches Some(Command::GetPlaybackDevices),
        event != InputEvent::SingleClick ==> r is None,
{
    match event {
        InputEvent::SingleClick => Some(Command::GetPlaybackDevices),
        _ => None,
    }
}

/// Handles `event` once its request (if any) went out: `send_ok` tells
/// whether the request was queued, `waiting_for_data` whether the answer is
/// still awaited. After a click the screen records a queued request and stays
/// while waiting, leaving otherwise; other events keep the screen.
pub fn handle_wait_for_data(
    state: &mut WaitForDataState,
    event: InputEvent,
    send_ok: bool,
    waiting_for_data: bool,
) -> (t: Transition)
    ensures
        event == InputEvent::SingleClick ==> final(state).sent == (old(state).sent || send_ok)
            && (if waiting_for_data { t is Stay } else { t is Pop }),
        event != InputEvent::SingleClick ==> *final(state) == *old(state) && t is Stay,
{
    match event {
        InputEvent::SingleClick => {
            if send_ok {
                state.sent = true;
            }
            // Click to initiate sending data to host, and wait for receive.
            // After receiving, transition to Pop else Stay.
            if waiting_for_data {
                Transition::Stay
            } else {
                Transition::Pop
            }
        },
        _ => Transition::Stay,
    }
}

} // verus!
