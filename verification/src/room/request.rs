//! What reaches the room: requests of players and observers, and the ticks of its timers.
use vstd::prelude::*;

use crate::protocol::PlayerRequest;

verus! {

/// Which countdown ran out: the drawing turn or the marking that follows it.
#[derive(Debug, Clone, Copy, PartialEq, Eq, Structural)]
pub enum TimerType {
    Draw,
    Mark,
}

/// One message to the room. The connection that comes with a login stays with the
/// caller, which keeps it or drops it as the room's answer says.
#[derive(Debug, PartialEq)]
pub enum Request {
    /// A request of the player in the given seat.
    PlayerReq(usize, PlayerRequest),
    /// A new player connection waits for a seat.
    PlayerLogin,
    /// The player in the given seat left.
    PlayerLogout(usize),
    /// An observer with the given local name sent something (observers have nothing to ask yet).
    ObserverReq(String),
    /// A new observer connection from `addr`, calling itself `name`.
    ObserverLogin { addr: String, name: String },
    /// The observer with the given local name left.
    ObserverLogout(String),
    /// A countdown ran out.
    Timer(TimerType),
    /// A countdown has the given number of seconds left.
    CountDown(usize),
}

/// What a countdown of `secs` seconds sends after `passed` of them: the seconds left while
/// any are, then the end of the countdown.
pub fn countdown_tick(secs: usize, passed: usize, timer_type: TimerType) -> (r: Request)
    requires
        passed <= secs,
    ensures
        passed < secs ==> r == Request::CountDown((secs - passed) as usize),
        passed == secs ==> r == Request::Timer(timer_type),
{
    if passed < secs {
        Request::CountDown(secs - passed)
    } else {
        Request::Timer(timer_type)
    }
}

} // verus!
