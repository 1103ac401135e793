use vstd::prelude::*;
use crate::spaceship::{Spaceship, TURN_STEP};

verus! {

/// A discrete input event of a frame.
#[derive(Clone, Copy, Debug, PartialEq, Eq)]
pub enum InputEvent {
    /// Window closed or the quit key pressed.
    Quit,
    /// The thrust key pressed.
    Up,
    /// The reverse-thrust key pressed.
    Down,
}

/// The controls held down at the end of a frame's events.
#[derive(Clone, Copy, Debug, PartialEq, Eq)]
pub struct HeldKeys {
    pub left: bool,
    pub right: bool,
    pub fire: bool,
}

/// Polling interval of the outer loop, in milliseconds (144 Hz).
pub const POLL_MS: u32 = 1000 / 144;

/// Interval of the simulation and render cadence, in milliseconds (60 Hz).
pub const TICK_MS: u32 = 1000 / 60;

/// The events applied in order until the first `Quit`.
#[verifier::opaque]
pub open spec fn apply_events(ship: Spaceship, events: Seq<InputEvent>) -> Spaceship
    decreases events.len(),
{
    if events.len() == 0 {
        ship
    } else {
        match events[0] {
            InputEvent::Quit => ship,
            InputEvent::Up => apply_events(ship.thrusted(1), events.drop_first()),
            InputEvent::Down => apply_events(ship.thrusted(-1), events.drop_first()),
        }
    }
}

proof fn lemma_apply_events_unfold(ship: Spaceship, events: Seq<InputEvent>)
    ensures
        events.len() == 0 ==> apply_events(ship, events) == ship,
        events.len() > 0 && events[0] == InputEvent::Quit ==> apply_events(ship, events) == ship,
        events.len() > 0 && events[0] == InputEvent::Up ==> apply_events(ship, events)
            == apply_events(ship.thrusted(1), events.drop_first()),
        events.len() > 0 && events[0] == InputEvent::Down ==> apply_events(ship, events)
            == apply_events(ship.thrusted(-1), events.drop_first()),
{
    reveal(apply_events);
}

/// The turns that the held keys ask for, left first.
pub open spec fn apply_turns(ship: Spaceship, held: HeldKeys) -> Spaceship {
    let l = if held.left {
        ship.turned(-TURN_STEP as int)
    } else {
        ship
    };
    if held.right {
        l.turned(TURN_STEP as int)
    } else {
        l
    }
}

/// Applies a frame's input to the ship: the events in order, stopping at a
/// quit; then, if there was none, the held turns and the fire control.
/// Returns whether the game goes on.
pub fn handle_inputs(events: &Vec<InputEvent>, held: HeldKeys, player: &mut Spaceship) -> (r: bool)
    requires
        old(player).wf(),
    ensures
        final(player).wf(),
        r == !events@.contains(InputEvent::Quit),
        !r ==> *final(player) == apply_events(*old(player), events@),
        r ==> {
            let t = apply_turns(apply_events(*old(player), events@), held);
            if held.fire {
                &&& final(player).bullets@ == t.fired_bullets()
                &&& final(player).fire_cooldown == t.fired_cooldown()
                &&& final(player).body == t.body
                &&& final(player).rotation == t.rotation
                &&& final(player).is_destroyed == t.is_destroyed
            } else {
                *final(player) == t
            }
        },
{
    let n = events.len();
    let mut i: usize = 0;
    assert(events@.subrange(0, n as int) =~= events@);
    while i < n
        invariant
            n == events@.len(),
            i <= n,
            player.wf(),
            apply_events(*old(player), events@) == apply_events(
                *player,
                events@.subrange(i as int, n as int),
            ),
            forall|j: int| 0 <= j < i ==> events@[j] != InputEvent::Quit,
        decreases n - i,
    {
        let ghost rest = events@.subrange(i as int, n as int);
        let ghost ship0 = *player;
        proof {
            assert(rest.drop_first() =~= events@.subrange(i + 1, n as int));
            assert(rest[0] == events@[i as int]);
            lemma_apply_events_unfold(ship0, rest);
        }
        match events[i] {
            InputEvent::Quit => {
                assert(*player == apply_events(*old(player), events@));
                assert(events@.contains(InputEvent::Quit)) by {
                    assert(events@[i as int] == InputEvent::Quit);
                }
                return false;
            },
            InputEvent::Up => {
                player.up();
                assert(apply_events(ship0, rest) == apply_events(*player, rest.drop_first()));
            },
            InputEvent::Down => {
                player.down();
                assert(apply_events(ship0, rest) == apply_events(*player, rest.drop_first()));
            },
        }
        i = i + 1;
    }
    proof {
        assert(events@.subrange(n as int, n as int).len() == 0);
        lemma_apply_events_unfold(*player, events@.subrange(n as int, n as int));
        assert(!events@.contains(InputEvent::Quit));
    }
    if held.left {
        player.left();
    }
    if held.right {
        player.right();
    }
    if held.fire {
        player.fire();
    }
    true
}

/// Milliseconds from `previous` to `now`; zero if the clock went back.
pub open spec fn elapsed(now: int, previous: int) -> int {
    if now >= previous {
        now - previous
    } else {
        0
    }
}

/// Whether the simulation and render cadence is due: more than `TICK_MS`
/// milliseconds have passed since it last ran.
pub fn frame_due(now: u32, previous: u32) -> (r: bool)
    ensures
        r == (elapsed(now as int, previous as int) > TICK_MS),
{
    let taken = if now >= previous {
        now - previous
    } else {
        0
    };
    taken > TICK_MS
}

/// How long the outer loop sleeps after an iteration that began at
/// `previous`: what is left of `POLL_MS`, if anything.
pub fn pacing_delay(now: u32, previous: u32) -> (r: u32)
    ensures
        r == if elapsed(now as int, previous as int) < POLL_MS {
            POLL_MS - elapsed(now as int, previous as int)
        } else {
            0
        },
{
    let taken = if now >= previous {
        now - previous
    } else {
        0
    };
    if taken < POLL_MS {
        POLL_MS - taken
    } else {
        0
    }
}

} // verus!
