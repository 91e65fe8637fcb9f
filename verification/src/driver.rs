//! A driver for which nothing goes wrong, as a yardstick for the game.
//!
//! The game is defined one event at a time. What it does over a whole
//! bootstrap or a whole frame is stated against a driver that performs every
//! action with success and answers from a given world: an archive with so many
//! levels, a frame's clock readings, and what the gestures would answer.

use vstd::prelude::*;
use crate::gesture::Snapshot;
use crate::machine::{GameState, Phase};
use crate::protocol::{Action, Event, Moment};

verus! {

/// What the driver finds when it performs an action.
pub struct World {
    /// The number of levels in the archive.
    pub num_levels: usize,
    /// What the gestures answer in the frame.
    pub snapshot: Snapshot,
    /// The clock reading before the first frame.
    pub loop_start: u64,
    /// The clock reading once the frame is acquired.
    pub frame_start: u64,
    /// The clock reading at the start of the frame's update phase.
    pub update_start: u64,
    /// The clock reading at the end of the frame's update phase.
    pub update_end: u64,
}

impl World {
    /// What the clock reads at a moment.
    pub open spec fn reading(self, moment: Moment) -> u64 {
        match moment {
            Moment::LoopStart => self.loop_start,
            Moment::FrameStart => self.frame_start,
            Moment::UpdateStart => self.update_start,
            Moment::UpdateEnd => self.update_end,
        }
    }
}

impl GameState {
    /// The event with which the driver answers the pending action.
    pub open spec fn answer(self, world: World) -> Event {
        match self.pending() {
            Action::OpenArchive { .. } => Event::ArchiveOpened { num_levels: world.num_levels },
            Action::ReadClock { moment } => Event::Clock(world.reading(moment)),
            Action::PollGesture { gesture } => Event::Polled(world.snapshot.registers(gesture)),
            _ => Event::Done,
        }
    }

    /// The game after the driver has performed one action.
    pub open spec fn driven_once(self, world: World) -> GameState {
        self.after(self.answer(world))
    }

    /// The game after the driver has performed `steps` actions.
    pub open spec fn driven(self, world: World, steps: nat) -> GameState
        decreases steps,
    {
        if steps == 0 {
            self
        } else {
            self.driven_once(world).driven(world, (steps - 1) as nat)
        }
    }

    /// The first `steps` actions that the driver performs, in their order.
    pub open spec fn actions(self, world: World, steps: nat) -> Seq<Action>
        decreases steps,
    {
        if steps == 0 {
            Seq::empty()
        } else {
            seq![self.pending()] + self.driven_once(world).actions(world, (steps - 1) as nat)
        }
    }

    /// The first of `steps` steps, taken apart from the rest.
    pub proof fn lemma_step(self, world: World, steps: nat, next: GameState)
        requires
            steps >= 1,
            self.driven_once(world) == next,
        ensures
            self.driven(world, steps) == next.driven(world, (steps - 1) as nat),
            self.actions(world, steps) == seq![self.pending()] + next.actions(
                world,
                (steps - 1) as nat,
            ),
    {
    }

    /// Driving a game for `m` and then for `n` steps is driving it for
    /// `m + n` steps.
    pub proof fn lemma_driven_add(self, world: World, m: nat, n: nat)
        ensures
            self.driven(world, m + n) == self.driven(world, m).driven(world, n),
            self.actions(world, m + n) == self.actions(world, m) + self.driven(world, m).actions(
                world,
                n,
            ),
        decreases m,
    {
        if m == 0 {
            assert(self.actions(world, 0) + self.actions(world, n) =~= self.actions(world, n));
        } else {
            let next = self.driven_once(world);
            next.lemma_driven_add(world, (m - 1) as nat, n);
            assert(self.driven(world, m + n) == next.driven(world, (m + n - 1) as nat));
            assert(self.actions(world, m + n) == seq![self.pending()] + next.actions(
                world,
                (m + n - 1) as nat,
            ));
            assert(seq![self.pending()] + (next.actions(world, (m - 1) as nat) + next.driven(
                world,
                (m - 1) as nat,
            ).actions(world, n)) =~= (seq![self.pending()] + next.actions(world, (m - 1) as nat))
                + next.driven(world, (m - 1) as nat).actions(world, n));
        }
    }

    /// A game that has ended stays as it is, whatever is reported to it.
    pub proof fn law_end_is_final(self, event: Event)
        requires
            self.phase.is_terminal(),
        ensures
            self.after(event) == self,
            self.pending() is Exit || self.pending() is Fail || self.pending() is Abort,
    {
    }

    /// A game that does not wait for the clock ignores its readings.
    pub proof fn law_clock_unasked(self, readings: Seq<u64>)
        requires
            !self.awaits_clock(),
        ensures
            self.timed(readings) == self,
        decreases readings.len(),
    {
        if readings.len() > 0 {
            self.law_clock_unasked(readings.drop_last());
        }
    }
    /// The readings that a game takes itself stand for the steps in which a
    /// driver would have read the clock: one before the first frame, two
    /// after a frame is acquired, one after the help texts are drawn.
    pub proof fn law_readings_are_steps(self, world: World)
        ensures
            self.phase == Phase::StartClock ==> self.timed(seq![world.loop_start]) == self.driven(
                world,
                1,
            ),
            self.phase == Phase::FrameClock ==> self.timed(
                seq![world.frame_start, world.update_start],
            ) == self.driven(world, 2),
            self.phase == Phase::UpdateEndClock ==> self.timed(seq![world.update_end])
                == self.driven(world, 1),
    {
        reveal_with_fuel(GameState::timed, 3);
        reveal_with_fuel(GameState::driven, 3);
        let one = seq![world.loop_start];
        let two = seq![world.frame_start, world.update_start];
        let end = seq![world.update_end];
        assert(one.drop_last() =~= Seq::<u64>::empty());
        assert(end.drop_last() =~= Seq::<u64>::empty());
        assert(two.drop_last() =~= seq![world.frame_start]);
        assert(two.drop_last().drop_last() =~= Seq::<u64>::empty());
    }

}

} // verus!
