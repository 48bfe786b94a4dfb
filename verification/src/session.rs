//! The session: which game is selected, the clock, the input tracker and
//! the screen. The games themselves run outside; the session decides what
//! they are asked to do, and when the input snapshot is taken.

use vstd::prelude::*;
use crate::clock::lemma_frame_steps_bounded;
use crate::clock::Clock;
use crate::clock::MAX_STEPS_PER_FRAME;
use crate::input::KeyEvent;
use crate::input::WebInput;
use crate::scene::ScreenInfo;

verus! {

/// What one displayed frame asks of the selected game: `steps` updates of one
/// fixed step each, reading `input`, and then one render pass.
#[derive(Clone, Copy, Debug, PartialEq, Eq, Structural)]
pub struct FramePlan {
    /// The simulation steps to run before the render pass.
    pub steps: u64,
    /// The game that runs them and renders, if one is selected.
    pub game: Option<usize>,
    /// The input as every step of this frame and its render pass see it.
    pub input: WebInput,
    /// The screen as the game sees it.
    pub screen: ScreenInfo,
    /// The host timestamp of the frame, in ticks.
    pub now: u64,
}

/// Something the host reports to the session.
#[derive(Clone, Copy, Debug, PartialEq, Eq, Structural)]
pub enum HostEvent {
    /// A key went down or up.
    Key(KeyEvent),
    /// The surface was measured anew.
    Resize(ScreenInfo),
    /// The display asks for a frame at this timestamp, in ticks.
    Frame(u64),
    /// The player picked the game at this index.
    Select(usize),
    /// The player asked for the selected game to start over.
    Reset,
}

/// What the host is to do with the games after an event.
#[derive(Clone, Copy, Debug, PartialEq, Eq, Structural)]
pub enum Reaction {
    /// Nothing.
    Idle,
    /// Run the updates of this plan, then one render pass.
    RunFrame(FramePlan),
    /// Reset the game at this index, and no other.
    ResetGame(usize),
}

/// The state of a session. The games are counted, not held.
#[derive(Clone, Copy, Debug, PartialEq, Eq, Structural)]
pub struct GameState {
    pub game_count: usize,
    pub selected: usize,
    pub input: WebInput,
    pub clock: Clock,
    pub screen: ScreenInfo,
}

impl GameState {
    /// The selection names a game wherever there is one, and the clock holds
    /// less than a step.
    pub open spec fn wf(self) -> bool {
        &&& self.clock.wf()
        &&& self.game_count > 0 ==> self.selected < self.game_count
    }

    /// The selected game, if the selection names one.
    pub open spec fn active(self) -> Option<usize> {
        if self.selected < self.game_count {
            Some(self.selected)
        } else {
            None
        }
    }

    /// The plan of the frame at `now`.
    pub open spec fn plan_at(self, now: u64) -> FramePlan {
        FramePlan {
            steps: self.clock.steps_at(now) as u64,
            game: self.active(),
            input: self.input,
            screen: self.screen,
            now,
        }
    }

    /// The session after the frame at `now`: the clock has advanced, and the
    /// input snapshot was taken if and only if a step ran.
    pub open spec fn after_tick(self, now: u64) -> GameState {
        GameState {
            clock: self.clock.after(now),
            input: if self.clock.steps_at(now) > 0 {
                self.input.after_frame()
            } else {
                self.input
            },
            ..self
        }
    }

    /// Whether picking `idx` changes the selection.
    pub open spec fn switches_to(self, idx: usize) -> bool {
        idx < self.game_count && idx != self.selected
    }

    /// The session after the player picked `idx`.
    pub open spec fn after_select(self, idx: usize) -> GameState {
        if self.switches_to(idx) {
            GameState { selected: idx, ..self }
        } else {
            self
        }
    }

    /// The session after one host event.
    pub open spec fn after_event(self, event: HostEvent) -> GameState {
        match event {
            HostEvent::Key(e) => GameState { input: self.input.after_key(e.key, e.down), ..self },
            HostEvent::Resize(screen) => GameState { screen, ..self },
            HostEvent::Frame(now) => self.after_tick(now),
            HostEvent::Select(idx) => self.after_select(idx),
            HostEvent::Reset => self,
        }
    }

    /// What the host is to do after one host event.
    pub open spec fn reaction_to(self, event: HostEvent) -> Reaction {
        match event {
            HostEvent::Key(_) => Reaction::Idle,
            HostEvent::Resize(_) => Reaction::Idle,
            HostEvent::Frame(now) => Reaction::RunFrame(self.plan_at(now)),
            HostEvent::Select(idx) => if self.switches_to(idx) {
                Reaction::ResetGame(idx)
            } else {
                Reaction::Idle
            },
            HostEvent::Reset => match self.active() {
                Some(idx) => Reaction::ResetGame(idx),
                None => Reaction::Idle,
            },
        }
    }

    /// The session after a trace of host events, taken in order.
    pub open spec fn after_trace(self, trace: Seq<HostEvent>) -> GameState
        decreases trace.len(),
    {
        if trace.len() == 0 {
            self
        } else {
            self.after_trace(trace.drop_last()).after_event(trace.last())
        }
    }

    /// What the host was asked to do over a trace of host events, one
    /// reaction for each event.
    pub open spec fn reactions_to(self, trace: Seq<HostEvent>) -> Seq<Reaction>
        decreases trace.len(),
    {
        if trace.len() == 0 {
            Seq::<Reaction>::empty()
        } else {
            self.reactions_to(trace.drop_last()).push(
                self.after_trace(trace.drop_last()).reaction_to(trace.last()),
            )
        }
    }

    /// A session over `game_count` games with the first one selected, no key
    /// held and a clock that has seen no timestamp.
    pub fn new(game_count: usize, screen: ScreenInfo) -> (state: GameState)
        ensures
            state.wf(),
            state.game_count == game_count,
            state.selected == 0,
            state.screen == screen,
            state.input == WebInput::new_spec(),
            state.clock == (Clock { accumulator: 0, last_time: None }),
    {
        GameState { game_count, selected: 0, input: WebInput::new(), clock: Clock::new(), screen }
    }

    /// The selected game, or `None` where the session has no game.
    pub fn selected_game(&self) -> (game: Option<usize>)
        ensures
            game == self.active(),
    {
        if self.selected < self.game_count {
            Some(self.selected)
        } else {
            None
        }
    }

    /// Takes the frame at the host timestamp `now`. The plan tells how many
    /// fixed steps the selected game runs before its one render pass, and
    /// holds the input as those steps see it. The input snapshot is taken
    /// if and only if at least one step runs, so that a key edge is never
    /// lost on a frame without a step.
    pub fn tick(&mut self, now: u64) -> (plan: FramePlan)
        ensures
            *final(self) == old(self).after_tick(now),
            plan == old(self).plan_at(now),
            plan.input == old(self).input,
            plan.steps == 0 ==> final(self).input == old(self).input,
            plan.steps > 0 ==> final(self).input == old(self).input.after_frame(),
            old(self).wf() ==> final(self).wf() && plan.steps <= MAX_STEPS_PER_FRAME,
            final(self).selected == old(self).selected,
            final(self).game_count == old(self).game_count,
    {
        let input = self.input;
        let steps = self.clock.advance(now);
        if steps > 0 {
            self.input.end_frame();
        }
        FramePlan { steps, game: self.selected_game(), input, screen: self.screen, now }
    }

    /// Picks the game at `idx`. An index out of range, or the index of the
    /// game already selected, changes nothing and resets nothing. Any other
    /// index becomes the selection, and that game, and no other, is to be
    /// reset.
    pub fn select_game(&mut self, idx: usize) -> (reset: Option<usize>)
        ensures
            *final(self) == old(self).after_select(idx),
            old(self).switches_to(idx) ==> reset == Some(idx) && final(self).selected == idx,
            !old(self).switches_to(idx) ==> reset is None && *final(self) == *old(self),
            old(self).wf() ==> final(self).wf(),
    {
        if idx < self.game_count && idx != self.selected {
            self.selected = idx;
            Some(idx)
        } else {
            None
        }
    }

    /// The game to reset when the player asks the current game to start
    /// over: the selected one, if there is one. The session does not change.
    pub fn reset_current(&self) -> (reset: Option<usize>)
        ensures
            reset == self.active(),
    {
        self.selected_game()
    }

    /// Takes one host event and tells the host what to do with the games.
    pub fn handle(&mut self, event: HostEvent) -> (reaction: Reaction)
        ensures
            *final(self) == old(self).after_event(event),
            reaction == old(self).reaction_to(event),
            old(self).wf() ==> final(self).wf(),
    {
        match event {
            HostEvent::Key(e) => {
                self.input.set_key(e.key, e.down);
                Reaction::Idle
            },
            HostEvent::Resize(screen) => {
                self.screen = screen;
                Reaction::Idle
            },
            HostEvent::Frame(now) => Reaction::RunFrame(self.tick(now)),
            HostEvent::Select(idx) => match self.select_game(idx) {
                Some(game) => Reaction::ResetGame(game),
                None => Reaction::Idle,
            },
            HostEvent::Reset => match self.reset_current() {
                Some(game) => Reaction::ResetGame(game),
                None => Reaction::Idle,
            },
        }
    }
}

/// Picking the selected game again, or an index out of range, leaves the
/// session as it was and asks for no reset; picking another game asks for
/// the reset of that game only, and picking it a second time asks for none.
pub proof fn lemma_select_is_idempotent(state: GameState, idx: usize)
    ensures
        idx == state.selected || idx >= state.game_count ==> state.after_select(idx) == state
            && state.reaction_to(HostEvent::Select(idx)) == Reaction::Idle,
        state.after_select(idx).after_select(idx) == state.after_select(idx),
        state.after_select(idx).reaction_to(HostEvent::Select(idx)) == Reaction::Idle,
        state.after_select(idx).input == state.input,
        state.after_select(idx).clock == state.clock,
{
}

/// A frame that runs no step leaves the key edges as they were: a press
/// that arrived before it still shows as `went_down` to the next frame.
pub proof fn lemma_idle_frame_keeps_edges(state: GameState, now: u64)
    requires
        state.clock.steps_at(now) == 0,
    ensures
        state.after_tick(now).input == state.input,
        state.after_tick(now).plan_at(now).input == state.input,
{
}

/// Two sessions that start alike and take the same trace of host events end
/// alike, and the host was asked for the same frames, steps and resets, in
/// the same order, on both: what the games are asked to do depends on the
/// trace alone.
pub proof fn lemma_replay_is_deterministic(a: GameState, b: GameState, trace: Seq<HostEvent>)
    requires
        a == b,
    ensures
        a.after_trace(trace) == b.after_trace(trace),
        a.reactions_to(trace) == b.reactions_to(trace),
        a.reactions_to(trace).len() == trace.len(),
    decreases trace.len(),
{
    if trace.len() > 0 {
        lemma_replay_is_deterministic(a, b, trace.drop_last());
    }
}

/// A well-formed session stays well-formed over any trace of host events,
/// and no frame of the trace runs more than 15 steps.
pub proof fn lemma_trace_keeps_wf(state: GameState, trace: Seq<HostEvent>)
    requires
        state.wf(),
    ensures
        state.after_trace(trace).wf(),
        forall|i: int|
            0 <= i < trace.len() ==> match #[trigger] state.reactions_to(trace)[i] {
                Reaction::RunFrame(plan) => plan.steps <= MAX_STEPS_PER_FRAME,
                _ => true,
            },
        state.reactions_to(trace).len() == trace.len(),
    decreases trace.len(),
{
    if trace.len() > 0 {
        let head = trace.drop_last();
        lemma_trace_keeps_wf(state, head);
        let mid = state.after_trace(head);
        match trace.last() {
            HostEvent::Frame(now) => {
                lemma_frame_steps_bounded(mid.clock, now);
            },
            _ => {},
        }
        assert forall|i: int| 0 <= i < trace.len() implies match #[trigger] state.reactions_to(
            trace,
        )[i] {
            Reaction::RunFrame(plan) => plan.steps <= MAX_STEPS_PER_FRAME,
            _ => true,
        } by {
            if i < head.len() {
                assert(state.reactions_to(trace)[i] == state.reactions_to(head)[i]);
            }
        }
    }
}

} // verus!
