//! Replaying a list of commands at a fixed cadence.
//!
//! The animator decides, poll by poll, which commands are due. Running them
//! takes arithmetic on single-precision numbers, so the host does it: a poll
//! answers with a [`Tick`], and for [`Tick::Run`] the host runs the commands
//! of the range on the animator's turtle, in order.

use vstd::prelude::*;
use vstd::arithmetic::div_mod::lemma_div_is_ordered;
use vstd::slice::slice_to_vec;
use crate::clock::Stopwatch;
use crate::command::TurtleCommand;
use crate::interval::{lemma_quiet_before_first_interval, IntervalChecker, IntervalModel};
use crate::scalar::Vector2;
use crate::screen::{cleared, LineSegment, TurtleScreen};
use crate::turtle::{Turtle, TurtleModel};

verus! {

/// What an animator does when it has run its last command.
#[derive(Clone, Copy, Debug, PartialEq, Eq, Structural)]
pub enum TurtleCommandsAnimationAutoReset {
    /// It stays idle for good.
    Disabled,
    /// It waits `reset_timeout_ms` milliseconds, clears the screen and
    /// starts over.
    Enabled { reset_timeout_ms: u64 },
}

/// The answer of an animator to one poll.
#[derive(Clone, Copy, Debug, PartialEq, Eq, Structural)]
pub enum Tick {
    /// Nothing is due.
    Idle,
    /// The idle time is over: the screen was cleared and the list starts
    /// over with the next tick.
    Restarted,
    /// The commands at `first`, `first + 1`, ..., `end - 1` are due, in this
    /// order.
    Run { first: usize, end: usize },
}

/// Where a tick that starts at command `from` ends: right after the first
/// command at or after `from` that moves the turtle, or at the end of the
/// list where none does.
pub open spec fn tick_end(commands: Seq<TurtleCommand>, from: nat) -> nat
    decreases commands.len() - from,
{
    if from >= commands.len() {
        commands.len()
    } else if commands[from as int].translates() {
        from + 1
    } else {
        tick_end(commands, from + 1)
    }
}

/// The milliseconds from `started` to `now`; 0 where the clock went back.
pub open spec fn idle_time(started: u64, now: u64) -> nat {
    if now >= started {
        (now - started) as nat
    } else {
        0
    }
}

/// What a [`TurtleCommandsAnimator`] is, as a mathematical value.
pub struct AnimatorModel {
    /// The turtle that the commands are run on. No poll changes it: the
    /// host moves it when it runs the commands of a tick.
    pub turtle: TurtleModel,
    pub commands: Seq<TurtleCommand>,
    /// The index of the next command to run; `commands.len()` when all have
    /// run.
    pub cursor: nat,
    pub interval_checker: IntervalModel,
    pub auto_reset: TurtleCommandsAnimationAutoReset,
    /// The clock reading at which the animator was first polled after its
    /// last command had run, while it waits to start over.
    pub idle_started_ms: Option<u64>,
}

impl AnimatorModel {
    /// Whether every command has run.
    pub open spec fn finished(self) -> bool {
        self.cursor >= self.commands.len()
    }

    /// The answer to a poll at `time_passed_ms` on the animation's clock and
    /// `now_ms` on the wall clock.
    pub open spec fn tick(self, time_passed_ms: u64, now_ms: u64) -> Tick {
        if self.finished() {
            match self.auto_reset {
                TurtleCommandsAnimationAutoReset::Disabled => Tick::Idle,
                TurtleCommandsAnimationAutoReset::Enabled { reset_timeout_ms } => {
                    let started = match self.idle_started_ms {
                        Some(started) => started,
                        None => now_ms,
                    };
                    if idle_time(started, now_ms) >= reset_timeout_ms {
                        Tick::Restarted
                    } else {
                        Tick::Idle
                    }
                },
            }
        } else if self.interval_checker.fires(time_passed_ms as nat) {
            Tick::Run {
                first: self.cursor as usize,
                end: tick_end(self.commands, self.cursor) as usize,
            }
        } else {
            Tick::Idle
        }
    }

    /// The animator after that poll.
    pub open spec fn after_update(self, time_passed_ms: u64, now_ms: u64) -> AnimatorModel {
        if self.finished() {
            match self.auto_reset {
                TurtleCommandsAnimationAutoReset::Disabled => self,
                TurtleCommandsAnimationAutoReset::Enabled { reset_timeout_ms } => {
                    let started = match self.idle_started_ms {
                        Some(started) => started,
                        None => now_ms,
                    };
                    if idle_time(started, now_ms) >= reset_timeout_ms {
                        AnimatorModel { cursor: 0, idle_started_ms: None, ..self }
                    } else {
                        AnimatorModel { idle_started_ms: Some(started), ..self }
                    }
                },
            }
        } else if self.interval_checker.fires(time_passed_ms as nat) {
            AnimatorModel {
                cursor: tick_end(self.commands, self.cursor),
                interval_checker: self.interval_checker.after_poll(time_passed_ms as nat),
                ..self
            }
        } else {
            self
        }
    }

    /// Whether the wall clock has a say in the answer to the next poll: only
    /// while the animator waits to start over.
    pub open spec fn waits_for_restart(self) -> bool {
        self.finished() && self.auto_reset is Enabled
    }

    /// The animator after the polls `polls`, in order.
    pub open spec fn after_updates(self, polls: Seq<Poll>) -> AnimatorModel
        decreases polls.len(),
    {
        if polls.len() == 0 {
            self
        } else {
            self.after_updates(polls.drop_last()).after_update(
                polls.last().time_passed_ms,
                polls.last().now_ms,
            )
        }
    }

    /// How many of the polls `polls`, made in order, are answered with
    /// [`Tick::Run`].
    pub open spec fn run_count(self, polls: Seq<Poll>) -> nat
        decreases polls.len(),
    {
        if polls.len() == 0 {
            0
        } else {
            let earlier = polls.drop_last();
            let last = polls.last();
            let answer = self.after_updates(earlier).tick(last.time_passed_ms, last.now_ms);
            let ran: nat = if answer is Run {
                1
            } else {
                0
            };
            self.run_count(earlier) + ran
        }
    }
}

/// The two clock readings that a poll is made with.
pub struct Poll {
    pub time_passed_ms: u64,
    pub now_ms: u64,
}

/// The buffer `segments` after a poll that was answered with `tick`: empty
/// after a restart, else as it was.
pub open spec fn screen_after(tick: Tick, segments: Seq<LineSegment>) -> Seq<LineSegment> {
    if tick is Restarted {
        cleared(segments)
    } else {
        segments
    }
}

/// The turtle after the host ran `commands` on it, in order, where the
/// motion of `commands[i]` ended in `outcomes[i]`.
pub open spec fn turtle_after(
    turtle: TurtleModel,
    commands: Seq<TurtleCommand>,
    outcomes: Seq<Vector2>,
) -> TurtleModel
    decreases commands.len(),
{
    if commands.len() == 0 {
        turtle
    } else {
        turtle_after(turtle, commands.drop_last(), outcomes.drop_last()).after_motion(
            commands.last().motion(),
            outcomes.last(),
        )
    }
}

/// The buffer `segments` after the host ran `commands` on `turtle`, in
/// order, where the motion of `commands[i]` ended in `outcomes[i]`.
pub open spec fn segments_after(
    turtle: TurtleModel,
    segments: Seq<LineSegment>,
    commands: Seq<TurtleCommand>,
    outcomes: Seq<Vector2>,
) -> Seq<LineSegment>
    decreases commands.len(),
{
    if commands.len() == 0 {
        segments
    } else {
        turtle_after(turtle, commands.drop_last(), outcomes.drop_last()).drawn_by_motion(
            segments_after(turtle, segments, commands.drop_last(), outcomes.drop_last()),
            commands.last().motion(),
            outcomes.last(),
        )
    }
}

struct CommandSchedule {
    interval_checker: IntervalChecker,
    auto_reset: TurtleCommandsAnimationAutoReset,
    idle_started_ms: Option<u64>,
    commands: Vec<TurtleCommand>,
    current_command_index: usize,
}

impl CommandSchedule {
    #[verifier::type_invariant]
    spec fn cursor_in_range(self) -> bool {
        self.current_command_index <= self.commands.len()
    }
}

/// Replays a fixed list of commands on its turtle: with each tick of its
/// cadence the turns that come next and one command that moves the turtle,
/// so that a tick draws one segment.
pub struct TurtleCommandsAnimator {
    turtle: Turtle,
    schedule: CommandSchedule,
    wall_clock: Stopwatch,
}

impl View for TurtleCommandsAnimator {
    type V = AnimatorModel;

    closed spec fn view(&self) -> AnimatorModel {
        AnimatorModel {
            turtle: self.turtle@,
            commands: self.schedule.commands@,
            cursor: self.schedule.current_command_index as nat,
            interval_checker: self.schedule.interval_checker@,
            auto_reset: self.schedule.auto_reset,
            idle_started_ms: self.schedule.idle_started_ms,
        }
    }
}

impl TurtleCommandsAnimator {
    /// An animator that runs `commands` on `turtle`, one tick every
    /// `interval_ms` milliseconds.
    pub fn new(
        turtle: Turtle,
        commands: &[TurtleCommand],
        interval_ms: u64,
        auto_reset: TurtleCommandsAnimationAutoReset,
    ) -> (animator: TurtleCommandsAnimator)
        requires
            interval_ms > 0,
        ensures
            animator@ == (AnimatorModel {
                turtle: turtle@,
                commands: commands@,
                cursor: 0,
                interval_checker: IntervalModel {
                    last_interval: 0,
                    interval_ms: interval_ms as nat,
                },
                auto_reset,
                idle_started_ms: None,
            }),
    {
        TurtleCommandsAnimator {
            turtle,
            schedule: CommandSchedule {
                interval_checker: IntervalChecker::new(interval_ms),
                auto_reset,
                idle_started_ms: None,
                commands: slice_to_vec(commands),
                current_command_index: 0,
            },
            wall_clock: Stopwatch::start(),
        }
    }

    /// The turtle that the commands are run on.
    pub fn turtle(&self) -> (turtle: &Turtle)
        ensures
            turtle@ == self@.turtle,
    {
        &self.turtle
    }

    /// The turtle, for the host to move as the commands of a tick say.
    /// Whatever the host does with it, the rest of the animator stays as it
    /// is.
    pub fn turtle_mut(&mut self) -> (turtle: &mut Turtle)
        ensures
            turtle@ == old(self)@.turtle,
            final(self)@ == (AnimatorModel { turtle: final(turtle)@, ..old(self)@ }),
    {
        &mut self.turtle
    }

    /// The commands that the animator replays.
    pub fn commands(&self) -> (commands: &Vec<TurtleCommand>)
        ensures
            commands@ == self@.commands,
    {
        &self.schedule.commands
    }

    /// The index of the next command to run.
    pub fn current_command_index(&self) -> (index: usize)
        ensures
            index == self@.cursor,
            index <= self@.commands.len(),
    {
        proof {
            use_type_invariant(&self.schedule);
        }
        self.schedule.current_command_index
    }

    /// Whether every command has run.
    pub fn is_finished(&self) -> (finished: bool)
        ensures
            finished == self@.finished(),
    {
        self.schedule.current_command_index >= self.schedule.commands.len()
    }

    /// Starts the list over and empties `screen`.
    pub fn reset(&mut self, screen: &mut TurtleScreen)
        ensures
            final(self)@ == (AnimatorModel { cursor: 0, ..old(self)@ }),
            final(screen)@ == cleared(old(screen)@),
            final(screen).background() == old(screen).background(),
    {
        self.schedule.current_command_index = 0;
        self.turtle.clear(screen);
    }

    /// Polls the animator at `time_passed_ms` on the animation's clock,
    /// reading the wall clock for the idle time before a restart.
    ///
    /// While commands are left, and when the animator never restarts, the
    /// wall clock has no say and the answer is that of
    /// [`TurtleCommandsAnimator::update_at`] for any reading. While the
    /// animator waits to start over, the answer is that of `update_at` for
    /// the reading that the clock gave.
    pub fn update(&mut self, screen: &mut TurtleScreen, time_passed_ms: u64) -> (tick: Tick)
        ensures
            exists|now_ms: u64|
                {
                    &&& tick == old(self)@.tick(time_passed_ms, now_ms)
                    &&& final(self)@ == old(self)@.after_update(time_passed_ms, now_ms)
                },
            !old(self)@.waits_for_restart() ==> {
                &&& tick == old(self)@.tick(time_passed_ms, 0)
                &&& final(self)@ == old(self)@.after_update(time_passed_ms, 0)
            },
            final(screen)@ == screen_after(tick, old(screen)@),
            final(screen).background() == old(screen).background(),
            tick matches Tick::Run { first, end } ==> first < end <= old(self)@.commands.len(),
    {
        let now_ms: u64 = self.wall_clock.elapsed_ms();
        self.update_at(screen, time_passed_ms, now_ms)
    }

    /// Polls the animator at `time_passed_ms` on the animation's clock and
    /// `now_ms` on the wall clock, both in milliseconds.
    ///
    /// While commands are left, the poll answers [`Tick::Run`] when the
    /// cadence checker fires and [`Tick::Idle`] when it does not; the range
    /// of a run starts at the cursor and ends where [`tick_end`] says. When
    /// all commands have run and the animator restarts, the first poll
    /// starts the idle time, and the first poll at which it has reached the
    /// timeout empties `screen`, puts the cursor back to 0 and answers
    /// [`Tick::Restarted`].
    pub fn update_at(
        &mut self,
        screen: &mut TurtleScreen,
        time_passed_ms: u64,
        now_ms: u64,
    ) -> (tick: Tick)
        ensures
            tick == old(self)@.tick(time_passed_ms, now_ms),
            final(self)@ == old(self)@.after_update(time_passed_ms, now_ms),
            final(screen)@ == screen_after(tick, old(screen)@),
            final(screen).background() == old(screen).background(),
            tick matches Tick::Run { first, end } ==> first < end <= old(self)@.commands.len(),
    {
        proof {
            use_type_invariant(&self.schedule);
            if !old(self)@.finished() {
                lemma_tick_end_shape(old(self)@.commands, old(self)@.cursor);
            }
        }
        let len: usize = self.schedule.commands.len();
        if self.schedule.current_command_index >= len {
            match self.schedule.auto_reset {
                TurtleCommandsAnimationAutoReset::Disabled => Tick::Idle,
                TurtleCommandsAnimationAutoReset::Enabled { reset_timeout_ms } => {
                    let started: u64 = match self.schedule.idle_started_ms {
                        Some(started) => started,
                        None => now_ms,
                    };
                    let idle_ms: u64 = if now_ms >= started {
                        now_ms - started
                    } else {
                        0
                    };
                    if idle_ms >= reset_timeout_ms {
                        self.schedule.idle_started_ms = None;
                        self.reset(screen);
                        Tick::Restarted
                    } else {
                        self.schedule.idle_started_ms = Some(started);
                        Tick::Idle
                    }
                },
            }
        } else if self.schedule.interval_checker.should_run(time_passed_ms) {
            let first: usize = self.schedule.current_command_index;
            let end: usize = self.find_tick_end(first);
            self.schedule.current_command_index = end;
            Tick::Run { first, end }
        } else {
            Tick::Idle
        }
    }

    /// Where a tick that starts at command `from` ends.
    fn find_tick_end(&self, from: usize) -> (end: usize)
        requires
            from <= self@.commands.len(),
        ensures
            end == tick_end(self@.commands, from as nat),
            from <= end <= self@.commands.len(),
    {
        let commands = &self.schedule.commands;
        let mut end: usize = from;
        while end < commands.len()
            invariant_except_break
                from <= end <= commands.len(),
                tick_end(commands@, from as nat) == tick_end(commands@, end as nat),
            ensures
                from <= end <= commands.len(),
                end == tick_end(commands@, from as nat),
            decreases commands.len() - end,
        {
            let moves: bool = commands[end].is_translation();
            end += 1;
            if moves {
                break;
            }
        }
        end
    }
}

/// The shape of a tick: it runs at least one command, every command but the
/// last is a turn, and the last one moves the turtle unless the list ended
/// first. So a tick moves the turtle at most once, and draws at most one
/// segment.
pub proof fn lemma_tick_end_shape(commands: Seq<TurtleCommand>, from: nat)
    requires
        from < commands.len(),
    ensures
        from < tick_end(commands, from) <= commands.len(),
        forall|i: int| from <= i < tick_end(commands, from) - 1 ==> !commands[i].translates(),
        tick_end(commands, from) < commands.len() ==> commands[tick_end(commands, from)
            - 1].translates(),
    decreases commands.len() - from,
{
    if !commands[from as int].translates() {
        if from + 1 < commands.len() {
            lemma_tick_end_shape(commands, from + 1);
        } else {
            assert(tick_end(commands, from + 1) == commands.len());
        }
    }
}

/// That shape fits one place only: an `end` after `from` up to which every
/// command but the last is a turn, and which is the end of the list or comes
/// right after a command that moves the turtle, is where the tick ends.
pub proof fn lemma_tick_end_is_unique(commands: Seq<TurtleCommand>, from: nat, end: nat)
    requires
        from < end <= commands.len(),
        forall|i: int| from <= i < end - 1 ==> !commands[i].translates(),
        end < commands.len() ==> commands[end - 1].translates(),
    ensures
        end == tick_end(commands, from),
    decreases commands.len() - from,
{
    if from + 1 < end {
        lemma_tick_end_is_unique(commands, from + 1, end);
    } else if !commands[from as int].translates() {
        assert(end == commands.len());
        assert(tick_end(commands, from + 1) == commands.len());
    }
}

/// Turns draw nothing and leave the turtle where it is, pen as it was.
pub proof fn lemma_turns_draw_nothing(
    turtle: TurtleModel,
    segments: Seq<LineSegment>,
    commands: Seq<TurtleCommand>,
    outcomes: Seq<Vector2>,
)
    requires
        outcomes.len() == commands.len(),
        forall|i: int| 0 <= i < commands.len() ==> !commands[i].translates(),
    ensures
        segments_after(turtle, segments, commands, outcomes) == segments,
        turtle_after(turtle, commands, outcomes).position == turtle.position,
        turtle_after(turtle, commands, outcomes).pen_down == turtle.pen_down,
        turtle_after(turtle, commands, outcomes).pen_width == turtle.pen_width,
        turtle_after(turtle, commands, outcomes).pen_color == turtle.pen_color,
    decreases commands.len(),
{
    if commands.len() > 0 {
        lemma_turns_draw_nothing(turtle, segments, commands.drop_last(), outcomes.drop_last());
    }
}

/// One segment per tick: when the host runs the commands of a tick, whatever
/// the outcomes of their motions, the buffer keeps what it held and gains
/// one segment where the pen is down and the tick ends in a command that
/// moves the turtle to a finite point, none otherwise. The segment starts
/// where the turtle was before the tick and ends in the outcome of the last
/// command.
pub proof fn lemma_tick_draws_at_most_one_segment(
    turtle: TurtleModel,
    segments: Seq<LineSegment>,
    commands: Seq<TurtleCommand>,
    from: nat,
    outcomes: Seq<Vector2>,
)
    requires
        from < commands.len(),
        outcomes.len() == tick_end(commands, from) - from,
    ensures
        ({
            let due = commands.subrange(from as int, tick_end(commands, from) as int);
            let drawn = segments_after(turtle, segments, due, outcomes);
            if turtle.pen_down && due.last().translates() && outcomes.last().finite() {
                drawn == segments.push(turtle.stroke_to(outcomes.last()))
            } else {
                drawn == segments
            }
        }),
{
    lemma_tick_end_shape(commands, from);
    let due = commands.subrange(from as int, tick_end(commands, from) as int);
    let turns = due.drop_last();
    assert forall|i: int| 0 <= i < turns.len() implies !turns[i].translates() by {
        assert(turns[i] == commands[from + i]);
    }
    lemma_turns_draw_nothing(turtle, segments, turns, outcomes.drop_last());
}

/// No poll puts the cursor past the end of the list, changes the list, the
/// turtle or the cadence, or turns the restart on or off.
pub proof fn lemma_update_keeps_the_frame(
    animator: AnimatorModel,
    time_passed_ms: u64,
    now_ms: u64,
)
    requires
        animator.cursor <= animator.commands.len(),
    ensures
        ({
            let after = animator.after_update(time_passed_ms, now_ms);
            &&& after.cursor <= animator.commands.len()
            &&& after.commands == animator.commands
            &&& after.turtle == animator.turtle
            &&& after.auto_reset == animator.auto_reset
            &&& after.interval_checker.interval_ms == animator.interval_checker.interval_ms
        }),
{
    if !animator.finished() {
        lemma_tick_end_shape(animator.commands, animator.cursor);
    }
}

/// A tick that runs commands starts at the cursor and leaves the cursor at
/// its end, so that the ticks of an animation run every command once and in
/// order; and it comes only with a firing of the cadence checker, never
/// before the first interval has passed.
pub proof fn lemma_run_starts_at_the_cursor(
    animator: AnimatorModel,
    time_passed_ms: u64,
    now_ms: u64,
)
    requires
        animator.cursor <= animator.commands.len() <= usize::MAX,
        animator.interval_checker.interval_ms > 0,
        animator.tick(time_passed_ms, now_ms) is Run,
    ensures
        ({
            let tick = animator.tick(time_passed_ms, now_ms);
            let after = animator.after_update(time_passed_ms, now_ms);
            &&& tick->first == animator.cursor
            &&& tick->end == after.cursor
            &&& animator.cursor < after.cursor <= animator.commands.len()
            &&& after.idle_started_ms == animator.idle_started_ms
            &&& animator.interval_checker.fires(time_passed_ms as nat)
            &&& time_passed_ms >= animator.interval_checker.interval_ms
        }),
{
    lemma_tick_end_shape(animator.commands, animator.cursor);
    if time_passed_ms < animator.interval_checker.interval_ms {
        lemma_quiet_before_first_interval(animator.interval_checker, time_passed_ms as nat);
    }
}

/// An animator that has run its last command and does not restart stays as
/// it is and answers every poll with [`Tick::Idle`], whatever the clocks say.
pub proof fn lemma_finished_without_restart_is_idle_for_good(
    animator: AnimatorModel,
    polls: Seq<Poll>,
)
    requires
        animator.finished(),
        animator.auto_reset is Disabled,
    ensures
        animator.after_updates(polls) == animator,
        animator.run_count(polls) == 0,
        forall|time_passed_ms: u64, now_ms: u64|
            animator.after_updates(polls).tick(time_passed_ms, now_ms) is Idle,
    decreases polls.len(),
{
    if polls.len() > 0 {
        lemma_finished_without_restart_is_idle_for_good(animator, polls.drop_last());
    }
}

/// While an animator waits to start over, a poll restarts it exactly when
/// the idle time has reached the timeout. Before that nothing changes but
/// the start of the idle time, which the first such poll sets; the restart
/// puts the cursor back to 0 and unsets the start of the idle time.
pub proof fn lemma_restart_exactly_at_timeout(
    animator: AnimatorModel,
    reset_timeout_ms: u64,
    time_passed_ms: u64,
    now_ms: u64,
)
    requires
        animator.finished(),
        animator.auto_reset == (TurtleCommandsAnimationAutoReset::Enabled { reset_timeout_ms }),
    ensures
        ({
            let started = if animator.idle_started_ms is Some {
                animator.idle_started_ms->Some_0
            } else {
                now_ms
            };
            let tick = animator.tick(time_passed_ms, now_ms);
            let after = animator.after_update(time_passed_ms, now_ms);
            &&& tick is Restarted <==> idle_time(started, now_ms) >= reset_timeout_ms
            &&& tick is Restarted || tick is Idle
            &&& tick is Restarted ==> after == (AnimatorModel {
                cursor: 0,
                idle_started_ms: None,
                ..animator
            })
            &&& tick is Idle ==> after == (AnimatorModel {
                idle_started_ms: Some(started),
                ..animator
            })
        }),
{
}

/// Every tick that runs commands takes a firing of the cadence checker, and
/// a restart does not rewind the checker. So of any polls made at animation
/// times up to `horizon`, at most `horizon / interval_ms` are answered with
/// [`Tick::Run`].
pub proof fn lemma_run_count_bounded(animator: AnimatorModel, polls: Seq<Poll>, horizon: u64)
    requires
        animator.interval_checker.interval_ms > 0,
        forall|i: int| 0 <= i < polls.len() ==> polls[i].time_passed_ms <= horizon,
    ensures
        ({
            let before = animator.interval_checker;
            let after = animator.after_updates(polls).interval_checker;
            &&& after.interval_ms == before.interval_ms
            &&& before.last_interval + animator.run_count(polls) <= after.last_interval
            &&& after.last_interval <= before.last_interval || after.last_interval
                <= before.interval_of(horizon as nat)
            &&& animator.run_count(polls) <= before.interval_of(horizon as nat)
        }),
    decreases polls.len(),
{
    if polls.len() > 0 {
        lemma_run_count_bounded(animator, polls.drop_last(), horizon);
        lemma_div_is_ordered(
            polls.last().time_passed_ms as int,
            horizon as int,
            animator.interval_checker.interval_ms as int,
        );
    }
}

} // verus!
