//! The simulation driver: tick after tick until the application says stop.

use crate::clock::{elapsed_between, later_of, SimClock};
use crate::steps::{
    ascending, keeps_at, kept_in_order, ran_in_order, same_schedule, Step, StepEntry, StepList,
    DRAW_NAME, DRAW_PRIORITY,
};
use vstd::prelude::*;

verus! {

/// Whether the entry at place `at` is the draw step: it bears the draw
/// step's name and priority.
pub open spec fn is_draw_entry<S>(schedule: Seq<StepEntry<S>>, at: int) -> bool {
    &&& 0 <= at < schedule.len()
    &&& schedule[at].priority == DRAW_PRIORITY
    &&& schedule[at].name@ == DRAW_NAME@
}

/// What an application brings to the simulation: its state, its steps and
/// its say on when to stop.
pub trait Init: Sized {
    /// The state that the steps work on.
    type World;

    /// The steps of a tick.
    type Step: Step<Self::World>;

    /// State of the application's own, handed to `proceed` after each tick.
    type Shell;

    /// What `start` may make of the step list and of the world, and which
    /// shell it may give. An application that says nothing here may do
    /// anything.
    open spec fn started(
        init: Self,
        steps_before: Seq<StepEntry<Self::Step>>,
        world_before: Self::World,
        steps_after: Seq<StepEntry<Self::Step>>,
        world_after: Self::World,
        shell: Self::Shell,
    ) -> bool {
        true
    }

    /// Called once, before the first tick, with the step list that holds
    /// the draw step already: registers the application's steps and fills
    /// the world. It only adds: what is registered stays, and in its order.
    fn start(self, steps: &mut StepList<Self::Step>, world: &mut Self::World) -> (shell:
        Self::Shell)
        requires
            old(steps).wf(),
        ensures
            final(steps).wf(),
            kept_in_order(old(steps)@, final(steps)@),
            Self::started(self, old(steps)@, *old(world), final(steps)@, *final(world), shell),
    ;

    /// What `proceed` may answer and make of the shell, given the shell
    /// and the world it is asked on. An application that says nothing here
    /// may do anything.
    open spec fn proceeded(
        shell_before: Self::Shell,
        world: Self::World,
        shell_after: Self::Shell,
        go_on: bool,
    ) -> bool {
        true
    }

    /// Called after each tick, with the world as the steps left it: whether
    /// there is to be another tick. An application that is never to stop
    /// answers `true`.
    fn proceed(shell: &mut Self::Shell, world: &Self::World) -> (go_on: bool)
        ensures
            Self::proceeded(*old(shell), *world, *final(shell), go_on),
    ;
}

/// How far a simulation has come.
pub struct Progress {
    /// Whether another tick may follow.
    pub running: bool,
    /// The number of ticks performed.
    pub ticks: nat,
}

impl Progress {
    /// Where a simulation stands before its first tick.
    pub open spec fn initial() -> Progress {
        Progress { running: true, ticks: 0 }
    }

    /// The progress after one call for a tick, `answer` being what the
    /// application said on whether to go on. A simulation that has stopped
    /// performs no tick and stays as it is.
    pub open spec fn after_tick(self, answer: bool) -> Progress {
        if self.running {
            Progress { running: answer, ticks: self.ticks + 1 }
        } else {
            self
        }
    }

    /// The progress after one call for a tick per item of `answers`.
    pub open spec fn after_run(self, answers: Seq<bool>) -> Progress
        decreases answers.len(),
    {
        if answers.len() == 0 {
            self
        } else {
            self.after_run(answers.drop_last()).after_tick(answers.last())
        }
    }
}

/// As long as the application says go on, every call performs a tick.
pub proof fn lemma_runs_while_approved(start: Progress, answers: Seq<bool>)
    requires
        start.running,
        forall|i: int| 0 <= i < answers.len() ==> answers[i],
    ensures
        start.after_run(answers) == (Progress {
            running: true,
            ticks: start.ticks + answers.len(),
        }),
    decreases answers.len(),
{
    if answers.len() > 0 {
        lemma_runs_while_approved(start, answers.drop_last());
    }
}

/// A simulation whose application first says stop after tick number `k`
/// performs exactly `k` ticks, however often it is called afterwards.
pub proof fn lemma_stops_after_refusal(start: Progress, answers: Seq<bool>, k: nat)
    requires
        start.running,
        1 <= k <= answers.len(),
        forall|i: int| 0 <= i < k - 1 ==> answers[i],
        !answers[k - 1],
    ensures
        start.after_run(answers) == (Progress { running: false, ticks: start.ticks + k }),
    decreases answers.len(),
{
    let earlier = answers.drop_last();
    if answers.len() == k {
        lemma_runs_while_approved(start, earlier);
    } else {
        lemma_stops_after_refusal(start, earlier, k);
    }
}

/// The simulation: the application's shell, the step list and the clock.
pub struct App<I: Init> {
    shell: I::Shell,
    steps: StepList<I::Step>,
    clock: SimClock,
    running: bool,
    ticks: Ghost<nat>,
}

impl<I: Init> App<I> {
    /// How far the simulation has come.
    pub closed spec fn progress(&self) -> Progress {
        Progress { running: self.running, ticks: self.ticks@ }
    }

    /// The registered steps, in running order.
    pub closed spec fn schedule(&self) -> Seq<StepEntry<I::Step>> {
        self.steps@
    }

    /// The timestamp of the previous tick.
    pub closed spec fn last_tick(&self) -> u64 {
        self.clock.last()
    }

    /// The application's shell.
    pub closed spec fn spec_shell(&self) -> I::Shell {
        self.shell
    }

    /// The step list is in running order.
    pub open spec fn wf(&self) -> bool {
        ascending(self.schedule())
    }

    /// Sets a simulation up at time `now`: registers `draw` as the draw step
    /// under its fixed name and priority, then lets the application
    /// register its own steps beside it and fill the world, and keeps the
    /// shell it gives.
    pub fn new(init: I, draw: I::Step, world: &mut I::World, now: u64) -> (app: Self)
        ensures
            app.wf(),
            app.progress() == Progress::initial(),
            app.last_tick() == now,
            exists|seeded: Seq<StepEntry<I::Step>>|
                {
                    &&& seeded.len() == 1
                    &&& is_draw_entry(seeded, 0)
                    &&& seeded[0].step == draw
                    &&& #[trigger] I::started(
                        init,
                        seeded,
                        *old(world),
                        app.schedule(),
                        *final(world),
                        app.spec_shell(),
                    )
                },
            exists|at: int|
                #[trigger] is_draw_entry(app.schedule(), at) && app.schedule()[at].step == draw,
    {
        let mut steps: StepList<I::Step> = StepList::new();
        steps.add(draw, DRAW_NAME, DRAW_PRIORITY);
        let ghost seeded = steps@;
        let shell = init.start(&mut steps, world);
        let app = App { shell, steps, clock: SimClock::start(now), running: true, ticks: Ghost(0) };
        proof {
            assert(is_draw_entry(seeded, 0));
            assert(I::started(
                init,
                seeded,
                *old(world),
                app.schedule(),
                *final(world),
                app.spec_shell(),
            ));
            let places = choose|places: Seq<int>| keeps_at(seeded, app.schedule(), places);
            assert(app.schedule()[places[0]] == seeded[0]);
            assert(is_draw_entry(app.schedule(), places[0]));
        }
        app
    }

    /// One tick at time `now`: takes the time elapsed since the previous
    /// tick, runs every step once and in order with it, then asks the
    /// application whether to go on, with the shell as it stands and on the
    /// world as the steps left it, and keeps the shell as the application
    /// leaves it. Once the application has said stop, a call does nothing
    /// and says stop again.
    pub fn tick(&mut self, world: &mut I::World, now: u64) -> (go_on: bool)
        requires
            old(self).wf(),
        ensures
            final(self).wf(),
            final(self).progress() == old(self).progress().after_tick(go_on),
            !old(self).progress().running ==> !go_on,
            !old(self).progress().running ==> final(self).spec_shell() == old(self).spec_shell()
                && final(self).schedule() == old(self).schedule() && *final(world) == *old(world),
            old(self).progress().running ==> ran_in_order(
                old(self).schedule(),
                *old(world),
                elapsed_between(old(self).last_tick(), now),
                final(self).schedule(),
                *final(world),
            ),
            old(self).progress().running ==> I::proceeded(
                old(self).spec_shell(),
                *final(world),
                final(self).spec_shell(),
                go_on,
            ),
            same_schedule(final(self).schedule(), old(self).schedule()),
            final(self).last_tick() == if old(self).progress().running {
                later_of(old(self).last_tick(), now)
            } else {
                old(self).last_tick()
            },
    {
        if !self.running {
            return false;
        }
        let elapsed = self.clock.tick(now);
        self.steps.dispatch(world, elapsed);
        let go_on = I::proceed(&mut self.shell, world);
        self.running = go_on;
        proof {
            self.ticks@ = self.ticks@ + 1;
        }
        go_on
    }

    /// Whether another tick may follow.
    pub fn is_running(&self) -> (running: bool)
        ensures
            running == self.progress().running,
    {
        self.running
    }

    /// The registered steps, in running order.
    pub fn steps(&self) -> (steps: &StepList<I::Step>)
        ensures
            steps@ == self.schedule(),
            self.wf() ==> steps.wf(),
    {
        &self.steps
    }

    /// The application's shell.
    pub fn shell(&self) -> (shell: &I::Shell)
        ensures
            *shell == self.spec_shell(),
    {
        &self.shell
    }
}

} // verus!
