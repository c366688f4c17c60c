use pegasus::sim::{App, Init};
use pegasus::steps::{Step, StepList, DRAW_NAME, DRAW_PRIORITY};

struct World {
    log: Vec<(&'static str, u64)>,
}

struct Named(&'static str);

impl Step<World> for Named {
    fn run(&mut self, world: &mut World, elapsed: u64) {
        world.log.push((self.0, elapsed));
    }
}

struct StopAfter {
    ticks: u32,
    with_steps: bool,
}

impl Init for StopAfter {
    type World = World;
    type Step = Named;
    type Shell = u32;

    fn start(self, steps: &mut StepList<Named>, world: &mut World) -> u32 {
        if self.with_steps {
            steps.add(Named("late"), "late", 20);
            steps.add(Named("move"), "move", 5);
        }
        world.log.push(("start", 0));
        self.ticks
    }

    fn proceed(shell: &mut u32, _world: &World) -> bool {
        *shell -= 1;
        *shell > 0
    }
}

struct Forever;

impl Init for Forever {
    type World = World;
    type Step = Named;
    type Shell = ();

    fn start(self, _steps: &mut StepList<Named>, _world: &mut World) {}

    fn proceed(_shell: &mut (), _world: &World) -> bool {
        true
    }
}

#[test]
fn setting_up_registers_the_draw_step_and_starts_the_application_once() {
    let mut world = World { log: Vec::new() };
    let app = App::new(StopAfter { ticks: 1, with_steps: true }, Named("draw"), &mut world, 0);
    assert_eq!(world.log, [("start", 0)]);
    assert!(app.is_running());
    assert_eq!(*app.shell(), 1);
    let steps = app.steps();
    assert_eq!(steps.len(), 3);
    assert_eq!(steps.name(0), "move");
    assert_eq!(steps.name(1), DRAW_NAME);
    assert_eq!(steps.priority(1), DRAW_PRIORITY);
    assert_eq!(steps.name(2), "late");
}

#[test]
fn a_tick_runs_the_steps_in_order_with_the_elapsed_time() {
    let mut world = World { log: Vec::new() };
    let mut app =
        App::new(StopAfter { ticks: 5, with_steps: true }, Named("draw"), &mut world, 1_000);
    world.log.clear();
    assert!(app.tick(&mut world, 1_016));
    assert_eq!(world.log, [("move", 16), ("draw", 16), ("late", 16)]);
    world.log.clear();
    assert!(app.tick(&mut world, 1_050));
    assert_eq!(world.log, [("move", 34), ("draw", 34), ("late", 34)]);
}

#[test]
fn simulation_performs_exactly_as_many_ticks_as_the_application_allows() {
    for k in 1..6u32 {
        let mut world = World { log: Vec::new() };
        let mut app =
            App::new(StopAfter { ticks: k, with_steps: true }, Named("draw"), &mut world, 0);
        world.log.clear();
        let mut calls = 0;
        let mut now = 0;
        loop {
            now += 10;
            calls += 1;
            if !app.tick(&mut world, now) {
                break;
            }
        }
        assert_eq!(calls, k);
        assert!(!app.is_running());
        let draws = world.log.iter().filter(|entry| entry.0 == "draw").count();
        assert_eq!(draws, k as usize);
        // further calls do nothing at all
        let before = world.log.len();
        assert!(!app.tick(&mut world, now + 10));
        assert!(!app.tick(&mut world, now + 20));
        assert_eq!(world.log.len(), before);
        assert!(!app.is_running());
    }
}

#[test]
fn simulation_with_no_step_but_the_draw_step_runs_until_told_to_stop() {
    let mut world = World { log: Vec::new() };
    let mut app =
        App::new(StopAfter { ticks: 4, with_steps: false }, Named("draw"), &mut world, 0);
    assert_eq!(app.steps().len(), 1);
    world.log.clear();
    let mut now = 0;
    let mut ticks = 0;
    loop {
        now += 7;
        ticks += 1;
        if !app.tick(&mut world, now) {
            break;
        }
    }
    assert_eq!(ticks, 4);
    assert_eq!(world.log, [("draw", 7), ("draw", 7), ("draw", 7), ("draw", 7)]);
}

#[test]
fn an_application_that_always_says_go_on_never_stops() {
    let mut world = World { log: Vec::new() };
    let mut app = App::new(Forever, Named("draw"), &mut world, 0);
    for now in 1..50u64 {
        assert!(app.tick(&mut world, now));
    }
    assert!(app.is_running());
    assert_eq!(world.log.len(), 49);
}

#[test]
fn a_clock_that_runs_backwards_gives_no_negative_time() {
    let mut world = World { log: Vec::new() };
    let mut app = App::new(Forever, Named("draw"), &mut world, 100);
    assert!(app.tick(&mut world, 90));
    assert!(app.tick(&mut world, 130));
    assert_eq!(world.log, [("draw", 0), ("draw", 30)]);
}

struct SamePriority;

impl Init for SamePriority {
    type World = World;
    type Step = Named;
    type Shell = ();

    fn start(self, steps: &mut StepList<Named>, _world: &mut World) {
        steps.add(Named("overlay"), "overlay", DRAW_PRIORITY);
        steps.add(Named("move"), "move", DRAW_PRIORITY - 1);
    }

    fn proceed(_shell: &mut (), _world: &World) -> bool {
        true
    }
}

#[test]
fn draw_step_runs_ahead_of_other_steps_of_its_priority() {
    let mut world = World { log: Vec::new() };
    let mut app = App::new(SamePriority, Named("draw"), &mut world, 0);
    assert!(app.tick(&mut world, 3));
    assert_eq!(world.log, [("move", 3), ("draw", 3), ("overlay", 3)]);
}

struct LooksAround;

impl Init for LooksAround {
    type World = World;
    type Step = Named;
    type Shell = (usize, String, i32);

    fn start(self, steps: &mut StepList<Named>, _world: &mut World) -> (usize, String, i32) {
        (steps.len(), steps.name(0).to_string(), steps.priority(0))
    }

    fn proceed(_shell: &mut (usize, String, i32), world: &World) -> bool {
        world.log.len() < 3
    }
}

#[test]
fn the_application_is_started_on_a_list_that_holds_the_draw_step() {
    let mut world = World { log: Vec::new() };
    let app = App::new(LooksAround, Named("draw"), &mut world, 0);
    assert_eq!(*app.shell(), (1, DRAW_NAME.to_string(), DRAW_PRIORITY));
    assert_eq!(app.steps().len(), 1);
}

#[test]
fn the_application_is_asked_on_the_world_as_the_steps_left_it() {
    let mut world = World { log: Vec::new() };
    let mut app = App::new(LooksAround, Named("draw"), &mut world, 0);
    assert!(app.tick(&mut world, 1));
    assert!(app.tick(&mut world, 2));
    assert!(!app.tick(&mut world, 3));
    assert_eq!(world.log.len(), 3);
    assert!(!app.is_running());
}
