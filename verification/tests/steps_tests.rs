use pegasus::steps::{Step, StepList, DRAW_NAME, DRAW_PRIORITY};

fn names(list: &StepList<u32>) -> Vec<String> {
    (0..list.len()).map(|at| list.name(at).to_string()).collect()
}

#[test]
fn draw_step_has_its_fixed_name_and_priority() {
    assert_eq!(DRAW_NAME, "draw");
    assert_eq!(DRAW_PRIORITY, 10);
}

#[test]
fn a_new_list_is_empty() {
    let list: StepList<u32> = StepList::new();
    assert_eq!(list.len(), 0);
}

#[test]
fn steps_stand_in_ascending_order_of_priority() {
    let mut list: StepList<u32> = StepList::new();
    assert_eq!(list.add(1, DRAW_NAME, DRAW_PRIORITY), 0);
    assert_eq!(list.add(2, "late", 20), 1);
    assert_eq!(list.add(3, "move", 5), 0);
    assert_eq!(list.add(4, "first", -7), 0);
    assert_eq!(names(&list), ["first", "move", "draw", "late"]);
    assert_eq!(list.priority(0), -7);
    assert_eq!(list.priority(1), 5);
    assert_eq!(list.priority(2), 10);
    assert_eq!(list.priority(3), 20);
    assert_eq!(*list.step(2), 1);
    assert_eq!(*list.step(0), 4);
}

#[test]
fn equal_priorities_keep_the_order_of_registration() {
    let mut list: StepList<u32> = StepList::new();
    assert_eq!(list.add(1, "a", 10), 0);
    assert_eq!(list.add(2, "b", 10), 1);
    assert_eq!(list.add(3, "c", 10), 2);
    assert_eq!(list.add(4, "z", 11), 3);
    assert_eq!(list.add(5, "d", 10), 3);
    assert_eq!(names(&list), ["a", "b", "c", "d", "z"]);
}

#[test]
fn extreme_priorities_are_ordered_too() {
    let mut list: StepList<u32> = StepList::new();
    list.add(1, "max", i32::MAX);
    list.add(2, "min", i32::MIN);
    list.add(3, "zero", 0);
    assert_eq!(names(&list), ["min", "zero", "max"]);
}

struct Record(u32);

impl Step<Vec<(u32, u64)>> for Record {
    fn run(&mut self, world: &mut Vec<(u32, u64)>, elapsed: u64) {
        world.push((self.0, elapsed));
        self.0 += 100;
    }
}

#[test]
fn dispatch_runs_every_step_once_in_order_with_the_elapsed_time() {
    let mut list: StepList<Record> = StepList::new();
    list.add(Record(1), "draw", 10);
    list.add(Record(2), "late", 20);
    list.add(Record(3), "move", 5);
    let mut world = Vec::new();
    list.dispatch(&mut world, 16);
    assert_eq!(world, [(3, 16), (1, 16), (2, 16)]);
    list.dispatch(&mut world, 17);
    assert_eq!(world[3..], [(103, 17), (101, 17), (102, 17)]);
    assert_eq!(list.len(), 3);
    assert_eq!(list.name(0), "move");
    assert_eq!(list.priority(2), 20);
}

#[test]
fn dispatch_on_an_empty_list_does_nothing() {
    let mut list: StepList<Record> = StepList::new();
    let mut world = Vec::new();
    list.dispatch(&mut world, 5);
    assert!(world.is_empty());
}

#[test]
fn a_step_added_ahead_runs_before_those_of_the_same_priority() {
    let mut list: StepList<u32> = StepList::new();
    list.add(1, "low", 5);
    list.add(2, "a", 10);
    list.add(3, "b", 10);
    list.add(4, "high", 20);
    assert_eq!(list.add_ahead(5, DRAW_NAME, DRAW_PRIORITY), 1);
    assert_eq!(names(&list), ["low", "draw", "a", "b", "high"]);
    assert_eq!(list.add_ahead(6, "lowest", i32::MIN), 0);
    assert_eq!(list.add_ahead(7, "highest", i32::MAX), 6);
    assert_eq!(names(&list), ["lowest", "low", "draw", "a", "b", "high", "highest"]);
}
