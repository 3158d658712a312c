use std::cell::Cell;
use web_server::cacher::{generate_workout_with_closure_and_cacher, Cacher, Workout};

#[test]
fn get_value() {
    let mut cacher = Cacher::new(|num| num);
    let _val1 = cacher.value(1);
    let val2 = cacher.value(2);
    assert_eq!(val2, 2);
}

#[test]
fn each_argument_is_computed_once() {
    let calls = Cell::new(0u32);
    let mut cacher = Cacher::new(|num| {
        calls.set(calls.get() + 1);
        num * 2
    });
    assert_eq!(cacher.value(3), 6);
    assert_eq!(cacher.value(3), 6);
    assert_eq!(cacher.value(4), 8);
    assert_eq!(calls.get(), 2);
}

#[test]
fn workout_plans() {
    let calls = Cell::new(0u32);
    let slow = |num: u32| {
        calls.set(calls.get() + 1);
        num + 1
    };
    assert_eq!(
        generate_workout_with_closure_and_cacher(7, 5, slow),
        Workout::Strength { pushups: 8, situps: 8 }
    );
    assert_eq!(calls.get(), 1);
    assert_eq!(generate_workout_with_closure_and_cacher(25, 3, |n| n), Workout::Rest);
    assert_eq!(
        generate_workout_with_closure_and_cacher(30, 4, |n| n * 2),
        Workout::Run { minutes: 60 }
    );
}
