use rustsimplegui::callbacks::{
    add_callback0, add_callback1_bool, eval_callback0, eval_callback1, eval_callback1_bool,
    get_callback0, get_callback1_bool, one_shot, CallbackTable,
};
use std::cell::Cell;
use std::rc::Rc;

fn counter(hits: &Rc<Cell<u32>>, step: u32) -> Box<dyn Fn()> {
    let hits = hits.clone();
    Box::new(move || hits.set(hits.get() + step))
}

#[test]
fn a_fired_callback_stays_armed() {
    let hits = Rc::new(Cell::new(0));
    let mut table: CallbackTable<Box<dyn Fn()>> = CallbackTable::new();
    add_callback0(&mut table, ".r1", counter(&hits, 1));
    eval_callback0(&mut table, ".r1");
    assert_eq!(1, hits.get());
    assert!(table.contains_key(".r1"));
    eval_callback0(&mut table, ".r1");
    eval_callback0(&mut table, ".r1");
    assert_eq!(3, hits.get());
    assert!(table.contains_key(".r1"));
}

#[test]
fn a_deferred_action_fires_once() {
    let hits = Rc::new(Cell::new(0));
    let mut table: CallbackTable<Box<dyn Fn()>> = CallbackTable::new();
    add_callback0(&mut table, "after7", counter(&hits, 1));
    assert!(table.contains_key("after7"));
    eval_callback0(&mut table, "after7");
    assert_eq!(1, hits.get());
    assert!(!table.contains_key("after7"));
    eval_callback0(&mut table, "after7");
    assert_eq!(1, hits.get());
}

#[test]
fn one_shot_keys_hold_after() {
    assert!(one_shot("after"));
    assert!(one_shot("::after12"));
    assert!(one_shot(".r1-afterwards"));
    assert!(!one_shot(".r1"));
    assert!(!one_shot("afte"));
    assert!(!one_shot("aft er"));
    assert!(!one_shot(""));
}

#[test]
fn firing_an_unknown_key_does_nothing() {
    let hits = Rc::new(Cell::new(0));
    let mut table: CallbackTable<Box<dyn Fn()>> = CallbackTable::new();
    add_callback0(&mut table, ".r1", counter(&hits, 1));
    eval_callback0(&mut table, ".r2");
    assert_eq!(0, hits.get());
    assert!(table.contains_key(".r1"));
    assert!(!table.contains_key(".r2"));
}

#[test]
fn a_key_holds_one_handler() {
    let hits = Rc::new(Cell::new(0));
    let mut table: CallbackTable<Box<dyn Fn()>> = CallbackTable::new();
    add_callback0(&mut table, ".r1", counter(&hits, 1));
    add_callback0(&mut table, ".r2", counter(&hits, 100));
    add_callback0(&mut table, ".r1", counter(&hits, 10));
    eval_callback0(&mut table, ".r1");
    assert_eq!(10, hits.get());
    eval_callback0(&mut table, ".r2");
    assert_eq!(110, hits.get());
}

#[test]
fn a_taken_handler_is_gone() {
    let hits = Rc::new(Cell::new(0));
    let mut table: CallbackTable<Box<dyn Fn()>> = CallbackTable::new();
    add_callback0(&mut table, ".r1", counter(&hits, 1));
    add_callback0(&mut table, ".r2", counter(&hits, 10));
    add_callback0(&mut table, ".r3", counter(&hits, 100));
    let taken = get_callback0(&mut table, ".r1").unwrap();
    taken();
    assert_eq!(1, hits.get());
    assert!(!table.contains_key(".r1"));
    assert!(table.contains_key(".r2"));
    assert!(table.contains_key(".r3"));
    assert!(get_callback0(&mut table, ".r1").is_none());
    eval_callback0(&mut table, ".r3");
    eval_callback0(&mut table, ".r2");
    assert_eq!(111, hits.get());
}

#[test]
fn a_state_handler_gets_the_state_and_stays_armed() {
    let seen: Rc<Cell<Option<bool>>> = Rc::new(Cell::new(None));
    let out = seen.clone();
    let mut table: CallbackTable<Box<dyn Fn(bool)>> = CallbackTable::new();
    add_callback1_bool(&mut table, ".r5", Box::new(move |on| out.set(Some(on))));
    eval_callback1_bool(&mut table, ".r5", true);
    assert_eq!(Some(true), seen.get());
    eval_callback1_bool(&mut table, ".r5", false);
    assert_eq!(Some(false), seen.get());
    assert!(table.contains_key(".r5"));
    assert!(get_callback1_bool(&mut table, ".r5").is_some());
    assert!(!table.contains_key(".r5"));
}

#[test]
fn a_deferred_state_handler_fires_once() {
    let seen: Rc<Cell<u32>> = Rc::new(Cell::new(0));
    let out = seen.clone();
    let mut table: CallbackTable<Box<dyn Fn(bool)>> = CallbackTable::new();
    add_callback1_bool(&mut table, "after1", Box::new(move |_| out.set(out.get() + 1)));
    eval_callback1_bool(&mut table, "after1", true);
    assert_eq!(1, seen.get());
    assert!(!table.contains_key("after1"));
    eval_callback1_bool(&mut table, "after1", true);
    assert_eq!(1, seen.get());
}

#[test]
fn a_deferred_value_handler_fires_once() {
    let seen: Rc<Cell<f64>> = Rc::new(Cell::new(0.0));
    let out = seen.clone();
    let mut table: CallbackTable<Box<dyn Fn(f64)>> = CallbackTable::new();
    table.add(".r7-after", Box::new(move |value| out.set(out.get() + value)));
    eval_callback1(&mut table, ".r7-after", 0.5);
    assert_eq!(0.5, seen.get());
    assert!(!table.contains_key(".r7-after"));
    eval_callback1(&mut table, ".r7-after", 0.5);
    assert_eq!(0.5, seen.get());
}

#[test]
fn a_value_handler_gets_the_value() {
    let seen: Rc<Cell<f64>> = Rc::new(Cell::new(0.0));
    let out = seen.clone();
    let mut table: CallbackTable<Box<dyn Fn(f64)>> = CallbackTable::new();
    table.add(".r7", Box::new(move |value| out.set(value)));
    eval_callback1(&mut table, ".r7", 0.25);
    assert_eq!(0.25, seen.get());
    eval_callback1(&mut table, ".r7", 0.75);
    assert_eq!(0.75, seen.get());
    assert!(table.contains_key(".r7"));
}

#[test]
fn an_event_handler_gets_the_event() {
    let seen: Rc<Cell<(i64, i64)>> = Rc::new(Cell::new((0, 0)));
    let out = seen.clone();
    let mut table: CallbackTable<Box<dyn Fn((i64, i64, String))>> = CallbackTable::new();
    table.add(".r2<Button-1>", Box::new(move |event| out.set((event.0, event.1))));
    eval_callback1(&mut table, ".r2<Button-1>", (10, 20, "a".to_string()));
    assert_eq!((10, 20), seen.get());
    assert!(table.contains_key(".r2<Button-1>"));
    assert!(table.take(".r2<Button-1>").is_some());
    assert!(table.take(".r2<Button-1>").is_none());
}
