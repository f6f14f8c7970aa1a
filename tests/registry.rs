use std::rc::Rc;

use luminos_container::container::Container;
use luminos_container::lifecycle::{boot_plan, BootStep, Phase};

type Core = Container<u64, Rc<String>, String>;

#[test]
fn new_container_is_empty() {
    let c: Core = Container::new();
    assert!(c.factory(1).is_none());
    assert!(c.cached(1).is_none());
    assert!(c.provider_list().is_empty());
}

#[test]
fn bind_last_write_wins() {
    let mut c: Core = Container::new();
    c.bind(5, 10);
    c.bind(5, 20);
    c.bind(6, 30);
    assert_eq!(c.factory(5), Some(&20));
    assert_eq!(c.factory(6), Some(&30));
    assert!(c.cached(5).is_none());
}

#[test]
fn store_first_writer_wins() {
    let mut c: Core = Container::new();
    assert!(c.store(4, Rc::new("first".to_string())));
    assert!(!c.store(4, Rc::new("second".to_string())));
    assert!(!c.singleton(4, Rc::new("third".to_string())));
    assert_eq!(c.cached(4).unwrap().as_str(), "first");
}

#[test]
fn providers_keep_insertion_order() {
    let mut c: Core = Container::new();
    c.add_provider("a".to_string());
    c.add_providers(vec!["b".to_string(), "c".to_string()]);
    let c = c.with_provider("d".to_string());
    assert_eq!(c.provider_list(), &vec!["a", "b", "c", "d"]);
}

#[test]
fn boot_plan_of_no_providers_is_empty() {
    assert!(boot_plan(0).is_empty());
}

#[test]
fn boot_plan_registers_all_before_booting() {
    let steps = boot_plan(2);
    assert_eq!(
        steps,
        vec![
            BootStep { phase: Phase::Register, index: 0 },
            BootStep { phase: Phase::Register, index: 1 },
            BootStep { phase: Phase::Boot, index: 0 },
            BootStep { phase: Phase::Boot, index: 1 },
        ]
    );
}

#[test]
fn booting_two_providers_runs_callbacks_in_order() {
    let mut c: Core = Container::new();
    c.add_provider("P1".to_string());
    c.add_provider("P2".to_string());
    let mut log: Vec<String> = Vec::new();
    for step in c.boot_plan() {
        let name = &c.provider_list()[step.index];
        match step.phase {
            Phase::Register => log.push(format!("{}.register", name)),
            Phase::Boot => log.push(format!("{}.boot", name)),
        }
    }
    assert_eq!(log, vec!["P1.register", "P2.register", "P1.boot", "P2.boot"]);
}

#[test]
fn booting_twice_repeats_the_sequence() {
    let mut c: Core = Container::new();
    c.add_provider("P1".to_string());
    let first = c.boot_plan();
    let second = c.boot_plan();
    assert_eq!(first, second);
    assert_eq!(first.len(), 2);
}
