use moos_sys::{this, to_app, MoosApp, Phase, Registry};

struct Demo {
    value: i32,
}

#[test]
fn a_new_registry_has_no_live_slot() {
    let registry: Registry<Demo> = Registry::new();
    assert!(!registry.contains(0));
    assert!(!registry.contains(usize::MAX));
}

#[test]
fn slots_are_handed_out_in_order() {
    let mut registry: Registry<Demo> = Registry::new();
    assert_eq!(registry.insert(Demo { value: 10 }), 0);
    assert_eq!(registry.insert(Demo { value: 20 }), 1);
    assert_eq!(registry.insert(Demo { value: 30 }), 2);
    assert!(registry.contains(0));
    assert!(registry.contains(2));
    assert!(!registry.contains(3));
}

#[test]
fn the_state_is_recovered_from_its_slot() {
    let mut registry: Registry<Demo> = Registry::new();
    let a = registry.insert(Demo { value: 10 });
    let b = registry.insert(Demo { value: 20 });
    assert_eq!(this(&mut registry, a).value, 10);
    assert_eq!(this(&mut registry, b).value, 20);
}

#[test]
fn the_state_is_changed_in_place() {
    let mut registry: Registry<Demo> = Registry::new();
    let a = registry.insert(Demo { value: 0 });
    let b = registry.insert(Demo { value: 100 });
    this(&mut registry, a).value += 1;
    this(&mut registry, a).value += 1;
    assert_eq!(this(&mut registry, a).value, 2);
    assert_eq!(this(&mut registry, b).value, 100);
}

#[test]
fn a_removed_slot_is_dead_for_good() {
    let mut registry: Registry<Demo> = Registry::new();
    let a = registry.insert(Demo { value: 1 });
    assert_eq!(registry.remove(a).map(|d| d.value), Some(1));
    assert!(!registry.contains(a));
    assert!(registry.remove(a).is_none());
    let b = registry.insert(Demo { value: 2 });
    assert_ne!(a, b);
    assert!(!registry.contains(a));
    assert!(registry.contains(b));
    assert!(registry.remove(7).is_none());
}

#[test]
fn the_handle_is_obtained_from_its_slot() {
    let mut apps: Registry<MoosApp> = Registry::new();
    let base = apps.insert(MoosApp::new().0);
    let other = apps.insert(MoosApp::new().0);
    to_app(&mut apps, base).set_target(5);
    assert_eq!(to_app(&mut apps, base).target(), Some(5));
    assert_eq!(to_app(&mut apps, other).target(), None);
    to_app(&mut apps, base).run("eat", "attack.moos");
    assert_eq!(to_app(&mut apps, base).phase(), Phase::Running);
    assert_eq!(to_app(&mut apps, other).phase(), Phase::Created);
}
