use singleton::{OnceSlot, OverwriteSlot};

#[derive(Debug, Clone, PartialEq)]
struct Config {
    level: u32,
    name: String,
}

fn config(level: u32, name: &str) -> Config {
    Config { level, name: name.to_string() }
}

#[test]
fn once_slot_access_before_initialize_fails() {
    let mut s: OnceSlot<Config> = OnceSlot::new("Config");
    assert_eq!(s.r().err().unwrap(), "Singleton Config not initialized!");
    assert_eq!(s.w().err().unwrap(), "Singleton Config not initialized!");
}

#[test]
fn once_slot_first_initialize_wins() {
    let mut s = OnceSlot::new("Config");
    s.initialize(config(1, "first"));
    assert_eq!(*s.w().ok().unwrap(), config(1, "first"));
    s.initialize(config(2, "second"));
    s.initialize(config(3, "third"));
    assert_eq!(*s.r().ok().unwrap(), config(1, "first"));
}

#[test]
fn once_slot_writes_are_seen_by_readers() {
    let mut s = OnceSlot::new("Config");
    s.initialize(config(1, "a"));
    s.w().ok().unwrap().level = 9;
    assert_eq!(s.r().ok().unwrap().level, 9);
    s.initialize(config(4, "b"));
    assert_eq!(*s.r().ok().unwrap(), config(9, "a"));
}

#[test]
fn once_slot_shared_handles_coexist() {
    let mut s = OnceSlot::new("Config");
    s.initialize(config(5, "x"));
    let a = s.r().ok().unwrap();
    let b = s.r().ok().unwrap();
    assert_eq!(a, b);
    assert_eq!(a.level, 5);
}

#[test]
fn overwrite_slot_yields_what_was_stored() {
    let mut s = OverwriteSlot::new();
    s.initialize(config(1, "a"));
    assert_eq!(*s.g(), config(1, "a"));
    s.g().level = 7;
    s.g().name.push('!');
    assert_eq!(*s.g(), config(7, "a!"));
}

#[test]
fn overwrite_slot_last_initialize_wins() {
    let mut s = OverwriteSlot::new();
    s.initialize(config(1, "v1"));
    s.initialize(config(2, "v2"));
    assert_eq!(*s.g(), config(2, "v2"));
}

#[test]
fn slots_of_distinct_types_are_independent() {
    let mut a: OnceSlot<u32> = OnceSlot::new("A");
    let mut b: OnceSlot<u64> = OnceSlot::new("B");
    a.initialize(1);
    assert_eq!(*a.r().ok().unwrap(), 1);
    assert_eq!(b.r().err().unwrap(), "Singleton B not initialized!");
    b.initialize(2);
    *a.w().ok().unwrap() = 10;
    assert_eq!(*b.r().ok().unwrap(), 2);
    assert_eq!(*a.r().ok().unwrap(), 10);
    let mut c: OverwriteSlot<u32> = OverwriteSlot::new();
    let mut d: OverwriteSlot<u32> = OverwriteSlot::new();
    c.initialize(3);
    d.initialize(4);
    c.initialize(5);
    assert_eq!(*c.g(), 5);
    assert_eq!(*d.g(), 4);
}
