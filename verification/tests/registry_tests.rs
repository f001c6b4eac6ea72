use framework::registry::{Holds, Registry, Resource};

#[derive(Debug, PartialEq)]
struct Counter {
    n: i32,
}

#[derive(Debug, PartialEq)]
struct Label {
    text: String,
}

enum Stored {
    Counter(Counter),
    Label(Label),
}

impl Resource for Stored {
    fn type_key(&self) -> u64 {
        self.key()
    }

    fn key(&self) -> u64 {
        match self {
            Stored::Counter(_) => 1,
            Stored::Label(_) => 2,
        }
    }
}

impl Holds<Counter> for Stored {
    fn key_of() -> u64 {
        1
    }

    fn wrapped(t: Counter) -> Self {
        Stored::Counter(t)
    }

    fn held(&self) -> Counter {
        unreachable!()
    }

    fn wrapped_is_held(_t: Counter) {
    }

    fn slot_key() -> u64 {
        1
    }

    fn wrap(t: Counter) -> Self {
        Stored::Counter(t)
    }

    fn peek(&self) -> Option<&Counter> {
        match self {
            Stored::Counter(c) => Some(c),
            _ => None,
        }
    }

    fn peek_mut(&mut self) -> Option<&mut Counter> {
        match self {
            Stored::Counter(c) => Some(c),
            _ => None,
        }
    }
}

impl Holds<Label> for Stored {
    fn key_of() -> u64 {
        2
    }

    fn wrapped(t: Label) -> Self {
        Stored::Label(t)
    }

    fn held(&self) -> Label {
        unreachable!()
    }

    fn wrapped_is_held(_t: Label) {
    }

    fn slot_key() -> u64 {
        2
    }

    fn wrap(t: Label) -> Self {
        Stored::Label(t)
    }

    fn peek(&self) -> Option<&Label> {
        match self {
            Stored::Label(c) => Some(c),
            _ => None,
        }
    }

    fn peek_mut(&mut self) -> Option<&mut Label> {
        match self {
            Stored::Label(c) => Some(c),
            _ => None,
        }
    }
}

#[test]
fn registry_add_then_get_returns_the_value() {
    let mut r: Registry<Stored> = Registry::new();
    assert!(r.get_as::<Counter>().is_none());
    assert!(!r.has(1));
    r.add(Stored::Counter(Counter { n: 7 }));
    assert!(r.has(1));
    assert_eq!(r.get_as::<Counter>(), Some(&Counter { n: 7 }));
    assert!(r.get_as::<Label>().is_none());
}

#[test]
fn registry_add_of_another_type_keeps_the_value() {
    let mut r: Registry<Stored> = Registry::new();
    r.add(Stored::Counter(Counter { n: 7 }));
    r.add(Stored::Label(Label { text: "x".to_string() }));
    assert_eq!(r.get_as::<Counter>(), Some(&Counter { n: 7 }));
    assert_eq!(r.get_as::<Label>(), Some(&Label { text: "x".to_string() }));
}

#[test]
fn registry_add_of_the_same_type_overwrites() {
    let mut r: Registry<Stored> = Registry::new();
    r.add(Stored::Counter(Counter { n: 7 }));
    r.add(Stored::Counter(Counter { n: 8 }));
    assert_eq!(r.get_as::<Counter>(), Some(&Counter { n: 8 }));
}

#[test]
fn registry_get_mut_changes_only_that_value() {
    let mut r: Registry<Stored> = Registry::new();
    r.add(Stored::Counter(Counter { n: 0 }));
    r.add(Stored::Label(Label { text: "x".to_string() }));
    r.get_mut_as::<Counter>().unwrap().n = 42;
    assert_eq!(r.get_as::<Counter>(), Some(&Counter { n: 42 }));
    assert_eq!(r.get_as::<Label>(), Some(&Label { text: "x".to_string() }));
    assert!(r.get(3).is_none());
    assert!(r.get(1).is_some());
}
