use mod_registry::terminal::TerminalOutputState;

#[test]
fn append_creates_entry_then_accumulates() {
    let mut term = TerminalOutputState::new();
    let id = String::from("mod-1");
    assert!(term.get(&id).is_none());
    term.append(&id, "booting\n");
    term.append(&id, "ready\n");
    assert_eq!(term.get(&id).unwrap(), "booting\nready\n");
}

#[test]
fn entries_are_independent_per_mod() {
    let mut term = TerminalOutputState::new();
    term.append(&String::from("a"), "alpha");
    term.append(&String::from("b"), "beta");
    assert_eq!(term.get(&String::from("a")).unwrap(), "alpha");
    assert_eq!(term.get(&String::from("b")).unwrap(), "beta");
}

#[test]
fn clear_forgets_one_entry() {
    let mut term = TerminalOutputState::new();
    term.append(&String::from("a"), "alpha");
    term.append(&String::from("b"), "beta");
    term.clear(&String::from("a"));
    assert!(term.get(&String::from("a")).is_none());
    assert_eq!(term.get(&String::from("b")).unwrap(), "beta");
}

#[test]
fn clear_of_absent_entry_is_harmless() {
    let mut term = TerminalOutputState::new();
    term.clear(&String::from("ghost"));
    assert!(term.get(&String::from("ghost")).is_none());
}
