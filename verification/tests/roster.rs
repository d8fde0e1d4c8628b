use pets::roster::Roster;

#[test]
fn manager_adopt_and_get() {
    let mut m: Roster<String> = Roster::new();
    assert!(m.adopt("alice", "Fluffy".to_string()));
    let p = m.get("alice").unwrap();
    assert_eq!(p, "Fluffy");
    assert!(m.get("bob").is_none());
}

#[test]
fn manager_adopt_idempotent() {
    let mut m: Roster<String> = Roster::new();
    m.adopt("alice", "Fluffy".to_string());
    // should not overwrite
    assert!(!m.adopt("alice", "Spot".to_string()));
    let p = m.get("alice").unwrap();
    assert_eq!(p, "Fluffy");
}

#[test]
fn manager_players() {
    let mut m: Roster<String> = Roster::new();
    m.adopt("alice", "Fluffy".to_string());
    m.adopt("bob", "Spot".to_string());
    let mut players = m.players();
    players.sort();
    assert_eq!(players, vec!["alice", "bob"]);
}

#[test]
fn players_in_adoption_order_without_repeats() {
    let mut m: Roster<u32> = Roster::new();
    assert!(m.players().is_empty());
    m.adopt("carol", 1);
    m.adopt("alice", 2);
    m.adopt("carol", 3);
    assert_eq!(m.players(), vec!["carol", "alice"]);
    assert_eq!(m.get("carol"), Some(&1));
}

#[test]
fn pets_change_in_place() {
    let mut m: Roster<u32> = Roster::new();
    m.adopt("alice", 1);
    m.adopt("bob", 2);
    *m.get_mut("alice").unwrap() = 5;
    assert!(m.get_mut("nobody").is_none());
    assert_eq!(m.get("alice"), Some(&5));
    assert_eq!(m.get("bob"), Some(&2));
    assert_eq!(m.players(), vec!["alice", "bob"]);
}
