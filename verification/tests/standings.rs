use dreamstack::standings::CompanyStandings;

#[test]
fn standings_are_found_again_by_name() {
    let mut standings = CompanyStandings::new();
    assert_eq!(standings.position("employer0"), None);
    assert_eq!(standings.slot_for("employer0"), (0, true));
    assert_eq!(standings.slot_for("employer0"), (0, false));
    assert_eq!(standings.slot_for("employer1"), (1, true));
    assert_eq!(standings.position("employer1"), Some(1));
    assert_eq!(standings.position("employer0"), Some(0));
    assert_eq!(standings.position("unknown"), None);
    assert_eq!(standings.len(), 2);
    assert_eq!(standings.name(1), "employer1");
}

#[test]
fn clears_company_standings() {
    let mut standings = CompanyStandings::new();
    standings.slot_for("employer0");
    standings.clear();
    assert_eq!(standings.position("employer0"), None);
    assert_eq!(standings.len(), 0);
}

#[test]
fn restored_standings_find_the_first_of_a_name() {
    let standings = CompanyStandings::from_names(vec![
        "a".to_string(),
        "b".to_string(),
        "a".to_string(),
    ]);
    assert_eq!(standings.position("a"), Some(0));
    assert_eq!(standings.position("b"), Some(1));
}
