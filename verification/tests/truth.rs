use dynamic_filters::Truth;

const ALL: [Truth; 3] = [Truth::True, Truth::False, Truth::Unknown];

#[test]
fn conjunction_follows_the_three_valued_table() {
    assert_eq!(Truth::True.and(Truth::True), Truth::True);
    assert_eq!(Truth::True.and(Truth::False), Truth::False);
    assert_eq!(Truth::True.and(Truth::Unknown), Truth::Unknown);
    assert_eq!(Truth::False.and(Truth::True), Truth::False);
    assert_eq!(Truth::False.and(Truth::False), Truth::False);
    assert_eq!(Truth::False.and(Truth::Unknown), Truth::False);
    assert_eq!(Truth::Unknown.and(Truth::True), Truth::Unknown);
    assert_eq!(Truth::Unknown.and(Truth::False), Truth::False);
    assert_eq!(Truth::Unknown.and(Truth::Unknown), Truth::Unknown);
}

#[test]
fn disjunction_follows_the_three_valued_table() {
    assert_eq!(Truth::True.or(Truth::True), Truth::True);
    assert_eq!(Truth::True.or(Truth::False), Truth::True);
    assert_eq!(Truth::True.or(Truth::Unknown), Truth::True);
    assert_eq!(Truth::False.or(Truth::True), Truth::True);
    assert_eq!(Truth::False.or(Truth::False), Truth::False);
    assert_eq!(Truth::False.or(Truth::Unknown), Truth::Unknown);
    assert_eq!(Truth::Unknown.or(Truth::True), Truth::True);
    assert_eq!(Truth::Unknown.or(Truth::False), Truth::Unknown);
    assert_eq!(Truth::Unknown.or(Truth::Unknown), Truth::Unknown);
}

#[test]
fn negation_leaves_unknown_as_it_is() {
    assert_eq!(Truth::True.not(), Truth::False);
    assert_eq!(Truth::False.not(), Truth::True);
    assert_eq!(Truth::Unknown.not(), Truth::Unknown);
}

#[test]
fn only_true_keeps_a_row() {
    assert!(Truth::True.is_true());
    assert!(!Truth::False.is_true());
    assert!(!Truth::Unknown.is_true());
}

#[test]
fn a_boolean_is_a_definite_truth() {
    assert_eq!(Truth::from_bool(true), Truth::True);
    assert_eq!(Truth::from_bool(false), Truth::False);
}

#[test]
fn de_morgan_holds_in_three_values() {
    for a in ALL {
        for b in ALL {
            assert_eq!(a.and(b).not(), a.not().or(b.not()));
            assert_eq!(a.or(b).not(), a.not().and(b.not()));
        }
    }
}

#[test]
fn disjunction_distributes_over_conjunction() {
    for a in ALL {
        for b in ALL {
            for c in ALL {
                assert_eq!(a.or(b.and(c)), a.or(b).and(a.or(c)));
                assert_eq!(a.and(b.or(c)), a.and(b).or(a.and(c)));
            }
        }
    }
}
