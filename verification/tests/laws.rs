use dynamic_filters::{
    create_filter, AndOr, BooleanFilter, BoxedCondition, Condition, Double, FieldRef, LeafFilter,
    NumberFilter, Truth, Value, ValueKind,
};

fn is_true(column: usize) -> Condition {
    Condition::leaf(
        FieldRef::new(column, ValueKind::Boolean).outer_joined(),
        LeafFilter::Boolean(BooleanFilter::IsTrue),
    )
    .unwrap()
}

fn group(and_or: AndOr, members: Vec<Condition>) -> Condition {
    match and_or {
        AndOr::And => Condition::And(members),
        AndOr::Or => Condition::Or(members),
    }
}

// Every row of three cells that hold true, false or nothing.
fn rows() -> Vec<Vec<Value>> {
    let cells = [Value::Boolean(true), Value::Boolean(false), Value::Null];
    let mut rows = Vec::new();
    for a in &cells {
        for b in &cells {
            for c in &cells {
                rows.push(vec![a.clone(), b.clone(), c.clone()]);
            }
        }
    }
    rows
}

fn truth_of(cell: &Value) -> Truth {
    match cell {
        Value::Boolean(true) => Truth::True,
        Value::Boolean(false) => Truth::False,
        _ => Truth::Unknown,
    }
}

#[test]
fn an_empty_group_compiles_to_nothing() {
    assert_eq!(create_filter(vec![], AndOr::And), None);
    assert_eq!(create_filter(vec![], AndOr::Or), None);
    assert_eq!(Condition::And(vec![]).to_boxed_condition(), None);
    assert_eq!(Condition::Or(vec![]).to_boxed_condition(), None);
    assert_eq!(create_filter(vec![Condition::And(vec![])], AndOr::And), None);
    assert_eq!(create_filter(vec![Condition::And(vec![])], AndOr::Or), None);
    assert_eq!(create_filter(vec![Condition::Or(vec![])], AndOr::And), None);
    assert_eq!(
        create_filter(
            vec![Condition::Or(vec![Condition::And(vec![]), Condition::Or(vec![])])],
            AndOr::And
        ),
        None
    );
}

#[test]
fn an_empty_group_inside_a_group_changes_nothing() {
    for and_or in [AndOr::And, AndOr::Or] {
        let alone = create_filter(vec![is_true(0)], and_or);
        assert!(alone.is_some());
        assert_eq!(create_filter(vec![is_true(0), Condition::And(vec![])], and_or), alone);
        assert_eq!(create_filter(vec![Condition::And(vec![]), is_true(0)], and_or), alone);
        assert_eq!(create_filter(vec![Condition::Or(vec![]), is_true(0)], and_or), alone);
        assert_eq!(create_filter(vec![group(and_or, vec![is_true(0)])], and_or), alone);

        let pair = create_filter(vec![is_true(0), is_true(1)], and_or);
        assert_ne!(pair, alone);
        assert_eq!(
            create_filter(
                vec![
                    Condition::Or(vec![]),
                    is_true(0),
                    Condition::And(vec![Condition::Or(vec![])]),
                    is_true(1),
                    Condition::And(vec![]),
                ],
                and_or
            ),
            pair
        );
    }
}

#[test]
fn grouping_within_one_mode_is_immaterial() {
    for and_or in [AndOr::And, AndOr::Or] {
        let right =
            create_filter(vec![is_true(0), group(and_or, vec![is_true(1), is_true(2)])], and_or)
                .unwrap();
        let left =
            create_filter(vec![group(and_or, vec![is_true(0), is_true(1)]), is_true(2)], and_or)
                .unwrap();
        let flat = create_filter(vec![is_true(0), is_true(1), is_true(2)], and_or).unwrap();
        assert_ne!(right, left);
        assert_eq!(left, flat);
        for row in rows() {
            assert_eq!(right.evaluate(&row), left.evaluate(&row));
            assert_eq!(right.evaluate(&row), flat.evaluate(&row));
        }
    }
}

#[test]
fn order_within_one_mode_is_immaterial() {
    for and_or in [AndOr::And, AndOr::Or] {
        let one = create_filter(vec![is_true(0), is_true(1), is_true(2)], and_or).unwrap();
        let other = create_filter(vec![is_true(2), is_true(0), is_true(1)], and_or).unwrap();
        let twice =
            create_filter(vec![is_true(1), is_true(2), is_true(1), is_true(0)], and_or).unwrap();
        assert_ne!(one, other);
        for row in rows() {
            assert_eq!(one.evaluate(&row), other.evaluate(&row));
            assert_eq!(one.evaluate(&row), twice.evaluate(&row));
        }
    }
}

#[test]
fn a_group_yields_the_three_valued_fold_of_its_members() {
    let all = create_filter(vec![is_true(0), is_true(1), is_true(2)], AndOr::And).unwrap();
    let any = create_filter(vec![is_true(0), is_true(1), is_true(2)], AndOr::Or).unwrap();
    for row in rows() {
        let (a, b, c) = (truth_of(&row[0]), truth_of(&row[1]), truth_of(&row[2]));
        assert_eq!(all.evaluate(&row), a.and(b).and(c));
        assert_eq!(any.evaluate(&row), a.or(b).or(c));
    }
}

#[test]
fn the_nesting_decides_the_structure() {
    let nested =
        create_filter(vec![is_true(0), Condition::And(vec![is_true(1), is_true(2)])], AndOr::Or)
            .unwrap();
    let distributed = create_filter(
        vec![
            Condition::Or(vec![is_true(0), is_true(1)]),
            Condition::Or(vec![is_true(0), is_true(2)]),
        ],
        AndOr::And,
    )
    .unwrap();
    assert_ne!(nested, distributed);
    for row in rows() {
        let (a, b, c) = (truth_of(&row[0]), truth_of(&row[1]), truth_of(&row[2]));
        assert_eq!(nested.evaluate(&row), a.or(b.and(c)));
        assert_eq!(distributed.evaluate(&row), a.or(b).and(a.or(c)));
        assert_eq!(nested.evaluate(&row), distributed.evaluate(&row));
    }
}

#[test]
fn moving_a_member_to_another_group_changes_the_meaning() {
    let nested =
        create_filter(vec![is_true(0), Condition::And(vec![is_true(1), is_true(2)])], AndOr::Or)
            .unwrap();
    let regrouped =
        create_filter(vec![Condition::Or(vec![is_true(0), is_true(1)]), is_true(2)], AndOr::And)
            .unwrap();
    let row = vec![Value::Boolean(true), Value::Boolean(true), Value::Boolean(false)];
    assert_eq!(nested.evaluate(&row), Truth::True);
    assert_eq!(regrouped.evaluate(&row), Truth::False);
    for row in rows() {
        let (a, b, c) = (truth_of(&row[0]), truth_of(&row[1]), truth_of(&row[2]));
        assert_eq!(nested.evaluate(&row), a.or(b.and(c)));
        assert_eq!(regrouped.evaluate(&row), a.or(b).and(c));
    }
}

// Columns of a row of a table left-joined with another.
const FLAG: usize = 0;
const JOINED_NUMBER: usize = 1;

fn flag(filter: BooleanFilter) -> Condition {
    Condition::leaf(FieldRef::new(FLAG, ValueKind::Boolean), LeafFilter::Boolean(filter)).unwrap()
}

fn joined_number(filter: NumberFilter<Double>) -> Condition {
    Condition::leaf(
        FieldRef::new(JOINED_NUMBER, ValueKind::Double).outer_joined(),
        LeafFilter::Double(filter),
    )
    .unwrap()
}

fn comparisons() -> Vec<NumberFilter<Double>> {
    let one = Double::from_bits(1.0f64.to_bits());
    vec![
        NumberFilter::Equal(one),
        NumberFilter::NotEqual(one),
        NumberFilter::GreaterThan(one),
        NumberFilter::LessThan(one),
    ]
}

#[test]
fn an_absent_value_beside_a_true_filter() {
    let row = vec![Value::Boolean(true), Value::Null];
    for filter in comparisons() {
        let any = create_filter(
            vec![joined_number(filter.clone()), flag(BooleanFilter::IsTrue)],
            AndOr::Or,
        )
        .unwrap();
        assert_eq!(any.evaluate(&row), Truth::True);
        let all =
            create_filter(vec![joined_number(filter), flag(BooleanFilter::IsTrue)], AndOr::And)
                .unwrap();
        assert_eq!(all.evaluate(&row), Truth::Unknown);
    }
    let present = create_filter(
        vec![joined_number(NumberFilter::IsNotNull), flag(BooleanFilter::IsTrue)],
        AndOr::And,
    )
    .unwrap();
    assert_eq!(present.evaluate(&row), Truth::False);
    let present = create_filter(
        vec![joined_number(NumberFilter::IsNotNull), flag(BooleanFilter::IsTrue)],
        AndOr::Or,
    )
    .unwrap();
    assert_eq!(present.evaluate(&row), Truth::True);
    let absent = create_filter(
        vec![joined_number(NumberFilter::IsNull), flag(BooleanFilter::IsTrue)],
        AndOr::And,
    )
    .unwrap();
    assert_eq!(absent.evaluate(&row), Truth::True);
}

#[test]
fn nested_groups_on_a_row_whose_join_is_absent() {
    let row = vec![Value::Boolean(true), Value::Null];

    // flag = true or (flag = true and flag = false), with the joined number compared too
    let kept = create_filter(
        vec![
            flag(BooleanFilter::IsTrue),
            Condition::And(vec![flag(BooleanFilter::IsTrue), flag(BooleanFilter::IsFalse)]),
            joined_number(NumberFilter::Equal(Double::from_bits(1.0f64.to_bits()))),
        ],
        AndOr::Or,
    )
    .unwrap();
    assert_eq!(kept.evaluate(&row), Truth::True);

    // (flag = true or flag = true) and flag = false
    let dropped = create_filter(
        vec![
            Condition::Or(vec![
                flag(BooleanFilter::IsTrue),
                flag(BooleanFilter::IsTrue),
                joined_number(NumberFilter::Equal(Double::from_bits(1.0f64.to_bits()))),
            ]),
            flag(BooleanFilter::IsFalse),
        ],
        AndOr::And,
    )
    .unwrap();
    assert_eq!(dropped.evaluate(&row), Truth::False);
}

#[test]
fn a_plain_condition_is_never_unknown_on_a_full_row() {
    let condition = create_filter(
        vec![
            flag(BooleanFilter::IsTrue),
            Condition::Or(vec![flag(BooleanFilter::IsFalse), flag(BooleanFilter::IsNull)]),
        ],
        AndOr::And,
    )
    .unwrap();
    assert!(matches!(condition, BoxedCondition::Bool(_)));
    for cell in [Value::Boolean(true), Value::Boolean(false)] {
        assert_ne!(condition.evaluate(&vec![cell, Value::Null]), Truth::Unknown);
    }
}
