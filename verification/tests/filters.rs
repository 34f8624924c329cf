use dynamic_filters::filters::is_listed;
use dynamic_filters::{
    BooleanFilter, Double, LeafFilter, NumberFilter, StringFilter, Truth, Value, ValueKind,
};

fn text(value: &str) -> String {
    value.to_string()
}

#[test]
fn number_filters_on_a_value() {
    let stored: i32 = 5;
    assert_eq!(NumberFilter::Equal(5).evaluate(Some(&stored)), Truth::True);
    assert_eq!(NumberFilter::Equal(6).evaluate(Some(&stored)), Truth::False);
    assert_eq!(NumberFilter::NotEqual(5).evaluate(Some(&stored)), Truth::False);
    assert_eq!(NumberFilter::NotEqual(6).evaluate(Some(&stored)), Truth::True);
    assert_eq!(NumberFilter::GreaterThan(4).evaluate(Some(&stored)), Truth::True);
    assert_eq!(NumberFilter::GreaterThan(5).evaluate(Some(&stored)), Truth::False);
    assert_eq!(NumberFilter::LessThan(6).evaluate(Some(&stored)), Truth::True);
    assert_eq!(NumberFilter::LessThan(5).evaluate(Some(&stored)), Truth::False);
    assert_eq!(NumberFilter::<i32>::IsNull.evaluate(Some(&stored)), Truth::False);
    assert_eq!(NumberFilter::<i32>::IsNotNull.evaluate(Some(&stored)), Truth::True);
}

#[test]
fn number_filters_at_the_ends_of_the_range() {
    assert_eq!(NumberFilter::GreaterThan(i32::MIN).evaluate(Some(&i32::MAX)), Truth::True);
    assert_eq!(NumberFilter::LessThan(i32::MIN).evaluate(Some(&i32::MAX)), Truth::False);
    assert_eq!(NumberFilter::Equal(i32::MIN).evaluate(Some(&i32::MIN)), Truth::True);
    assert_eq!(NumberFilter::LessThan(0).evaluate(Some(&-1)), Truth::True);
}

#[test]
fn number_filters_on_an_absent_value() {
    assert_eq!(NumberFilter::Equal(5).evaluate(None), Truth::Unknown);
    assert_eq!(NumberFilter::NotEqual(5).evaluate(None), Truth::Unknown);
    assert_eq!(NumberFilter::GreaterThan(5).evaluate(None), Truth::Unknown);
    assert_eq!(NumberFilter::LessThan(5).evaluate(None), Truth::Unknown);
    assert_eq!(NumberFilter::<i32>::IsNull.evaluate(None), Truth::True);
    assert_eq!(NumberFilter::<i32>::IsNotNull.evaluate(None), Truth::False);
}

#[test]
fn string_filters_on_a_value() {
    let stored = text("orange");
    assert_eq!(StringFilter::Equal(text("orange")).evaluate(Some(&stored)), Truth::True);
    assert_eq!(StringFilter::Equal(text("Orange")).evaluate(Some(&stored)), Truth::False);
    assert_eq!(StringFilter::NotEqual(text("orange")).evaluate(Some(&stored)), Truth::False);
    assert_eq!(StringFilter::NotEqual(text("grey")).evaluate(Some(&stored)), Truth::True);
    assert_eq!(StringFilter::Like(text("%ang%")).evaluate(Some(&stored)), Truth::True);
    assert_eq!(StringFilter::Like(text("ang")).evaluate(Some(&stored)), Truth::False);
    let colors = vec![text("orange"), text("purple")];
    assert_eq!(StringFilter::In(colors.clone()).evaluate(Some(&stored)), Truth::True);
    assert_eq!(StringFilter::In(colors).evaluate(Some(&text("grey"))), Truth::False);
    assert_eq!(StringFilter::In(vec![]).evaluate(Some(&stored)), Truth::False);
    assert_eq!(StringFilter::IsNull.evaluate(Some(&stored)), Truth::False);
    assert_eq!(StringFilter::IsNotNull.evaluate(Some(&stored)), Truth::True);
    assert_eq!(StringFilter::IsNotNull.evaluate(Some(&text(""))), Truth::True);
}

#[test]
fn string_filters_on_an_absent_value() {
    assert_eq!(StringFilter::Equal(text("orange")).evaluate(None), Truth::Unknown);
    assert_eq!(StringFilter::NotEqual(text("orange")).evaluate(None), Truth::Unknown);
    assert_eq!(StringFilter::Like(text("%")).evaluate(None), Truth::Unknown);
    assert_eq!(StringFilter::In(vec![text("orange")]).evaluate(None), Truth::Unknown);
    assert_eq!(StringFilter::In(vec![]).evaluate(None), Truth::False);
    assert_eq!(StringFilter::IsNull.evaluate(None), Truth::True);
    assert_eq!(StringFilter::IsNotNull.evaluate(None), Truth::False);
}

#[test]
fn membership_looks_at_every_listed_text() {
    let items = vec![text("a"), text("b"), text("c")];
    assert!(is_listed(&items, &text("a")));
    assert!(is_listed(&items, &text("c")));
    assert!(!is_listed(&items, &text("d")));
    assert!(!is_listed(&items, &text("")));
    assert!(!is_listed(&vec![], &text("a")));
    assert!(is_listed(&vec![text("")], &text("")));
}

#[test]
fn boolean_filters_on_a_value_and_on_none() {
    assert_eq!(BooleanFilter::IsTrue.evaluate(Some(true)), Truth::True);
    assert_eq!(BooleanFilter::IsTrue.evaluate(Some(false)), Truth::False);
    assert_eq!(BooleanFilter::IsTrue.evaluate(None), Truth::Unknown);
    assert_eq!(BooleanFilter::IsFalse.evaluate(Some(true)), Truth::False);
    assert_eq!(BooleanFilter::IsFalse.evaluate(Some(false)), Truth::True);
    assert_eq!(BooleanFilter::IsFalse.evaluate(None), Truth::Unknown);
    assert_eq!(BooleanFilter::IsNull.evaluate(Some(true)), Truth::False);
    assert_eq!(BooleanFilter::IsNull.evaluate(None), Truth::True);
    assert_eq!(BooleanFilter::IsNotNull.evaluate(Some(false)), Truth::True);
    assert_eq!(BooleanFilter::IsNotNull.evaluate(None), Truth::False);
}

#[test]
fn a_filter_knows_its_kind() {
    assert_eq!(LeafFilter::Integer(NumberFilter::IsNull).kind_of(), ValueKind::Integer);
    assert_eq!(LeafFilter::Double(NumberFilter::IsNull).kind_of(), ValueKind::Double);
    assert_eq!(LeafFilter::Text(StringFilter::In(vec![])).kind_of(), ValueKind::Text);
    assert_eq!(LeafFilter::Boolean(BooleanFilter::IsTrue).kind_of(), ValueKind::Boolean);
}

#[test]
fn a_filter_reads_a_cell_of_its_kind() {
    let filter = LeafFilter::Integer(NumberFilter::Equal(7));
    assert_eq!(filter.evaluate(&Value::Integer(7)), Truth::True);
    assert_eq!(filter.evaluate(&Value::Integer(8)), Truth::False);
    assert_eq!(filter.evaluate(&Value::Null), Truth::Unknown);

    let filter = LeafFilter::Double(NumberFilter::LessThan(Double::from_bits(2.5f64.to_bits())));
    assert_eq!(filter.evaluate(&Value::Double(Double::from_bits(1.0f64.to_bits()))), Truth::True);
    assert_eq!(filter.evaluate(&Value::Double(Double::from_bits(3.0f64.to_bits()))), Truth::False);
    assert_eq!(filter.evaluate(&Value::Null), Truth::Unknown);

    let filter = LeafFilter::Text(StringFilter::Like(text("4._")));
    assert_eq!(filter.evaluate(&Value::Text(text("4.2"))), Truth::True);
    assert_eq!(filter.evaluate(&Value::Text(text("4.25"))), Truth::False);
    assert_eq!(filter.evaluate(&Value::Null), Truth::Unknown);

    let filter = LeafFilter::Boolean(BooleanFilter::IsFalse);
    assert_eq!(filter.evaluate(&Value::Boolean(false)), Truth::True);
    assert_eq!(filter.evaluate(&Value::Null), Truth::Unknown);
}

#[test]
fn a_cell_of_another_kind_reads_as_absent() {
    let filter = LeafFilter::Integer(NumberFilter::Equal(7));
    assert_eq!(filter.evaluate(&Value::Text(text("7"))), Truth::Unknown);
    let filter = LeafFilter::Integer(NumberFilter::IsNull);
    assert_eq!(filter.evaluate(&Value::Boolean(true)), Truth::True);
    let filter = LeafFilter::Boolean(BooleanFilter::IsNotNull);
    assert_eq!(filter.evaluate(&Value::Integer(1)), Truth::False);
}
