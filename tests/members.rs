use atelier_core::identity::{Identifier, ShapeID};
use atelier_core::member::Member;
use atelier_core::values::NodeValue;

#[test]
fn identifiers_compare_by_text() {
    assert_eq!(Identifier::new("a"), Identifier::new("a"));
    assert_ne!(Identifier::new("a"), Identifier::new("b"));
    assert_eq!(ShapeID::new("ns#A").clone(), ShapeID::new("ns#A"));
    assert_ne!(ShapeID::new("ns#A"), ShapeID::new("ns#B"));
    assert_eq!(Identifier::new("name").as_str(), "name");
    assert_eq!(ShapeID::new("ns#Shape").as_str(), "ns#Shape");
}

#[test]
fn member_new_is_absent() {
    let m = Member::new(Identifier::new("input"));
    assert_eq!(m.name(), &Identifier::new("input"));
    assert!(m.value().is_none());
    assert_eq!(m.reference(), None);
}

#[test]
fn member_set_and_unset_value() {
    let mut m = Member::new(Identifier::new("version"));
    m.set_value(NodeValue::String("1.0".to_string()));
    assert_eq!(m.text(), "1.0");
    m.unset_value();
    assert!(m.value().is_none());
    m.set_reference(ShapeID::new("ns#A"));
    assert_eq!(m.reference(), Some(&ShapeID::new("ns#A")));
}

#[test]
fn member_value_mut_edits_in_place() {
    let mut m = Member::with_value(Identifier::new("errors"), NodeValue::Array(Vec::new()));
    if let Some(NodeValue::Array(vs)) = m.value_mut() {
        vs.push(NodeValue::ShapeID(ShapeID::new("ns#E")));
    }
    assert_eq!(m.references(), vec![&ShapeID::new("ns#E")]);
    assert!(m.has_references());
}

#[test]
fn member_table_operations() {
    let mut m = Member::with_value(Identifier::new("identifiers"), NodeValue::Object(Vec::new()));
    assert!(!m.has_entries());
    m.insert_entry(Identifier::new("k"), ShapeID::new("ns#V1"));
    m.insert_entry(Identifier::new("j"), ShapeID::new("ns#W"));
    m.insert_entry(Identifier::new("k"), ShapeID::new("ns#V2"));
    assert_eq!(
        m.entries(),
        vec![
            (&Identifier::new("k"), &ShapeID::new("ns#V2")),
            (&Identifier::new("j"), &ShapeID::new("ns#W"))
        ]
    );
    m.remove_entry(&Identifier::new("k"));
    assert_eq!(m.entries(), vec![(&Identifier::new("j"), &ShapeID::new("ns#W"))]);
}

#[test]
fn member_list_operations() {
    let mut m = Member::with_value(Identifier::new("operations"), NodeValue::Array(Vec::new()));
    m.append_references(&[ShapeID::new("ns#A"), ShapeID::new("ns#B"), ShapeID::new("ns#A")]);
    m.add_reference(ShapeID::new("ns#C"));
    m.remove_reference(&ShapeID::new("ns#A"));
    assert_eq!(m.references(), vec![&ShapeID::new("ns#B"), &ShapeID::new("ns#C")]);
}
