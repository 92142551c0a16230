use atelier_core::identity::{Identifier, ShapeID};
use atelier_core::services::{Operation, Resource, Service};

fn sid(s: &str) -> ShapeID {
    ShapeID::new(s)
}

#[test]
fn service_default_has_empty_lists() {
    let s = Service::default();
    assert!(!s.has_operations());
    assert!(!s.has_resources());
    assert!(s.operations().is_empty());
    assert!(s.resources().is_empty());
}

#[test]
fn operation_default_has_nothing_set() {
    let o = Operation::default();
    assert!(!o.has_input());
    assert!(!o.has_output());
    assert_eq!(o.input(), None);
    assert_eq!(o.output(), None);
    assert!(!o.has_errors());
    assert!(o.errors().is_empty());
}

#[test]
fn resource_default_has_nothing_set() {
    let r = Resource::default();
    assert!(!r.has_identifiers());
    assert!(r.identifiers().is_empty());
    assert!(!r.has_create());
    assert!(!r.has_put());
    assert!(!r.has_read());
    assert!(!r.has_update());
    assert!(!r.has_delete());
    assert!(!r.has_list());
    assert!(!r.has_operations());
    assert!(!r.has_collection_operations());
    assert!(!r.has_resources());
}

#[test]
fn service_version_round_trip() {
    let mut s = Service::default();
    s.set_version("2020-01-01");
    assert_eq!(s.version(), "2020-01-01");
    s.set_version("2.0");
    assert_eq!(s.version(), "2.0");
}

#[test]
fn resource_lifecycle_round_trip() {
    let mut r = Resource::default();
    r.set_create(sid("ns#Create"));
    r.set_put(sid("ns#Put"));
    r.set_read(sid("ns#Read"));
    r.set_update(sid("ns#Update"));
    r.set_delete(sid("ns#Delete"));
    r.set_list(sid("ns#List"));
    assert_eq!(r.create(), Some(&sid("ns#Create")));
    assert_eq!(r.put(), Some(&sid("ns#Put")));
    assert_eq!(r.read(), Some(&sid("ns#Read")));
    assert_eq!(r.update(), Some(&sid("ns#Update")));
    assert_eq!(r.delete(), Some(&sid("ns#Delete")));
    assert_eq!(r.list(), Some(&sid("ns#List")));
    assert!(r.has_read());
}

#[test]
fn output_set_replaces_previous() {
    let mut o = Operation::default();
    o.set_output(sid("ns#A"));
    o.set_output(sid("ns#B"));
    assert_eq!(o.output(), Some(&sid("ns#B")));
    assert_eq!(o.input(), None);
}

#[test]
fn unset_twice_leaves_member_absent() {
    let mut o = Operation::default();
    o.set_output(sid("ns#Out"));
    o.unset_output();
    o.unset_output();
    assert!(!o.has_output());
    assert_eq!(o.output(), None);
    let mut r = Resource::default();
    r.unset_delete();
    r.unset_delete();
    assert!(!r.has_delete());
}

#[test]
fn add_keeps_insertion_order() {
    let mut s = Service::default();
    s.add_operation(sid("ns#A"));
    s.add_operation(sid("ns#B"));
    assert!(s.has_operations());
    assert_eq!(s.operations(), vec![&sid("ns#A"), &sid("ns#B")]);
    assert!(!s.has_resources());
}

#[test]
fn add_allows_duplicates() {
    let mut o = Operation::default();
    o.add_error(sid("ns#E"));
    o.add_error(sid("ns#E"));
    assert_eq!(o.errors(), vec![&sid("ns#E"), &sid("ns#E")]);
}

#[test]
fn append_keeps_batch_order() {
    let mut r = Resource::default();
    r.add_resource(sid("ns#First"));
    r.append_resources(&[sid("ns#A"), sid("ns#B")]);
    assert_eq!(
        r.resources(),
        vec![&sid("ns#First"), &sid("ns#A"), &sid("ns#B")]
    );
    r.append_resources(&[]);
    assert_eq!(r.resources().len(), 3);
}

#[test]
fn remove_takes_every_occurrence() {
    let mut r = Resource::default();
    r.add_collection_operation(sid("ns#X"));
    r.add_collection_operation(sid("ns#Y"));
    r.add_collection_operation(sid("ns#X"));
    r.remove_collection_operation(&sid("ns#X"));
    assert_eq!(r.collection_operations(), vec![&sid("ns#Y")]);
}

#[test]
fn remove_absent_reference_keeps_list() {
    let mut s = Service::default();
    s.append_resources(&[sid("ns#A"), sid("ns#B"), sid("ns#C")]);
    s.remove_resource(&sid("ns#Z"));
    assert_eq!(s.resources(), vec![&sid("ns#A"), &sid("ns#B"), &sid("ns#C")]);
    s.remove_resource(&sid("ns#B"));
    assert_eq!(s.resources(), vec![&sid("ns#A"), &sid("ns#C")]);
}

#[test]
fn remove_from_operation_errors() {
    let mut o = Operation::default();
    o.append_errors(&[sid("ns#E1"), sid("ns#E2")]);
    o.remove_error(&sid("ns#E1"));
    assert_eq!(o.errors(), vec![&sid("ns#E2")]);
    o.remove_error(&sid("ns#E2"));
    assert!(!o.has_errors());
}

#[test]
fn add_identifier_overwrites_by_key() {
    let mut r = Resource::default();
    r.add_identifier(Identifier::new("id"), sid("ns#R1"));
    r.add_identifier(Identifier::new("id"), sid("ns#R2"));
    assert_eq!(
        r.identifiers(),
        vec![(&Identifier::new("id"), &sid("ns#R2"))]
    );
}

#[test]
fn resource_identifier_scenario() {
    let mut r = Resource::default();
    assert!(!r.has_identifiers());
    r.add_identifier(Identifier::new("id"), sid("ns#Thing"));
    assert!(r.has_identifiers());
    assert_eq!(
        r.identifiers(),
        vec![(&Identifier::new("id"), &sid("ns#Thing"))]
    );
}

#[test]
fn operation_input_scenario() {
    let mut o = Operation::default();
    assert!(!o.has_input());
    o.set_input(sid("ns#In"));
    assert_eq!(o.input(), Some(&sid("ns#In")));
    o.unset_input();
    assert!(!o.has_input());
}

#[test]
fn remove_identifier_takes_only_that_key() {
    let mut r = Resource::default();
    r.add_identifier(Identifier::new("a"), sid("ns#A"));
    r.add_identifier(Identifier::new("b"), sid("ns#B"));
    r.add_identifier(Identifier::new("c"), sid("ns#C"));
    r.remove_identifier(&Identifier::new("b"));
    assert_eq!(
        r.identifiers(),
        vec![
            (&Identifier::new("a"), &sid("ns#A")),
            (&Identifier::new("c"), &sid("ns#C"))
        ]
    );
    r.remove_identifier(&Identifier::new("missing"));
    assert_eq!(r.identifiers().len(), 2);
    r.remove_identifier(&Identifier::new("a"));
    r.remove_identifier(&Identifier::new("c"));
    assert!(!r.has_identifiers());
}

#[test]
fn shapes_keep_members_apart() {
    let mut r = Resource::default();
    r.add_operation(sid("ns#Op"));
    assert!(r.has_operations());
    assert!(!r.has_collection_operations());
    assert!(!r.has_resources());
    r.set_read(sid("ns#Read"));
    assert!(!r.has_create());
}
