//! The service, operation and resource shapes, each a fixed set of members with
//! its own cardinality rules.

use crate::identity::{Identifier, ShapeID};
use crate::member::Member;
use crate::values::{entries_insert, entries_remove, references_remove, NodeValue};
use vstd::prelude::*;

verus! {

broadcast use vstd::string::to_string_from_display_ensures_for_str;

/// The "service" shape: a required version and the operations and resources it offers.
#[derive(Debug)]
pub struct Service {
    version: Member,
    operations: Member,
    resources: Member,
}

/// What a service holds: its version, if set, and the shapes its lists refer to.
pub struct ServiceView {
    pub version: Option<Seq<char>>,
    pub operations: Seq<Seq<char>>,
    pub resources: Seq<Seq<char>>,
}

/// The "operation" shape: optional input and output, and the errors it may return.
#[derive(Debug)]
pub struct Operation {
    input: Member,
    output: Member,
    errors: Member,
}

/// What an operation holds: the shapes its members refer to.
pub struct OperationView {
    pub input: Option<Seq<char>>,
    pub output: Option<Seq<char>>,
    pub errors: Seq<Seq<char>>,
}

/// The "resource" shape: its identifiers, its lifecycle operations and the
/// operations and resources bound to it.
#[derive(Debug)]
pub struct Resource {
    identifiers: Member,
    create: Member,
    put: Member,
    read: Member,
    update: Member,
    delete: Member,
    list: Member,
    operations: Member,
    collection_operations: Member,
    resources: Member,
}

/// What a resource holds: its identifier entries as name and referenced shape, and
/// the shapes its other members refer to.
pub struct ResourceView {
    pub identifiers: Seq<(Seq<char>, Seq<char>)>,
    pub create: Option<Seq<char>>,
    pub put: Option<Seq<char>>,
    pub read: Option<Seq<char>>,
    pub update: Option<Seq<char>>,
    pub delete: Option<Seq<char>>,
    pub list: Option<Seq<char>>,
    pub operations: Seq<Seq<char>>,
    pub collection_operations: Seq<Seq<char>>,
    pub resources: Seq<Seq<char>>,
}

impl View for Service {
    type V = ServiceView;

    closed spec fn view(&self) -> ServiceView {
        ServiceView {
            version: self.version.text_of(),
            operations: self.operations.references_of(),
            resources: self.resources.references_of(),
        }
    }
}

impl View for Operation {
    type V = OperationView;

    closed spec fn view(&self) -> OperationView {
        OperationView {
            input: self.input.reference_of(),
            output: self.output.reference_of(),
            errors: self.errors.references_of(),
        }
    }
}

impl View for Resource {
    type V = ResourceView;

    closed spec fn view(&self) -> ResourceView {
        ResourceView {
            identifiers: self.identifiers.entries_of(),
            create: self.create.reference_of(),
            put: self.put.reference_of(),
            read: self.read.reference_of(),
            update: self.update.reference_of(),
            delete: self.delete.reference_of(),
            list: self.list.reference_of(),
            operations: self.operations.references_of(),
            collection_operations: self.collection_operations.references_of(),
            resources: self.resources.references_of(),
        }
    }
}

/// A member that starts with no value.
fn absent(name: &str) -> (r: Member)
    ensures
        r.slot() is None,
{
    Member::new(Identifier::new(name))
}

/// A member that starts with an empty list.
fn empty_list(name: &str) -> (r: Member)
    ensures
        r.holds_references(),
        r.references_of() == Seq::<Seq<char>>::empty(),
{
    let r = Member::with_value(Identifier::new(name), NodeValue::Array(Vec::new()));
    assert(r.references_of() =~= Seq::<Seq<char>>::empty());
    r
}

/// A member that starts with an empty table.
fn empty_table(name: &str) -> (r: Member)
    ensures
        r.holds_reference_table(),
        r.entries_of() == Seq::<(Seq<char>, Seq<char>)>::empty(),
{
    let r = Member::with_value(Identifier::new(name), NodeValue::Object(Vec::new()));
    assert(r.entries_of() =~= Seq::<(Seq<char>, Seq<char>)>::empty());
    r
}

impl Default for Service {
    /// A service with no version and empty lists.
    fn default() -> (r: Self)
        ensures
            r.wf(),
            r@.version is None,
            r@.operations.len() == 0,
            r@.resources.len() == 0,
    {
        Service {
            version: absent("version"),
            operations: empty_list("operations"),
            resources: empty_list("resources"),
        }
    }
}

impl Service {
    /// The version holds a string once set, and both lists hold references only.
    pub closed spec fn wf(&self) -> bool {
        &&& (self.version.slot() is None || self.version.holds_text())
        &&& self.operations.holds_references()
        &&& self.resources.holds_references()
    }

    /// The service's version; it must have been set.
    pub fn version(&self) -> (r: &String)
        requires
            self.wf(),
            self@.version is Some,
        ensures
            self@.version == Some(r@),
    {
        self.version.text()
    }

    /// Sets the service's version.
    pub fn set_version(&mut self, version: &str)
        requires
            old(self).wf(),
        ensures
            final(self).wf(),
            final(self)@ == (ServiceView { version: Some(version@), ..old(self)@ }),
    {
        self.version.set_value(NodeValue::String(version.to_string()));
    }

    /// Whether the `operations` list refers to any shape.
    pub fn has_operations(&self) -> (r: bool)
        requires
            self.wf(),
        ensures
            r == (self@.operations.len() > 0),
    {
        self.operations.has_references()
    }

    /// The shapes in the `operations` list, in order.
    pub fn operations(&self) -> (r: Vec<&ShapeID>)
        requires
            self.wf(),
        ensures
            r@.map_values(|id: &ShapeID| id@) == self@.operations,
    {
        self.operations.references()
    }

    /// Puts a shape at the end of the `operations` list.
    pub fn add_operation(&mut self, operation: ShapeID)
        requires
            old(self).wf(),
        ensures
            final(self).wf(),
            final(self)@ == (ServiceView { operations: old(self)@.operations.push(operation@), ..old(self)@ }),
    {
        self.operations.add_reference(operation);
    }

    /// Puts the given shapes at the end of the `operations` list, in their order.
    pub fn append_operations(&mut self, operations: &[ShapeID])
        requires
            old(self).wf(),
        ensures
            final(self).wf(),
            final(self)@ == (ServiceView {
                operations: old(self)@.operations + operations@.map_values(|id: ShapeID| id@),
                ..old(self)@
            }),
    {
        self.operations.append_references(operations);
    }

    /// Takes every occurrence of the given shape out of the `operations` list.
    pub fn remove_operation(&mut self, operation: &ShapeID)
        requires
            old(self).wf(),
        ensures
            final(self).wf(),
            final(self)@ == (ServiceView { operations: references_remove(old(self)@.operations, operation@), ..old(self)@ }),
    {
        self.operations.remove_reference(operation);
    }

    /// Whether the `resources` list refers to any shape.
    pub fn has_resources(&self) -> (r: bool)
        requires
            self.wf(),
        ensures
            r == (self@.resources.len() > 0),
    {
        self.resources.has_references()
    }

    /// The shapes in the `resources` list, in order.
    pub fn resources(&self) -> (r: Vec<&ShapeID>)
        requires
            self.wf(),
        ensures
            r@.map_values(|id: &ShapeID| id@) == self@.resources,
    {
        self.resources.references()
    }

    /// Puts a shape at the end of the `resources` list.
    pub fn add_resource(&mut self, resource: ShapeID)
        requires
            old(self).wf(),
        ensures
            final(self).wf(),
            final(self)@ == (ServiceView { resources: old(self)@.resources.push(resource@), ..old(self)@ }),
    {
        self.resources.add_reference(resource);
    }

    /// Puts the given shapes at the end of the `resources` list, in their order.
    pub fn append_resources(&mut self, resources: &[ShapeID])
        requires
            old(self).wf(),
        ensures
            final(self).wf(),
            final(self)@ == (ServiceView {
                resources: old(self)@.resources + resources@.map_values(|id: ShapeID| id@),
                ..old(self)@
            }),
    {
        self.resources.append_references(resources);
    }

    /// Takes every occurrence of the given shape out of the `resources` list.
    pub fn remove_resource(&mut self, resource: &ShapeID)
        requires
            old(self).wf(),
        ensures
            final(self).wf(),
            final(self)@ == (ServiceView { resources: references_remove(old(self)@.resources, resource@), ..old(self)@ }),
    {
        self.resources.remove_reference(resource);
    }
}

impl Default for Operation {
    /// An operation with no input or output and no errors.
    fn default() -> (r: Self)
        ensures
            r.wf(),
            r@.input is None,
            r@.output is None,
            r@.errors.len() == 0,
    {
        Operation { input: absent("input"), output: absent("output"), errors: empty_list("errors") }
    }
}

impl Operation {
    /// Input and output hold a reference or nothing; the errors list holds references only.
    pub closed spec fn wf(&self) -> bool {
        &&& self.input.holds_optional_reference()
        &&& self.output.holds_optional_reference()
        &&& self.errors.holds_references()
    }

    /// Whether the `input` member refers to a shape.
    pub fn has_input(&self) -> (r: bool)
        requires
            self.wf(),
        ensures
            r == (self@.input is Some),
    {
        self.input.reference().is_some()
    }

    /// The shape that the `input` member refers to, if any.
    pub fn input(&self) -> (r: Option<&ShapeID>)
        requires
            self.wf(),
        ensures
            match r {
                Some(id) => self@.input == Some(id@),
                None => self@.input is None,
            },
    {
        self.input.reference()
    }

    /// Makes the `input` member refer to the given shape.
    pub fn set_input(&mut self, input: ShapeID)
        requires
            old(self).wf(),
        ensures
            final(self).wf(),
            final(self)@ == (OperationView { input: Some(input@), ..old(self)@ }),
    {
        self.input.set_reference(input);
    }

    /// Leaves the `input` member without a reference.
    pub fn unset_input(&mut self)
        requires
            old(self).wf(),
        ensures
            final(self).wf(),
            final(self)@ == (OperationView { input: None, ..old(self)@ }),
    {
        self.input.unset_value();
    }

    /// Whether the `output` member refers to a shape.
    pub fn has_output(&self) -> (r: bool)
        requires
            self.wf(),
        ensures
            r == (self@.output is Some),
    {
        self.output.reference().is_some()
    }

    /// The shape that the `output` member refers to, if any.
    pub fn output(&self) -> (r: Option<&ShapeID>)
        requires
            self.wf(),
        ensures
            match r {
                Some(id) => self@.output == Some(id@),
                None => self@.output is None,
            },
    {
        self.output.reference()
    }

    /// Makes the `output` member refer to the given shape.
    pub fn set_output(&mut self, output: ShapeID)
        requires
            old(self).wf(),
        ensures
            final(self).wf(),
            final(self)@ == (OperationView { output: Some(output@), ..old(self)@ }),
    {
        self.output.set_reference(output);
    }

    /// Leaves the `output` member without a reference.
    pub fn unset_output(&mut self)
        requires
            old(self).wf(),
        ensures
            final(self).wf(),
            final(self)@ == (OperationView { output: None, ..old(self)@ }),
    {
        self.output.unset_value();
    }

    /// Whether the `errors` list refers to any shape.
    pub fn has_errors(&self) -> (r: bool)
        requires
            self.wf(),
        ensures
            r == (self@.errors.len() > 0),
    {
        self.errors.has_references()
    }

    /// The shapes in the `errors` list, in order.
    pub fn errors(&self) -> (r: Vec<&ShapeID>)
        requires
            self.wf(),
        ensures
            r@.map_values(|id: &ShapeID| id@) == self@.errors,
    {
        self.errors.references()
    }

    /// Puts a shape at the end of the `errors` list.
    pub fn add_error(&mut self, error: ShapeID)
        requires
            old(self).wf(),
        ensures
            final(self).wf(),
            final(self)@ == (OperationView { errors: old(self)@.errors.push(error@), ..old(self)@ }),
    {
        self.errors.add_reference(error);
    }

    /// Puts the given shapes at the end of the `errors` list, in their order.
    pub fn append_errors(&mut self, errors: &[ShapeID])
        requires
            old(self).wf(),
        ensures
            final(self).wf(),
            final(self)@ == (OperationView {
                errors: old(self)@.errors + errors@.map_values(|id: ShapeID| id@),
                ..old(self)@
            }),
    {
        self.errors.append_references(errors);
    }

    /// Takes every occurrence of the given shape out of the `errors` list.
    pub fn remove_error(&mut self, error: &ShapeID)
        requires
            old(self).wf(),
        ensures
            final(self).wf(),
            final(self)@ == (OperationView { errors: references_remove(old(self)@.errors, error@), ..old(self)@ }),
    {
        self.errors.remove_reference(error);
    }
}

impl Default for Resource {
    /// A resource with no identifiers, no lifecycle operations and empty lists.
    fn default() -> (r: Self)
        ensures
            r.wf(),
            r@.identifiers.len() == 0,
            r@.create is None,
            r@.put is None,
            r@.read is None,
            r@.update is None,
            r@.delete is None,
            r@.list is None,
            r@.operations.len() == 0,
            r@.collection_operations.len() == 0,
            r@.resources.len() == 0,
    {
        Resource {
            identifiers: empty_table("identifiers"),
            create: absent("create"),
            put: absent("put"),
            read: absent("read"),
            update: absent("update"),
            delete: absent("delete"),
            list: absent("list"),
            operations: empty_list("operations"),
            collection_operations: empty_list("collection_operations"),
            resources: empty_list("resources"),
        }
    }
}

impl Resource {
    /// The identifiers form a table of references with unique names, the lifecycle
    /// members hold a reference or nothing, and the lists hold references only.
    pub closed spec fn wf(&self) -> bool {
        &&& self.identifiers.holds_reference_table()
        &&& self.create.holds_optional_reference()
        &&& self.put.holds_optional_reference()
        &&& self.read.holds_optional_reference()
        &&& self.update.holds_optional_reference()
        &&& self.delete.holds_optional_reference()
        &&& self.list.holds_optional_reference()
        &&& self.operations.holds_references()
        &&& self.collection_operations.holds_references()
        &&& self.resources.holds_references()
    }

    /// Whether the resource has any identifier.
    pub fn has_identifiers(&self) -> (r: bool)
        requires
            self.wf(),
        ensures
            r == (self@.identifiers.len() > 0),
    {
        self.identifiers.has_entries()
    }

    /// The resource's identifiers, each with the shape it refers to.
    pub fn identifiers(&self) -> (r: Vec<(&Identifier, &ShapeID)>)
        requires
            self.wf(),
        ensures
            r@.map_values(|e: (&Identifier, &ShapeID)| (e.0@, e.1@)) == self@.identifiers,
    {
        self.identifiers.entries()
    }

    /// Binds an identifier to a shape, replacing the shape it was bound to, if any.
    pub fn add_identifier(&mut self, id: Identifier, shape: ShapeID)
        requires
            old(self).wf(),
        ensures
            final(self).wf(),
            final(self)@ == (ResourceView {
                identifiers: entries_insert(old(self)@.identifiers, id@, shape@),
                ..old(self)@
            }),
    {
        self.identifiers.insert_entry(id, shape);
    }

    /// Takes the identifier, if present, out of the resource.
    pub fn remove_identifier(&mut self, id: &Identifier)
        requires
            old(self).wf(),
        ensures
            final(self).wf(),
            final(self)@ == (ResourceView {
                identifiers: entries_remove(old(self)@.identifiers, id@),
                ..old(self)@
            }),
    {
        self.identifiers.remove_entry(id);
    }

    /// Whether the `create` member refers to a shape.
    pub fn has_create(&self) -> (r: bool)
        requires
            self.wf(),
        ensures
            r == (self@.create is Some),
    {
        self.create.reference().is_some()
    }

    /// The shape that the `create` member refers to, if any.
    pub fn create(&self) -> (r: Option<&ShapeID>)
        requires
            self.wf(),
        ensures
            match r {
                Some(id) => self@.create == Some(id@),
                None => self@.create is None,
            },
    {
        self.create.reference()
    }

    /// Makes the `create` member refer to the given shape.
    pub fn set_create(&mut self, create: ShapeID)
        requires
            old(self).wf(),
        ensures
            final(self).wf(),
            final(self)@ == (ResourceView { create: Some(create@), ..old(self)@ }),
    {
        self.create.set_reference(create);
    }

    /// Leaves the `create` member without a reference.
    pub fn unset_create(&mut self)
        requires
            old(self).wf(),
        ensures
            final(self).wf(),
            final(self)@ == (ResourceView { create: None, ..old(self)@ }),
    {
        self.create.unset_value();
    }

    /// Whether the `put` member refers to a shape.
    pub fn has_put(&self) -> (r: bool)
        requires
            self.wf(),
        ensures
            r == (self@.put is Some),
    {
        self.put.reference().is_some()
    }

    /// The shape that the `put` member refers to, if any.
    pub fn put(&self) -> (r: Option<&ShapeID>)
        requires
            self.wf(),
        ensures
            match r {
                Some(id) => self@.put == Some(id@),
                None => self@.put is None,
            },
    {
        self.put.reference()
    }

    /// Makes the `put` member refer to the given shape.
    pub fn set_put(&mut self, put: ShapeID)
        requires
            old(self).wf(),
        ensures
            final(self).wf(),
            final(self)@ == (ResourceView { put: Some(put@), ..old(self)@ }),
    {
        self.put.set_reference(put);
    }

    /// Leaves the `put` member without a reference.
    pub fn unset_put(&mut self)
        requires
            old(self).wf(),
        ensures
            final(self).wf(),
            final(self)@ == (ResourceView { put: None, ..old(self)@ }),
    {
        self.put.unset_value();
    }

    /// Whether the `read` member refers to a shape.
    pub fn has_read(&self) -> (r: bool)
        requires
            self.wf(),
        ensures
            r == (self@.read is Some),
    {
        self.read.reference().is_some()
    }

    /// The shape that the `read` member refers to, if any.
    pub fn read(&self) -> (r: Option<&ShapeID>)
        requires
            self.wf(),
        ensures
            match r {
                Some(id) => self@.read == Some(id@),
                None => self@.read is None,
            },
    {
        self.read.reference()
    }

    /// Makes the `read` member refer to the given shape.
    pub fn set_read(&mut self, read: ShapeID)
        requires
            old(self).wf(),
        ensures
            final(self).wf(),
            final(self)@ == (ResourceView { read: Some(read@), ..old(self)@ }),
    {
        self.read.set_reference(read);
    }

    /// Leaves the `read` member without a reference.
    pub fn unset_read(&mut self)
        requires
            old(self).wf(),
        ensures
            final(self).wf(),
            final(self)@ == (ResourceView { read: None, ..old(self)@ }),
    {
        self.read.unset_value();
    }

    /// Whether the `update` member refers to a shape.
    pub fn has_update(&self) -> (r: bool)
        requires
            self.wf(),
        ensures
            r == (self@.update is Some),
    {
        self.update.reference().is_some()
    }

    /// The shape that the `update` member refers to, if any.
    pub fn update(&self) -> (r: Option<&ShapeID>)
        requires
            self.wf(),
        ensures
            match r {
                Some(id) => self@.update == Some(id@),
                None => self@.update is None,
            },
    {
        self.update.reference()
    }

    /// Makes the `update` member refer to the given shape.
    pub fn set_update(&mut self, update: ShapeID)
        requires
            old(self).wf(),
        ensures
            final(self).wf(),
            final(self)@ == (ResourceView { update: Some(update@), ..old(self)@ }),
    {
        self.update.set_reference(update);
    }

    /// Leaves the `update` member without a reference.
    pub fn unset_update(&mut self)
        requires
            old(self).wf(),
        ensures
            final(self).wf(),
            final(self)@ == (ResourceView { update: None, ..old(self)@ }),
    {
        self.update.unset_value();
    }

    /// Whether the `delete` member refers to a shape.
    pub fn has_delete(&self) -> (r: bool)
        requires
            self.wf(),
        ensures
            r == (self@.delete is Some),
    {
        self.delete.reference().is_some()
    }

    /// The shape that the `delete` member refers to, if any.
    pub fn delete(&self) -> (r: Option<&ShapeID>)
        requires
            self.wf(),
        ensures
            match r {
                Some(id) => self@.delete == Some(id@),
                None => self@.delete is None,
            },
    {
        self.delete.reference()
    }

    /// Makes the `delete` member refer to the given shape.
    pub fn set_delete(&mut self, delete: ShapeID)
        requires
            old(self).wf(),
        ensures
            final(self).wf(),
            final(self)@ == (ResourceView { delete: Some(delete@), ..old(self)@ }),
    {
        self.delete.set_reference(delete);
    }

    /// Leaves the `delete` member without a reference.
    pub fn unset_delete(&mut self)
        requires
            old(self).wf(),
        ensures
            final(self).wf(),
            final(self)@ == (ResourceView { delete: None, ..old(self)@ }),
    {
        self.delete.unset_value();
    }

    /// Whether the `list` member refers to a shape.
    pub fn has_list(&self) -> (r: bool)
        requires
            self.wf(),
        ensures
            r == (self@.list is Some),
    {
        self.list.reference().is_some()
    }

    /// The shape that the `list` member refers to, if any.
    pub fn list(&self) -> (r: Option<&ShapeID>)
        requires
            self.wf(),
        ensures
            match r {
                Some(id) => self@.list == Some(id@),
                None => self@.list is None,
            },
    {
        self.list.reference()
    }

    /// Makes the `list` member refer to the given shape.
    pub fn set_list(&mut self, list: ShapeID)
        requires
            old(self).wf(),
        ensures
            final(self).wf(),
            final(self)@ == (ResourceView { list: Some(list@), ..old(self)@ }),
    {
        self.list.set_reference(list);
    }

    /// Leaves the `list` member without a reference.
    pub fn unset_list(&mut self)
        requires
            old(self).wf(),
        ensures
            final(self).wf(),
            final(self)@ == (ResourceView { list: None, ..old(self)@ }),
    {
        self.list.unset_value();
    }

    /// Whether the `operations` list refers to any shape.
    pub fn has_operations(&self) -> (r: bool)
        requires
            self.wf(),
        ensures
            r == (self@.operations.len() > 0),
    {
        self.operations.has_references()
    }

    /// The shapes in the `operations` list, in order.
    pub fn operations(&self) -> (r: Vec<&ShapeID>)
        requires
            self.wf(),
        ensures
            r@.map_values(|id: &ShapeID| id@) == self@.operations,
    {
        self.operations.references()
    }

    /// Puts a shape at the end of the `operations` list.
    pub fn add_operation(&mut self, operation: ShapeID)
        requires
            old(self).wf(),
        ensures
            final(self).wf(),
            final(self)@ == (ResourceView { operations: old(self)@.operations.push(operation@), ..old(self)@ }),
    {
        self.operations.add_reference(operation);
    }

    /// Puts the given shapes at the end of the `operations` list, in their order.
    pub fn append_operations(&mut self, operations: &[ShapeID])
        requires
            old(self).wf(),
        ensures
            final(self).wf(),
            final(self)@ == (ResourceView {
                operations: old(self)@.operations + operations@.map_values(|id: ShapeID| id@),
                ..old(self)@
            }),
    {
        self.operations.append_references(operations);
    }

    /// Takes every occurrence of the given shape out of the `operations` list.
    pub fn remove_operation(&mut self, operation: &ShapeID)
        requires
            old(self).wf(),
        ensures
            final(self).wf(),
            final(self)@ == (ResourceView { operations: references_remove(old(self)@.operations, operation@), ..old(self)@ }),
    {
        self.operations.remove_reference(operation);
    }

    /// Whether the `collection_operations` list refers to any shape.
    pub fn has_collection_operations(&self) -> (r: bool)
        requires
            self.wf(),
        ensures
            r == (self@.collection_operations.len() > 0),
    {
        self.collection_operations.has_references()
    }

    /// The shapes in the `collection_operations` list, in order.
    pub fn collection_operations(&self) -> (r: Vec<&ShapeID>)
        requires
            self.wf(),
        ensures
            r@.map_values(|id: &ShapeID| id@) == self@.collection_operations,
    {
        self.collection_operations.references()
    }

    /// Puts a shape at the end of the `collection_operations` list.
    pub fn add_collection_operation(&mut self, collection_operation: ShapeID)
        requires
            old(self).wf(),
        ensures
            final(self).wf(),
            final(self)@ == (ResourceView { collection_operations: old(self)@.collection_operations.push(collection_operation@), ..old(self)@ }),
    {
        self.collection_operations.add_reference(collection_operation);
    }

    /// Puts the given shapes at the end of the `collection_operations` list, in their order.
    pub fn append_collection_operations(&mut self, collection_operations: &[ShapeID])
        requires
            old(self).wf(),
        ensures
            final(self).wf(),
            final(self)@ == (ResourceView {
                collection_operations: old(self)@.collection_operations + collection_operations@.map_values(|id: ShapeID| id@),
                ..old(self)@
            }),
    {
        self.collection_operations.append_references(collection_operations);
    }

    /// Takes every occurrence of the given shape out of the `collection_operations` list.
    pub fn remove_collection_operation(&mut self, collection_operation: &ShapeID)
        requires
            old(self).wf(),
        ensures
            final(self).wf(),
            final(self)@ == (ResourceView { collection_operations: references_remove(old(self)@.collection_operations, collection_operation@), ..old(self)@ }),
    {
        self.collection_operations.remove_reference(collection_operation);
    }

    /// Whether the `resources` list refers to any shape.
    pub fn has_resources(&self) -> (r: bool)
        requires
            self.wf(),
        ensures
            r == (self@.resources.len() > 0),
    {
        self.resources.has_references()
    }

    /// The shapes in the `resources` list, in order.
    pub fn resources(&self) -> (r: Vec<&ShapeID>)
        requires
            self.wf(),
        ensures
            r@.map_values(|id: &ShapeID| id@) == self@.resources,
    {
        self.resources.references()
    }

    /// Puts a shape at the end of the `resources` list.
    pub fn add_resource(&mut self, resource: ShapeID)
        requires
            old(self).wf(),
        ensures
            final(self).wf(),
            final(self)@ == (ResourceView { resources: old(self)@.resources.push(resource@), ..old(self)@ }),
    {
        self.resources.add_reference(resource);
    }

    /// Puts the given shapes at the end of the `resources` list, in their order.
    pub fn append_resources(&mut self, resources: &[ShapeID])
        requires
            old(self).wf(),
        ensures
            final(self).wf(),
            final(self)@ == (ResourceView {
                resources: old(self)@.resources + resources@.map_values(|id: ShapeID| id@),
                ..old(self)@
            }),
    {
        self.resources.append_references(resources);
    }

    /// Takes every occurrence of the given shape out of the `resources` list.
    pub fn remove_resource(&mut self, resource: &ShapeID)
        requires
            old(self).wf(),
        ensures
            final(self).wf(),
            final(self)@ == (ResourceView { resources: references_remove(old(self)@.resources, resource@), ..old(self)@ }),
    {
        self.resources.remove_reference(resource);
    }
}

} // verus!
