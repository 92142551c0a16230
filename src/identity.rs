//! The opaque names that the model stores: member identifiers and shape identifiers.

use vstd::prelude::*;

verus! {

broadcast use vstd::string::to_string_from_display_ensures_for_str;

/// The name of a member, or a key of a mapping value.
#[derive(Debug)]
pub struct Identifier {
    text: String,
}

/// The globally unique name of a shape, used as a reference to it.
#[derive(Debug)]
pub struct ShapeID {
    text: String,
}

impl View for Identifier {
    type V = Seq<char>;

    closed spec fn view(&self) -> Seq<char> {
        self.text@
    }
}

impl View for ShapeID {
    type V = Seq<char>;

    closed spec fn view(&self) -> Seq<char> {
        self.text@
    }
}

impl Identifier {
    /// Makes an identifier of the given text; lexical rules are checked elsewhere.
    pub fn new(text: &str) -> (r: Identifier)
        ensures
            r@ == text@,
    {
        Identifier { text: text.to_string() }
    }

    /// The text of this identifier.
    pub fn as_str(&self) -> (r: &str)
        ensures
            r@ == self@,
    {
        self.text.as_str()
    }
}

impl ShapeID {
    /// Makes a shape identifier of the given text; lexical rules are checked elsewhere.
    pub fn new(text: &str) -> (r: ShapeID)
        ensures
            r@ == text@,
    {
        ShapeID { text: text.to_string() }
    }

    /// The text of this shape identifier.
    pub fn as_str(&self) -> (r: &str)
        ensures
            r@ == self@,
    {
        self.text.as_str()
    }
}

impl Clone for Identifier {
    fn clone(&self) -> (r: Self)
        ensures
            r@ == self@,
    {
        Identifier { text: self.text.clone() }
    }
}

impl Clone for ShapeID {
    fn clone(&self) -> (r: Self)
        ensures
            r@ == self@,
    {
        ShapeID { text: self.text.clone() }
    }
}

impl PartialEq for Identifier {
    fn eq(&self, other: &Identifier) -> (r: bool)
        ensures
            r == (self@ == other@),
    {
        self.text == other.text
    }
}

impl vstd::std_specs::cmp::PartialEqSpecImpl for Identifier {
    open spec fn obeys_eq_spec() -> bool {
        true
    }

    open spec fn eq_spec(&self, other: &Identifier) -> bool {
        self@ == other@
    }
}

impl Eq for Identifier {}

impl PartialEq for ShapeID {
    fn eq(&self, other: &ShapeID) -> (r: bool)
        ensures
            r == (self@ == other@),
    {
        self.text == other.text
    }
}

impl vstd::std_specs::cmp::PartialEqSpecImpl for ShapeID {
    open spec fn obeys_eq_spec() -> bool {
        true
    }

    open spec fn eq_spec(&self, other: &ShapeID) -> bool {
        self@ == other@
    }
}

impl Eq for ShapeID {}

} // verus!
