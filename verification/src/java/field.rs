use vstd::prelude::*;

verus! {

/// The mathematical shape of a catalog field.
#[verifier::ext_equal]
pub struct JavaFieldV {
    pub name: Seq<char>,
    pub owner_class: Seq<char>,
}

/// One static field of a catalog class: its name and the dotted name of the
/// class its value has.
#[derive(Debug)]
pub struct JavaField {
    pub name: String,
    pub owner_class: String,
}

impl View for JavaField {
    type V = JavaFieldV;

    open spec fn view(&self) -> JavaFieldV {
        JavaFieldV { name: self.name@, owner_class: self.owner_class@ }
    }
}

impl JavaField {
    pub fn new(name: String, owner_class: String) -> (f: JavaField)
        ensures
            f@ == (JavaFieldV { name: name@, owner_class: owner_class@ }),
    {
        JavaField { name, owner_class }
    }

    pub fn name(&self) -> (r: &String)
        ensures
            r@ == self@.name,
    {
        &self.name
    }

    pub fn owner_class(&self) -> (r: &String)
        ensures
            r@ == self@.owner_class,
    {
        &self.owner_class
    }
}

} // verus!
