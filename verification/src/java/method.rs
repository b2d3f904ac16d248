use vstd::prelude::*;

verus! {

/// The mathematical shape of a catalog method.
#[verifier::ext_equal]
pub struct JavaMethodV {
    pub name: Seq<char>,
    pub return_type: Seq<char>,
    pub descriptor: Seq<char>,
}

/// One method of a catalog class: its name, its return type's dotted name,
/// and its JVM descriptor string.
#[derive(Debug)]
pub struct JavaMethod {
    pub name: String,
    pub return_type: String,
    pub descriptor: String,
}

impl View for JavaMethod {
    type V = JavaMethodV;

    open spec fn view(&self) -> JavaMethodV {
        JavaMethodV { name: self.name@, return_type: self.return_type@, descriptor: self.descriptor@ }
    }
}

impl JavaMethod {
    pub fn new(name: String, return_type: String, descriptor: String) -> (m: JavaMethod)
        ensures
            m@ == (JavaMethodV { name: name@, return_type: return_type@, descriptor: descriptor@ }),
    {
        JavaMethod { name, return_type, descriptor }
    }

    pub fn name(&self) -> (r: &String)
        ensures
            r@ == self@.name,
    {
        &self.name
    }

    pub fn return_type(&self) -> (r: &String)
        ensures
            r@ == self@.return_type,
    {
        &self.return_type
    }

    pub fn descriptor(&self) -> (r: &String)
        ensures
            r@ == self@.descriptor,
    {
        &self.descriptor
    }
}

} // verus!
