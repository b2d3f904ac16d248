use vstd::prelude::*;

use crate::java::field::{JavaField, JavaFieldV};
use crate::java::method::{JavaMethod, JavaMethodV};

verus! {

/// A fully qualified dotted name with its dots turned into slashes: the
/// JVM's internal (binary) form of a class name.
pub open spec fn slashed(s: Seq<char>) -> Seq<char> {
    s.map_values(|c: char| if c == '.' { '/' } else { c })
}

/// Turns a dotted path into its slashed binary form.
#[verifier::loop_isolation(false)]
pub fn slashed_of(path: &String) -> (r: String)
    ensures
        r@ == slashed(path@),
{
    let n = path.as_str().unicode_len();
    let mut out = String::new();
    proof {
        assert(out@ =~= slashed(path@.subrange(0, 0)));
    }
    for i in 0..n
        invariant
            n == path@.len(),
            out@ == slashed(path@.subrange(0, i as int)),
    {
        let c = path.as_str().get_char(i);
        if c == '.' {
            out.append("/");
        } else {
            let piece = path.as_str().substring_char(i, i + 1);
            out.append(piece);
        }
        proof {
            reveal_strlit("/");
            assert("/"@ =~= seq!['/']);
            assert(out@ =~= slashed(path@.subrange(0, i + 1)));
        }
    }
    proof {
        assert(path@.subrange(0, n as int) =~= path@);
    }
    out
}

/// The mathematical shape of a catalog class.
#[verifier::ext_equal]
pub struct JavaClassV {
    pub name: Seq<char>,
    pub path: Seq<char>,
    pub descriptor: Seq<char>,
    pub methods: Seq<JavaMethodV>,
    pub fields: Seq<JavaFieldV>,
}

/// The first method of that name, if any.
pub open spec fn find_method_v(ms: Seq<JavaMethodV>, name: Seq<char>) -> Option<JavaMethodV>
    decreases ms.len(),
{
    if ms.len() == 0 {
        None
    } else if ms[0].name == name {
        Some(ms[0])
    } else {
        find_method_v(ms.drop_first(), name)
    }
}

/// The first field of that name, if any.
pub open spec fn find_field_v(fs: Seq<JavaFieldV>, name: Seq<char>) -> Option<JavaFieldV>
    decreases fs.len(),
{
    if fs.len() == 0 {
        None
    } else if fs[0].name == name {
        Some(fs[0])
    } else {
        find_field_v(fs.drop_first(), name)
    }
}

/// One class of the built-in standard-library catalog: its simple name, its
/// dotted path, its type descriptor, and the methods and fields resolution
/// may look up on it.
#[derive(Debug)]
pub struct JavaClass {
    pub name: String,
    pub path: String,
    pub descriptor: String,
    pub methods: Vec<JavaMethod>,
    pub fields: Vec<JavaField>,
}

impl View for JavaClass {
    type V = JavaClassV;

    open spec fn view(&self) -> JavaClassV {
        JavaClassV {
            name: self.name@,
            path: self.path@,
            descriptor: self.descriptor@,
            methods: self.methods@.map_values(|m: JavaMethod| m@),
            fields: self.fields@.map_values(|f: JavaField| f@),
        }
    }
}

impl JavaClass {
    pub fn new(
        name: String,
        path: String,
        descriptor: String,
        methods: Vec<JavaMethod>,
        fields: Vec<JavaField>,
    ) -> (c: JavaClass)
        ensures
            c@ == (JavaClassV {
                name: name@,
                path: path@,
                descriptor: descriptor@,
                methods: methods@.map_values(|m: JavaMethod| m@),
                fields: fields@.map_values(|f: JavaField| f@),
            }),
    {
        JavaClass { name, path, descriptor, methods, fields }
    }

    pub fn name(&self) -> (r: &String)
        ensures
            r@ == self@.name,
    {
        &self.name
    }

    pub fn path(&self) -> (r: &String)
        ensures
            r@ == self@.path,
    {
        &self.path
    }

    /// The slashed binary form of the class's dotted path.
    pub fn full_name(&self) -> (r: String)
        ensures
            r@ == slashed(self@.path),
    {
        slashed_of(&self.path)
    }

    pub fn descriptor(&self) -> (r: &String)
        ensures
            r@ == self@.descriptor,
    {
        &self.descriptor
    }

    /// The method of that name, if the class declares one.
    #[verifier::loop_isolation(false)]
    pub fn method_named(&self, name: &String) -> (r: Option<&JavaMethod>)
        ensures
            match find_method_v(self@.methods, name@) {
                None => r is None,
                Some(mv) => r is Some && r.unwrap()@ == mv,
            },
    {
        let ghost ms = self@.methods;
        let n = self.methods.len();
        proof {
            assert(ms.skip(0) =~= ms);
        }
        for i in 0..n
            invariant
                n == self.methods@.len(),
                ms == self@.methods,
                find_method_v(ms, name@) == find_method_v(ms.skip(i as int), name@),
        {
            proof {
                assert(ms.skip(i as int)[0] == ms[i as int]);
                assert(ms[i as int] == self.methods@[i as int]@);
                assert(ms.skip(i as int).drop_first() =~= ms.skip(i + 1));
            }
            if self.methods[i].name == *name {
                return Some(&self.methods[i]);
            }
        }
        proof {
            assert(ms.skip(n as int) =~= Seq::<JavaMethodV>::empty());
        }
        None
    }

    /// The field of that name, if the class declares one.
    #[verifier::loop_isolation(false)]
    pub fn field_named(&self, name: &String) -> (r: Option<&JavaField>)
        ensures
            match find_field_v(self@.fields, name@) {
                None => r is None,
                Some(fv) => r is Some && r.unwrap()@ == fv,
            },
    {
        let ghost fs = self@.fields;
        let n = self.fields.len();
        proof {
            assert(fs.skip(0) =~= fs);
        }
        for i in 0..n
            invariant
                n == self.fields@.len(),
                fs == self@.fields,
                find_field_v(fs, name@) == find_field_v(fs.skip(i as int), name@),
        {
            proof {
                assert(fs.skip(i as int)[0] == fs[i as int]);
                assert(fs[i as int] == self.fields@[i as int]@);
                assert(fs.skip(i as int).drop_first() =~= fs.skip(i + 1));
            }
            if self.fields[i].name == *name {
                return Some(&self.fields[i]);
            }
        }
        proof {
            assert(fs.skip(n as int) =~= Seq::<JavaFieldV>::empty());
        }
        None
    }
}

} // verus!
