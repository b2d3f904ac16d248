use vstd::prelude::*;

use crate::compiler::result::{CompileError, CompileErrorV};
use crate::java::class::slashed;

verus! {

/// A JVM-level type: the primitive kinds, an object type by dotted path, or
/// an array of another type.
#[derive(Debug)]
pub enum DataType {
    BooleanPrimitive,
    BytePrimitive,
    CharPrimitive,
    DoublePrimitive,
    FloatPrimitive,
    IntPrimitive,
    LongPrimitive,
    ShortPrimitive,
    Void,
    Object(String),
    Array(Box<DataType>),
}

/// The mathematical shape of a `DataType`.
#[verifier::ext_equal]
pub enum DataTypeV {
    BooleanPrimitive,
    BytePrimitive,
    CharPrimitive,
    DoublePrimitive,
    FloatPrimitive,
    IntPrimitive,
    LongPrimitive,
    ShortPrimitive,
    Void,
    Object(Seq<char>),
    Array(Box<DataTypeV>),
}

pub open spec fn data_type_view(t: DataType) -> DataTypeV
    decreases t,
{
    match t {
        DataType::BooleanPrimitive => DataTypeV::BooleanPrimitive,
        DataType::BytePrimitive => DataTypeV::BytePrimitive,
        DataType::CharPrimitive => DataTypeV::CharPrimitive,
        DataType::DoublePrimitive => DataTypeV::DoublePrimitive,
        DataType::FloatPrimitive => DataTypeV::FloatPrimitive,
        DataType::IntPrimitive => DataTypeV::IntPrimitive,
        DataType::LongPrimitive => DataTypeV::LongPrimitive,
        DataType::ShortPrimitive => DataTypeV::ShortPrimitive,
        DataType::Void => DataTypeV::Void,
        DataType::Object(p) => DataTypeV::Object(p@),
        DataType::Array(b) => DataTypeV::Array(Box::new(data_type_view(*b))),
    }
}

impl View for DataType {
    type V = DataTypeV;

    open spec fn view(&self) -> DataTypeV {
        data_type_view(*self)
    }
}

/// The JVM descriptor of a type: one letter per primitive kind,
/// `L<slashed path>;` for an object type, `[` then the element's descriptor
/// for an array.
pub open spec fn spec_type_descriptor(t: DataTypeV) -> Seq<char>
    decreases t,
{
    match t {
        DataTypeV::BooleanPrimitive => seq!['Z'],
        DataTypeV::BytePrimitive => seq!['B'],
        DataTypeV::CharPrimitive => seq!['C'],
        DataTypeV::DoublePrimitive => seq!['D'],
        DataTypeV::FloatPrimitive => seq!['F'],
        DataTypeV::IntPrimitive => seq!['I'],
        DataTypeV::LongPrimitive => seq!['J'],
        DataTypeV::ShortPrimitive => seq!['S'],
        DataTypeV::Void => seq!['V'],
        DataTypeV::Object(path) => seq!['L'] + slashed(path) + seq![';'],
        DataTypeV::Array(b) => seq!['['] + spec_type_descriptor(*b),
    }
}

/// The descriptors of a parameter list, concatenated in order.
pub open spec fn spec_types_descriptor(ts: Seq<DataTypeV>) -> Seq<char>
    decreases ts.len(),
{
    if ts.len() == 0 {
        Seq::empty()
    } else {
        spec_type_descriptor(ts[0]) + spec_types_descriptor(ts.drop_first())
    }
}

impl DataType {
    /// Appends this type's JVM descriptor to the output.
    pub fn print_descriptor(&self, output: &mut String)
        ensures
            final(output)@ == old(output)@ + spec_type_descriptor(self@),
        decreases self,
    {
        match self {
            DataType::BooleanPrimitive => {
                output.append("Z");
                proof {
                    reveal_strlit("Z");
                    assert("Z"@ =~= seq!['Z']);
                }
            },
            DataType::BytePrimitive => {
                output.append("B");
                proof {
                    reveal_strlit("B");
                    assert("B"@ =~= seq!['B']);
                }
            },
            DataType::CharPrimitive => {
                output.append("C");
                proof {
                    reveal_strlit("C");
                    assert("C"@ =~= seq!['C']);
                }
            },
            DataType::DoublePrimitive => {
                output.append("D");
                proof {
                    reveal_strlit("D");
                    assert("D"@ =~= seq!['D']);
                }
            },
            DataType::FloatPrimitive => {
                output.append("F");
                proof {
                    reveal_strlit("F");
                    assert("F"@ =~= seq!['F']);
                }
            },
            DataType::IntPrimitive => {
                output.append("I");
                proof {
                    reveal_strlit("I");
                    assert("I"@ =~= seq!['I']);
                }
            },
            DataType::LongPrimitive => {
                output.append("J");
                proof {
                    reveal_strlit("J");
                    assert("J"@ =~= seq!['J']);
                }
            },
            DataType::ShortPrimitive => {
                output.append("S");
                proof {
                    reveal_strlit("S");
                    assert("S"@ =~= seq!['S']);
                }
            },
            DataType::Void => {
                output.append("V");
                proof {
                    reveal_strlit("V");
                    assert("V"@ =~= seq!['V']);
                }
            },
            DataType::Object(path) => {
                output.append("L");
                let s = crate::java::class::slashed_of(path);
                output.append(s.as_str());
                output.append(";");
                proof {
                    reveal_strlit("L");
                    reveal_strlit(";");
                    assert("L"@ =~= seq!['L']);
                    assert(";"@ =~= seq![';']);
                    assert(old(output)@ + ("L"@ + slashed(path@) + ";"@) =~= ((old(output)@
                        + "L"@) + slashed(path@)) + ";"@);
                    assert(seq!['L'] + slashed(path@) + seq![';'] =~= "L"@ + slashed(path@)
                        + ";"@);
                }
            },
            DataType::Array(delegate) => {
                output.append("[");
                delegate.print_descriptor(output);
                proof {
                    reveal_strlit("[");
                    assert("["@ =~= seq!['[']);
                    assert(old(output)@ + (seq!['['] + spec_type_descriptor(delegate@)) =~= (old(
                        output,
                    )@ + seq!['[']) + spec_type_descriptor(delegate@));
                }
            },
        }
    }
}

/// The mathematical shape of a method symbol.
#[verifier::ext_equal]
pub struct MethodSymbolV {
    pub return_type: DataTypeV,
    pub parameters: Seq<DataTypeV>,
}

/// The registered signature of one of the class's own methods.
#[derive(Debug)]
pub struct MethodSymbol {
    pub return_type: DataType,
    pub parameters: Vec<DataType>,
}

impl View for MethodSymbol {
    type V = MethodSymbolV;

    open spec fn view(&self) -> MethodSymbolV {
        MethodSymbolV {
            return_type: self.return_type@,
            parameters: self.parameters@.map_values(|t: DataType| t@),
        }
    }
}

/// The JVM descriptor of a method: its parameters' descriptors in
/// parentheses, then its return type's.
pub open spec fn spec_method_descriptor(m: MethodSymbolV) -> Seq<char> {
    seq!['('] + spec_types_descriptor(m.parameters) + seq![')'] + spec_type_descriptor(
        m.return_type,
    )
}

impl MethodSymbol {
    /// This method's JVM descriptor string.
    #[verifier::loop_isolation(false)]
    pub fn descriptor(&self) -> (r: String)
        ensures
            r@ == spec_method_descriptor(self@),
    {
        let ghost ts = self@.parameters;
        let mut descriptor = String::new();
        descriptor.append("(");
        proof {
            reveal_strlit("(");
            assert("("@ =~= seq!['(']);
            assert(ts.skip(0) =~= ts);
            assert(descriptor@ =~= seq!['('] + spec_types_descriptor(ts.skip(0)).take(0));
        }
        let n = self.parameters.len();
        for i in 0..n
            invariant
                n == self.parameters@.len(),
                ts == self@.parameters,
                descriptor@ == seq!['('] + spec_types_descriptor(ts.take(i as int)),
        {
            proof {
                assert(ts[i as int] == self.parameters@[i as int]@);
            }
            self.parameters[i].print_descriptor(&mut descriptor);
            proof {
                lemma_types_descriptor_take(ts, i + 1);
                assert(ts.take(i + 1).drop_last() =~= ts.take(i as int));
                assert(ts.take(i + 1).last() == ts[i as int]);
                assert(descriptor@ =~= seq!['('] + spec_types_descriptor(ts.take(i + 1)));
            }
        }
        descriptor.append(")");
        self.return_type.print_descriptor(&mut descriptor);
        proof {
            reveal_strlit(")");
            assert(")"@ =~= seq![')']);
            assert(ts.take(n as int) =~= ts);
            assert(descriptor@ =~= spec_method_descriptor(self@));
        }
        descriptor
    }
}

/// A prefix's concatenated descriptors extend by the last element's.
pub proof fn lemma_types_descriptor_take(ts: Seq<DataTypeV>, k: int)
    requires
        0 < k <= ts.len(),
    ensures
        spec_types_descriptor(ts.take(k)) == spec_types_descriptor(ts.take(k - 1))
            + spec_type_descriptor(ts[k - 1]),
    decreases k,
{
    lemma_types_descriptor_concat_last(ts.take(k));
    assert(ts.take(k).drop_last() =~= ts.take(k - 1));
    assert(ts.take(k).last() == ts[k - 1]);
}

/// Concatenated descriptors split around the last element.
pub proof fn lemma_types_descriptor_concat_last(ts: Seq<DataTypeV>)
    requires
        ts.len() > 0,
    ensures
        spec_types_descriptor(ts) == spec_types_descriptor(ts.drop_last()) + spec_type_descriptor(
            ts.last(),
        ),
    decreases ts.len(),
{
    if ts.len() == 1 {
        assert(ts.drop_last() =~= Seq::<DataTypeV>::empty());
        assert(ts.drop_first() =~= Seq::<DataTypeV>::empty());
        assert(spec_types_descriptor(ts.drop_first()) =~= Seq::<char>::empty());
        assert(spec_types_descriptor(ts) =~= spec_type_descriptor(ts[0]) + Seq::<char>::empty());
        assert(spec_type_descriptor(ts[0]) + Seq::<char>::empty() =~= spec_type_descriptor(
            ts[0],
        ));
        assert(spec_types_descriptor(ts.drop_last()) =~= Seq::<char>::empty());
        assert(Seq::<char>::empty() + spec_type_descriptor(ts.last()) =~= spec_type_descriptor(
            ts.last(),
        ));
    } else {
        lemma_types_descriptor_concat_last(ts.drop_first());
        assert(ts.drop_first().drop_last() =~= ts.drop_last().drop_first());
        assert(ts.drop_first().last() == ts.last());
        assert(spec_types_descriptor(ts.drop_last()) == spec_type_descriptor(ts[0])
            + spec_types_descriptor(ts.drop_last().drop_first()));
        assert(spec_type_descriptor(ts[0]) + (spec_types_descriptor(ts.drop_last().drop_first())
            + spec_type_descriptor(ts.last())) =~= (spec_type_descriptor(ts[0])
            + spec_types_descriptor(ts.drop_last().drop_first())) + spec_type_descriptor(
            ts.last(),
        ));
    }
}

/// The registered type of one of the class's own fields.
#[derive(Debug)]
pub struct FieldSymbol {
    pub field_type: DataType,
}

/// The mathematical shape of the symbol table: registration order kept.
#[verifier::ext_equal]
pub struct MethodEntryV {
    pub name: Seq<char>,
    pub symbol: MethodSymbolV,
}

/// The first registered method of that name, if any.
pub open spec fn find_symbol(ms: Seq<MethodEntryV>, name: Seq<char>) -> Option<MethodSymbolV>
    decreases ms.len(),
{
    if ms.len() == 0 {
        None
    } else if ms[0].name == name {
        Some(ms[0].symbol)
    } else {
        find_symbol(ms.drop_first(), name)
    }
}

/// One registered method, with its name.
#[derive(Debug)]
pub struct MethodEntry {
    pub name: String,
    pub symbol: MethodSymbol,
}

impl View for MethodEntry {
    type V = MethodEntryV;

    open spec fn view(&self) -> MethodEntryV {
        MethodEntryV { name: self.name@, symbol: self.symbol@ }
    }
}

/// The symbol table: the class's own method signatures, registered in a
/// pre-pass so later resolution is independent of declaration order.
/// Registering a name twice is rejected: overloading is unsupported.
#[derive(Debug)]
pub struct SymbolTable {
    pub fields: Vec<FieldSymbol>,
    pub methods: Vec<MethodEntry>,
}

impl View for SymbolTable {
    type V = Seq<MethodEntryV>;

    open spec fn view(&self) -> Seq<MethodEntryV> {
        self.methods@.map_values(|m: MethodEntry| m@)
    }
}

impl SymbolTable {
    pub fn new() -> (t: SymbolTable)
        ensures
            t@ == Seq::<MethodEntryV>::empty(),
    {
        let t = SymbolTable { fields: Vec::new(), methods: Vec::new() };
        proof {
            assert(t@ =~= Seq::<MethodEntryV>::empty());
        }
        t
    }

    /// Whether a method of that name is registered.
    #[verifier::loop_isolation(false)]
    pub fn contains_method(&self, name: &String) -> (r: bool)
        ensures
            r == (find_symbol(self@, name@) is Some),
    {
        let ghost ms = self@;
        let n = self.methods.len();
        proof {
            assert(ms.skip(0) =~= ms);
        }
        for i in 0..n
            invariant
                n == self.methods@.len(),
                ms == self@,
                find_symbol(ms, name@) == find_symbol(ms.skip(i as int), name@),
        {
            proof {
                assert(ms.skip(i as int)[0] == ms[i as int]);
                assert(ms[i as int] == self.methods@[i as int]@);
                assert(ms.skip(i as int).drop_first() =~= ms.skip(i + 1));
            }
            if self.methods[i].name == *name {
                return true;
            }
        }
        proof {
            assert(ms.skip(n as int) =~= Seq::<MethodEntryV>::empty());
        }
        false
    }

    /// The registered signature of that method.
    #[verifier::loop_isolation(false)]
    pub fn method_named(&self, name: &String) -> (r: Option<&MethodSymbol>)
        ensures
            match find_symbol(self@, name@) {
                None => r is None,
                Some(sv) => r is Some && r.unwrap()@ == sv,
            },
    {
        let ghost ms = self@;
        let n = self.methods.len();
        proof {
            assert(ms.skip(0) =~= ms);
        }
        for i in 0..n
            invariant
                n == self.methods@.len(),
                ms == self@,
                find_symbol(ms, name@) == find_symbol(ms.skip(i as int), name@),
        {
            proof {
                assert(ms.skip(i as int)[0] == ms[i as int]);
                assert(ms[i as int] == self.methods@[i as int]@);
                assert(ms.skip(i as int).drop_first() =~= ms.skip(i + 1));
            }
            if self.methods[i].name == *name {
                return Some(&self.methods[i].symbol);
            }
        }
        proof {
            assert(ms.skip(n as int) =~= Seq::<MethodEntryV>::empty());
        }
        None
    }

    /// Registers one method signature; a name already present is rejected
    /// before anything is changed.
    pub fn register_method(
        &mut self,
        name: String,
        return_type: DataType,
        parameters: Vec<DataType>,
    ) -> (r: Result<(), CompileError>)
        ensures
            match find_symbol(old(self)@, name@) {
                Some(_) => {
                    &&& r is Err
                    &&& r->Err_0@ == (CompileErrorV::DuplicateMethod { method: name@ })
                    &&& final(self)@ == old(self)@
                },
                None => {
                    &&& r is Ok
                    &&& final(self)@ == old(self)@.push(
                        MethodEntryV {
                            name: name@,
                            symbol: MethodSymbolV {
                                return_type: return_type@,
                                parameters: parameters@.map_values(|t: DataType| t@),
                            },
                        },
                    )
                },
            },
    {
        if self.contains_method(&name) {
            return Err(CompileError::DuplicateMethod { method: name });
        }
        let ghost pre = self.methods@;
        let entry = MethodEntry { name, symbol: MethodSymbol { return_type, parameters } };
        let ghost ev = entry@;
        self.methods.push(entry);
        proof {
            assert(self.methods@.map_values(|m: MethodEntry| m@) =~= pre.map_values(
                |m: MethodEntry| m@,
            ).push(ev));
        }
        Ok(())
    }
}

} // verus!
