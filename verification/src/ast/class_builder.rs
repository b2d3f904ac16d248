use vstd::prelude::*;

use crate::ast::class::{AstClass, AstMethod, AstParameter, AstScope, ClassV, MethodV, ParameterV};
use crate::ast::statement::{stmts_view, Statement, StatementV};
use crate::ast::ParseError;

verus! {

/// Updating one slot of a sequence and mapping a function over it commute.
pub broadcast proof fn lemma_map_values_update<A, B>(s: Seq<A>, i: int, x: A, f: spec_fn(A) -> B)
    requires
        0 <= i < s.len(),
    ensures
        #[trigger] s.update(i, x).map_values(f) == s.map_values(f).update(i, f(x)),
{
    assert(s.update(i, x).map_values(f) =~= s.map_values(f).update(i, f(x)));
}

/// A parameter under construction.
#[derive(Debug)]
pub struct ParameterBuilder {
    pub param_name: Option<String>,
    pub param_type: Option<String>,
    pub is_array: bool,
}

/// The mathematical shape of a `ParameterBuilder`.
#[verifier::ext_equal]
pub struct ParameterBuilderV {
    pub param_name: Option<Seq<char>>,
    pub param_type: Option<Seq<char>>,
    pub is_array: bool,
}

impl View for ParameterBuilder {
    type V = ParameterBuilderV;

    open spec fn view(&self) -> ParameterBuilderV {
        ParameterBuilderV {
            param_name: match self.param_name {
                Some(ref s) => Some(s@),
                None => None,
            },
            param_type: match self.param_type {
                Some(ref s) => Some(s@),
                None => None,
            },
            is_array: self.is_array,
        }
    }
}

/// A finished parameter, or the hole that is still open.
pub open spec fn spec_build_parameter(p: ParameterBuilderV) -> Result<ParameterV, ParseError> {
    match (p.param_name, p.param_type) {
        (Some(n), Some(t)) => Ok(ParameterV { param_name: n, param_type: t, is_array: p.is_array }),
        _ => Err(ParseError::IncompleteParameter),
    }
}

pub open spec fn spec_build_parameters(ps: Seq<ParameterBuilderV>) -> Result<
    Seq<ParameterV>,
    ParseError,
>
    decreases ps.len(),
{
    if ps.len() == 0 {
        Ok(Seq::empty())
    } else {
        match spec_build_parameter(ps[0]) {
            Err(e) => Err(e),
            Ok(p) => match spec_build_parameters(ps.drop_first()) {
                Err(e) => Err(e),
                Ok(rest) => Ok(seq![p] + rest),
            },
        }
    }
}

impl ParameterBuilder {
    pub fn new() -> (b: ParameterBuilder)
        ensures
            b@ == (ParameterBuilderV { param_name: None, param_type: None, is_array: false }),
    {
        ParameterBuilder { param_name: None, param_type: None, is_array: false }
    }

    pub fn with_name(&mut self, name: String)
        ensures
            final(self)@ == (ParameterBuilderV { param_name: Some(name@), ..old(self)@ }),
    {
        self.param_name = Some(name)
    }

    pub fn with_type(&mut self, param_type: String)
        ensures
            final(self)@ == (ParameterBuilderV { param_type: Some(param_type@), ..old(self)@ }),
    {
        self.param_type = Some(param_type)
    }

    pub fn as_array(&mut self)
        ensures
            final(self)@ == (ParameterBuilderV { is_array: true, ..old(self)@ }),
    {
        self.is_array = true;
    }

    /// The finished parameter; an unset name or type is a structural failure.
    pub fn build(&self) -> (r: Result<AstParameter, ParseError>)
        ensures
            match spec_build_parameter(self@) {
                Ok(pv) => r is Ok && r.unwrap()@ == pv,
                Err(e) => r == Err::<AstParameter, ParseError>(e),
            },
    {
        let param_name = match &self.param_name {
            Some(n) => n.clone(),
            None => {
                return Err(ParseError::IncompleteParameter);
            },
        };
        let param_type = match &self.param_type {
            Some(t) => t.clone(),
            None => {
                return Err(ParseError::IncompleteParameter);
            },
        };
        Ok(AstParameter::new(param_name, param_type, self.is_array))
    }
}

/// A method under construction.
#[derive(Debug)]
pub struct MethodBuilder {
    pub name: Option<String>,
    pub scope: Option<AstScope>,
    pub is_static: bool,
    pub is_final: bool,
    pub return_type: Option<String>,
    pub return_type_is_array: bool,
    pub parameters: Vec<ParameterBuilder>,
    pub statements: Vec<Statement>,
}

/// The mathematical shape of a `MethodBuilder`.
#[verifier::ext_equal]
pub struct MethodBuilderV {
    pub name: Option<Seq<char>>,
    pub scope: Option<AstScope>,
    pub is_static: bool,
    pub is_final: bool,
    pub return_type: Option<Seq<char>>,
    pub return_type_is_array: bool,
    pub parameters: Seq<ParameterBuilderV>,
    pub statements: Seq<StatementV>,
}

impl View for MethodBuilder {
    type V = MethodBuilderV;

    open spec fn view(&self) -> MethodBuilderV {
        MethodBuilderV {
            name: match self.name {
                Some(ref s) => Some(s@),
                None => None,
            },
            scope: self.scope,
            is_static: self.is_static,
            is_final: self.is_final,
            return_type: match self.return_type {
                Some(ref s) => Some(s@),
                None => None,
            },
            return_type_is_array: self.return_type_is_array,
            parameters: self.parameters@.map_values(|p: ParameterBuilder| p@),
            statements: stmts_view(self.statements@),
        }
    }
}

/// A finished method, or the first hole still open in it. An unset scope
/// defaults to public.
pub open spec fn spec_build_method(m: MethodBuilderV) -> Result<MethodV, ParseError> {
    if m.name is None {
        Err(ParseError::IncompleteMethod)
    } else if m.return_type is None {
        Err(ParseError::IncompleteMethod)
    } else {
        match spec_build_parameters(m.parameters) {
            Err(e) => Err(e),
            Ok(ps) => Ok(
                MethodV {
                    name: m.name.unwrap(),
                    scope: match m.scope {
                        Some(s) => s,
                        None => AstScope::Public,
                    },
                    is_final: m.is_final,
                    is_static: m.is_static,
                    return_type: m.return_type.unwrap(),
                    return_type_is_array: m.return_type_is_array,
                    parameters: ps,
                    statements: m.statements,
                },
            ),
        }
    }
}

pub open spec fn spec_build_methods(ms: Seq<MethodBuilderV>) -> Result<Seq<MethodV>, ParseError>
    decreases ms.len(),
{
    if ms.len() == 0 {
        Ok(Seq::empty())
    } else {
        match spec_build_method(ms[0]) {
            Err(e) => Err(e),
            Ok(m) => match spec_build_methods(ms.drop_first()) {
                Err(e) => Err(e),
                Ok(rest) => Ok(seq![m] + rest),
            },
        }
    }
}

impl MethodBuilder {
    pub fn new() -> (b: MethodBuilder)
        ensures
            b@ == (MethodBuilderV {
                name: None,
                scope: None,
                is_static: false,
                is_final: false,
                return_type: None,
                return_type_is_array: false,
                parameters: Seq::empty(),
                statements: Seq::empty(),
            }),
    {
        let b = MethodBuilder {
            name: None,
            scope: None,
            is_static: false,
            is_final: false,
            return_type: None,
            return_type_is_array: false,
            parameters: Vec::new(),
            statements: Vec::new(),
        };
        proof {
            assert(b.parameters@.map_values(|p: ParameterBuilder| p@) =~= Seq::<
                ParameterBuilderV,
            >::empty());
            assert(stmts_view(b.statements@) =~= Seq::<StatementV>::empty());
        }
        b
    }

    pub fn with_name(&mut self, name: String)
        ensures
            final(self)@ == (MethodBuilderV { name: Some(name@), ..old(self)@ }),
    {
        self.name = Some(name)
    }

    pub fn with_scope(&mut self, scope: AstScope)
        ensures
            final(self)@ == (MethodBuilderV { scope: Some(scope), ..old(self)@ }),
    {
        self.scope = Some(scope)
    }

    pub fn as_static(&mut self)
        ensures
            final(self)@ == (MethodBuilderV { is_static: true, ..old(self)@ }),
    {
        self.is_static = true;
    }

    pub fn as_final(&mut self)
        ensures
            final(self)@ == (MethodBuilderV { is_final: true, ..old(self)@ }),
    {
        self.is_final = true;
    }

    pub fn with_return_type(&mut self, return_type: String)
        ensures
            final(self)@ == (MethodBuilderV { return_type: Some(return_type@), ..old(self)@ }),
    {
        self.return_type = Some(return_type)
    }

    pub fn return_type_is_array(&mut self, return_type_is_array: bool)
        ensures
            final(self)@ == (MethodBuilderV { return_type_is_array, ..old(self)@ }),
    {
        self.return_type_is_array = return_type_is_array
    }

    pub fn with_new_parameter(&mut self)
        ensures
            final(self)@ == (MethodBuilderV {
                parameters: old(self)@.parameters.push(
                    ParameterBuilderV { param_name: None, param_type: None, is_array: false },
                ),
                ..old(self)@
            }),
    {
        let ghost pre = self.parameters@;
        self.parameters.push(ParameterBuilder::new());
        proof {
            assert(self.parameters@.map_values(|p: ParameterBuilder| p@) =~= pre.map_values(
                |p: ParameterBuilder| p@,
            ).push(ParameterBuilderV { param_name: None, param_type: None, is_array: false }));
        }
    }

    /// The parameter most recently begun; mutations through the returned
    /// reference land on the last slot of the parameter list.
    pub fn latest_parameter(&mut self) -> (r: &mut ParameterBuilder)
        requires
            old(self).parameters@.len() > 0,
        ensures
            *r == old(self).parameters@.last(),
            final(self).parameters@ == old(self).parameters@.update(
                old(self).parameters@.len() - 1,
                *final(r),
            ),
            final(self).name == old(self).name,
            final(self).scope == old(self).scope,
            final(self).is_static == old(self).is_static,
            final(self).is_final == old(self).is_final,
            final(self).return_type == old(self).return_type,
            final(self).return_type_is_array == old(self).return_type_is_array,
            final(self).statements == old(self).statements,
    {
        let n = self.parameters.len();
        &mut self.parameters[n - 1]
    }

    /// Attaches the collected body statements, in order, after any already
    /// attached.
    pub fn with_statements(&mut self, statements: Vec<Statement>)
        ensures
            final(self)@ == (MethodBuilderV {
                statements: old(self)@.statements + stmts_view(statements@),
                ..old(self)@
            }),
    {
        let ghost pre = self.statements@;
        let ghost incoming = statements@;
        let mut statements = statements;
        self.statements.append(&mut statements);
        proof {
            assert(stmts_view(pre + incoming) =~= stmts_view(pre) + stmts_view(incoming));
        }
    }

    /// The finished method; an unset name or return type is a structural
    /// failure.
    #[verifier::loop_isolation(false)]
    pub fn build(self) -> (r: Result<AstMethod, ParseError>)
        ensures
            match spec_build_method(self@) {
                Ok(mv) => r is Ok && r.unwrap()@ == mv,
                Err(e) => r == Err::<AstMethod, ParseError>(e),
            },
    {
        let name = match &self.name {
            Some(n) => n.clone(),
            None => {
                return Err(ParseError::IncompleteMethod);
            },
        };
        let return_type = match &self.return_type {
            Some(t) => t.clone(),
            None => {
                return Err(ParseError::IncompleteMethod);
            },
        };
        let ghost pbs = self@.parameters;
        let mut ast_parameters: Vec<AstParameter> = Vec::new();
        let n = self.parameters.len();
        proof {
            assert(pbs.skip(0) =~= pbs);
            assert(crate::ast::class::params_view(ast_parameters@) =~= Seq::<ParameterV>::empty());
        }
        for i in 0..n
            invariant
                n == self.parameters@.len(),
                pbs == self.parameters@.map_values(|p: ParameterBuilder| p@),
                spec_build_parameters(pbs) == (match spec_build_parameters(pbs.skip(i as int)) {
                    Err(e) => Err::<Seq<ParameterV>, ParseError>(e),
                    Ok(rest) => Ok(crate::ast::class::params_view(ast_parameters@) + rest),
                }),
        {
            proof {
                assert(pbs.skip(i as int)[0] == pbs[i as int]);
                assert(pbs.skip(i as int).drop_first() =~= pbs.skip(i + 1));
            }
            let ghost built_pre = ast_parameters@;
            match self.parameters[i].build() {
                Ok(p) => {
                    ast_parameters.push(p);
                    proof {
                        assert(crate::ast::class::params_view(built_pre.push(p))
                            =~= crate::ast::class::params_view(built_pre).push(p@));
                        if let Ok(rest) = spec_build_parameters(pbs.skip(i + 1)) {
                            assert(crate::ast::class::params_view(built_pre) + (seq![p@] + rest)
                                =~= crate::ast::class::params_view(ast_parameters@) + rest);
                        }
                    }
                },
                Err(e) => {
                    proof {
                        assert(pbs[i as int] == self.parameters@[i as int]@);
                        assert(spec_build_parameter(pbs[i as int]) == Err::<
                            ParameterV,
                            ParseError,
                        >(e));
                        assert(spec_build_parameters(pbs.skip(i as int)) == Err::<
                            Seq<ParameterV>,
                            ParseError,
                        >(e));
                        assert(spec_build_parameters(pbs) == Err::<Seq<ParameterV>, ParseError>(e));
                    }
                    return Err(e);
                },
            }
        }
        proof {
            assert(pbs.skip(n as int) =~= Seq::<ParameterBuilderV>::empty());
            if let Ok(rest) = spec_build_parameters(pbs.skip(n as int)) {
                assert(crate::ast::class::params_view(ast_parameters@) + rest
                    =~= crate::ast::class::params_view(ast_parameters@));
            }
        }
        let scope = match self.scope {
            Some(s) => s,
            None => AstScope::Public,
        };
        Ok(
            AstMethod::new(
                name,
                scope,
                self.is_final,
                self.is_static,
                return_type,
                self.return_type_is_array,
                ast_parameters,
                self.statements,
            ),
        )
    }
}

/// The class under construction, driven by the structural state machine.
#[derive(Debug)]
pub struct ClassBuilder {
    pub name: Option<String>,
    pub scope: AstScope,
    pub is_static: bool,
    pub is_final: bool,
    pub methods: Vec<MethodBuilder>,
}

/// The mathematical shape of a `ClassBuilder`.
#[verifier::ext_equal]
pub struct ClassBuilderV {
    pub name: Option<Seq<char>>,
    pub scope: AstScope,
    pub is_static: bool,
    pub is_final: bool,
    pub methods: Seq<MethodBuilderV>,
}

impl View for ClassBuilder {
    type V = ClassBuilderV;

    open spec fn view(&self) -> ClassBuilderV {
        ClassBuilderV {
            name: match self.name {
                Some(ref s) => Some(s@),
                None => None,
            },
            scope: self.scope,
            is_static: self.is_static,
            is_final: self.is_final,
            methods: self.methods@.map_values(|m: MethodBuilder| m@),
        }
    }
}

/// A finished class, or the first hole still open in it.
pub open spec fn spec_build_class(c: ClassBuilderV) -> Result<ClassV, ParseError> {
    if c.name is None {
        Err(ParseError::IncompleteClass)
    } else {
        match spec_build_methods(c.methods) {
            Err(e) => Err(e),
            Ok(ms) => Ok(
                ClassV {
                    name: c.name.unwrap(),
                    scope: c.scope,
                    is_static: c.is_static,
                    is_final: c.is_final,
                    methods: ms,
                },
            ),
        }
    }
}

impl ClassBuilder {
    pub fn new() -> (b: ClassBuilder)
        ensures
            b@ == (ClassBuilderV {
                name: None,
                scope: AstScope::Default,
                is_static: false,
                is_final: false,
                methods: Seq::empty(),
            }),
    {
        let b = ClassBuilder {
            name: None,
            scope: AstScope::Default,
            is_static: false,
            is_final: false,
            methods: Vec::new(),
        };
        proof {
            assert(b.methods@.map_values(|m: MethodBuilder| m@) =~= Seq::<MethodBuilderV>::empty());
        }
        b
    }

    pub fn with_scope(&mut self, scope: AstScope)
        ensures
            final(self)@ == (ClassBuilderV { scope, ..old(self)@ }),
    {
        self.scope = scope
    }

    pub fn as_static(&mut self)
        ensures
            final(self)@ == (ClassBuilderV { is_static: true, ..old(self)@ }),
    {
        self.is_static = true
    }

    pub fn as_final(&mut self)
        ensures
            final(self)@ == (ClassBuilderV { is_final: true, ..old(self)@ }),
    {
        self.is_final = true
    }

    pub fn with_new_method(&mut self)
        ensures
            final(self)@ == (ClassBuilderV {
                methods: old(self)@.methods.push(
                    MethodBuilderV {
                        name: None,
                        scope: None,
                        is_static: false,
                        is_final: false,
                        return_type: None,
                        return_type_is_array: false,
                        parameters: Seq::empty(),
                        statements: Seq::empty(),
                    },
                ),
                ..old(self)@
            }),
    {
        let ghost pre = self.methods@;
        self.methods.push(MethodBuilder::new());
        proof {
            assert(self.methods@.map_values(|m: MethodBuilder| m@) =~= pre.map_values(
                |m: MethodBuilder| m@,
            ).push(
                MethodBuilderV {
                    name: None,
                    scope: None,
                    is_static: false,
                    is_final: false,
                    return_type: None,
                    return_type_is_array: false,
                    parameters: Seq::empty(),
                    statements: Seq::empty(),
                },
            ));
        }
    }

    pub fn named(&mut self, name: String)
        ensures
            final(self)@ == (ClassBuilderV { name: Some(name@), ..old(self)@ }),
    {
        self.name = Some(name)
    }

    /// The method most recently begun; mutations through the returned
    /// reference land on the last slot of the method list.
    pub fn latest_method(&mut self) -> (r: &mut MethodBuilder)
        requires
            old(self).methods@.len() > 0,
        ensures
            *r == old(self).methods@.last(),
            final(self).methods@ == old(self).methods@.update(
                old(self).methods@.len() - 1,
                *final(r),
            ),
            final(self).name == old(self).name,
            final(self).scope == old(self).scope,
            final(self).is_static == old(self).is_static,
            final(self).is_final == old(self).is_final,
    {
        let n = self.methods.len();
        &mut self.methods[n - 1]
    }

    /// The finished class; an unset class name, or any hole left in a
    /// method, is a structural failure.
    pub fn build(self) -> (r: Result<AstClass, ParseError>)
        ensures
            match spec_build_class(self@) {
                Ok(cv) => r is Ok && r.unwrap()@ == cv,
                Err(e) => r == Err::<AstClass, ParseError>(e),
            },
    {
        let ClassBuilder { name, scope, is_static, is_final, methods } = self;
        let ghost selfv = ClassBuilderV {
            name: match name {
                Some(ref s) => Some(s@),
                None => None,
            },
            scope,
            is_static,
            is_final,
            methods: methods@.map_values(|m: MethodBuilder| m@),
        };
        let name = match name {
            Some(n) => n,
            None => {
                return Err(ParseError::IncompleteClass);
            },
        };
        let ghost mbs = selfv.methods;
        let mut ast_methods: Vec<AstMethod> = Vec::new();
        let mut methods = methods;
        let ghost total = mbs.len();
        proof {
            assert(mbs.skip(0) =~= mbs);
            assert(crate::ast::class::methods_view(ast_methods@) =~= Seq::<MethodV>::empty());
        }
        #[verifier::loop_isolation(false)]
        loop
            invariant
                ast_methods@.len() + methods@.len() == total,
                mbs.skip(ast_methods@.len() as int) =~= methods@.map_values(
                    |m: MethodBuilder| m@,
                ),
                spec_build_methods(mbs) == (match spec_build_methods(
                    mbs.skip(ast_methods@.len() as int),
                ) {
                    Err(e) => Err::<Seq<MethodV>, ParseError>(e),
                    Ok(rest) => Ok(crate::ast::class::methods_view(ast_methods@) + rest),
                }),
            decreases methods@.len(),
        {
            if methods.len() == 0 {
                break;
            }
            let ghost k = ast_methods@.len() as int;
            let ghost rem_pre = methods@;
            let method_builder = methods.remove(0);
            proof {
                assert(rem_pre.map_values(|m: MethodBuilder| m@)[0] == method_builder@);
                assert(mbs.skip(k)[0] == method_builder@);
                assert(methods@ =~= rem_pre.drop_first());
                assert(methods@.map_values(|m: MethodBuilder| m@) =~= rem_pre.map_values(
                    |m: MethodBuilder| m@,
                ).drop_first());
                assert(mbs.skip(k).drop_first() =~= mbs.skip(k + 1));
            }
            let ghost built_pre = ast_methods@;
            match method_builder.build() {
                Ok(m) => {
                    ast_methods.push(m);
                    proof {
                        assert(crate::ast::class::methods_view(built_pre.push(m))
                            =~= crate::ast::class::methods_view(built_pre).push(m@));
                        if let Ok(rest) = spec_build_methods(mbs.skip(k + 1)) {
                            assert(crate::ast::class::methods_view(built_pre) + (seq![m@] + rest)
                                =~= crate::ast::class::methods_view(ast_methods@) + rest);
                        }
                    }
                },
                Err(e) => {
                    return Err(e);
                },
            }
        }
        proof {
            assert(mbs.skip(total as int) =~= Seq::<MethodBuilderV>::empty());
            if let Ok(rest) = spec_build_methods(mbs.skip(total as int)) {
                assert(crate::ast::class::methods_view(ast_methods@) + rest
                    =~= crate::ast::class::methods_view(ast_methods@));
            }
        }
        Ok(AstClass::new(name, scope, is_static, is_final, ast_methods))
    }
}

} // verus!
