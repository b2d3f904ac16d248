use vstd::prelude::*;

use crate::ast::statement::{stmts_view, Statement, StatementV};

verus! {

/// Visibility of a class, method or field.
#[derive(Copy, Clone, Debug, PartialEq, Eq, Structural)]
pub enum AstScope {
    Public,
    Protected,
    Private,
    Default,
}

/// One formal parameter of a method.
#[derive(Debug, Clone)]
pub struct AstParameter {
    pub param_name: String,
    pub param_type: String,
    pub is_array: bool,
}

/// The mathematical shape of an `AstParameter`.
#[verifier::ext_equal]
pub struct ParameterV {
    pub param_name: Seq<char>,
    pub param_type: Seq<char>,
    pub is_array: bool,
}

impl View for AstParameter {
    type V = ParameterV;

    open spec fn view(&self) -> ParameterV {
        ParameterV {
            param_name: self.param_name@,
            param_type: self.param_type@,
            is_array: self.is_array,
        }
    }
}

impl AstParameter {
    pub fn new(param_name: String, param_type: String, is_array: bool) -> (p: AstParameter)
        ensures
            p@ == (ParameterV { param_name: param_name@, param_type: param_type@, is_array }),
    {
        AstParameter { param_name, param_type, is_array }
    }

    pub fn param_name(&self) -> (r: &String)
        ensures
            r@ == self@.param_name,
    {
        &self.param_name
    }

    pub fn param_type(&self) -> (r: &String)
        ensures
            r@ == self@.param_type,
    {
        &self.param_type
    }

    pub fn is_array(&self) -> (r: bool)
        ensures
            r == self@.is_array,
    {
        self.is_array
    }
}

/// One method of the parsed class: header data plus the ordered statements of
/// its body.
#[derive(Debug)]
pub struct AstMethod {
    pub name: String,
    pub scope: AstScope,
    pub is_final: bool,
    pub is_static: bool,
    pub return_type: String,
    pub return_type_is_array: bool,
    pub parameters: Vec<AstParameter>,
    pub statements: Vec<Statement>,
}

/// The mathematical shape of an `AstMethod`.
#[verifier::ext_equal]
pub struct MethodV {
    pub name: Seq<char>,
    pub scope: AstScope,
    pub is_final: bool,
    pub is_static: bool,
    pub return_type: Seq<char>,
    pub return_type_is_array: bool,
    pub parameters: Seq<ParameterV>,
    pub statements: Seq<StatementV>,
}

pub open spec fn params_view(ps: Seq<AstParameter>) -> Seq<ParameterV> {
    ps.map_values(|p: AstParameter| p@)
}

impl View for AstMethod {
    type V = MethodV;

    open spec fn view(&self) -> MethodV {
        MethodV {
            name: self.name@,
            scope: self.scope,
            is_final: self.is_final,
            is_static: self.is_static,
            return_type: self.return_type@,
            return_type_is_array: self.return_type_is_array,
            parameters: params_view(self.parameters@),
            statements: stmts_view(self.statements@),
        }
    }
}

impl AstMethod {
    pub fn new(
        name: String,
        scope: AstScope,
        is_final: bool,
        is_static: bool,
        return_type: String,
        return_type_is_array: bool,
        parameters: Vec<AstParameter>,
        statements: Vec<Statement>,
    ) -> (m: AstMethod)
        ensures
            m@ == (MethodV {
                name: name@,
                scope,
                is_final,
                is_static,
                return_type: return_type@,
                return_type_is_array,
                parameters: params_view(parameters@),
                statements: stmts_view(statements@),
            }),
    {
        AstMethod {
            name,
            scope,
            is_final,
            is_static,
            return_type,
            return_type_is_array,
            parameters,
            statements,
        }
    }

    pub fn name(&self) -> (r: &String)
        ensures
            r@ == self@.name,
    {
        &self.name
    }

    pub fn scope(&self) -> (r: AstScope)
        ensures
            r == self@.scope,
    {
        self.scope
    }

    pub fn is_final(&self) -> (r: bool)
        ensures
            r == self@.is_final,
    {
        self.is_final
    }

    pub fn is_static(&self) -> (r: bool)
        ensures
            r == self@.is_static,
    {
        self.is_static
    }

    pub fn return_type(&self) -> (r: &String)
        ensures
            r@ == self@.return_type,
    {
        &self.return_type
    }

    pub fn return_type_is_array(&self) -> (r: bool)
        ensures
            r == self@.return_type_is_array,
    {
        self.return_type_is_array
    }

    pub fn parameters(&self) -> (r: &Vec<AstParameter>)
        ensures
            params_view(r@) == self@.parameters,
    {
        &self.parameters
    }

    pub fn statements(&self) -> (r: &Vec<Statement>)
        ensures
            stmts_view(r@) == self@.statements,
    {
        &self.statements
    }
}

/// The root of the AST: one class and its methods, immutable once built.
#[derive(Debug)]
pub struct AstClass {
    pub name: String,
    pub scope: AstScope,
    pub is_static: bool,
    pub is_final: bool,
    pub methods: Vec<AstMethod>,
}

/// The mathematical shape of an `AstClass`.
#[verifier::ext_equal]
pub struct ClassV {
    pub name: Seq<char>,
    pub scope: AstScope,
    pub is_static: bool,
    pub is_final: bool,
    pub methods: Seq<MethodV>,
}

pub open spec fn methods_view(ms: Seq<AstMethod>) -> Seq<MethodV> {
    ms.map_values(|m: AstMethod| m@)
}

impl View for AstClass {
    type V = ClassV;

    open spec fn view(&self) -> ClassV {
        ClassV {
            name: self.name@,
            scope: self.scope,
            is_static: self.is_static,
            is_final: self.is_final,
            methods: methods_view(self.methods@),
        }
    }
}

impl AstClass {
    pub fn new(
        name: String,
        scope: AstScope,
        is_static: bool,
        is_final: bool,
        methods: Vec<AstMethod>,
    ) -> (c: AstClass)
        ensures
            c@ == (ClassV { name: name@, scope, is_static, is_final, methods: methods_view(methods@) }),
    {
        AstClass { name, scope, is_static, is_final, methods }
    }

    pub fn name(&self) -> (r: &String)
        ensures
            r@ == self@.name,
    {
        &self.name
    }

    pub fn scope(&self) -> (r: AstScope)
        ensures
            r == self@.scope,
    {
        self.scope
    }

    pub fn is_static(&self) -> (r: bool)
        ensures
            r == self@.is_static,
    {
        self.is_static
    }

    pub fn is_final(&self) -> (r: bool)
        ensures
            r == self@.is_final,
    {
        self.is_final
    }

    pub fn methods(&self) -> (r: &Vec<AstMethod>)
        ensures
            methods_view(r@) == self@.methods,
    {
        &self.methods
    }
}

} // verus!
