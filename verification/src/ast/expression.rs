use vstd::prelude::*;

verus! {

/// One expression of a method body, produced by the backtracking grammar.
///
/// `Variable` carries `type_def` only when the identifier was syntactically
/// preceded by a bare type token, which signals a declaration.
/// `ObjectExpression` right-associates a chained access such as
/// `System.out.println(..)`.
#[derive(Debug)]
pub enum Expression {
    Call { method_name: String, arguments: Vec<Expression> },
    StringLiteral { value: String },
    Variable { name: String, type_def: Option<String> },
    StaticIdentifier { name: String },
    ChildIdentifier { parent: Box<Expression>, name: String },
    ObjectExpression { parent: Box<Expression>, child: Box<Expression> },
    Assignment { name: String, type_def: Option<String>, value: Box<Expression> },
}

/// The mathematical shape of an `Expression`: names as character sequences.
#[verifier::ext_equal]
pub enum ExpressionV {
    Call { method_name: Seq<char>, arguments: Seq<ExpressionV> },
    StringLiteral { value: Seq<char> },
    Variable { name: Seq<char>, type_def: Option<Seq<char>> },
    StaticIdentifier { name: Seq<char> },
    ChildIdentifier { parent: Box<ExpressionV>, name: Seq<char> },
    ObjectExpression { parent: Box<ExpressionV>, child: Box<ExpressionV> },
    Assignment { name: Seq<char>, type_def: Option<Seq<char>>, value: Box<ExpressionV> },
}

pub open spec fn opt_string_view(o: Option<String>) -> Option<Seq<char>> {
    match o {
        Some(s) => Some(s@),
        None => None,
    }
}

pub open spec fn expr_view(e: Expression) -> ExpressionV
    decreases e,
{
    match e {
        Expression::Call { method_name, arguments } => ExpressionV::Call {
            method_name: method_name@,
            arguments: exprs_view(arguments@),
        },
        Expression::StringLiteral { value } => ExpressionV::StringLiteral { value: value@ },
        Expression::Variable { name, type_def } => ExpressionV::Variable {
            name: name@,
            type_def: opt_string_view(type_def),
        },
        Expression::StaticIdentifier { name } => ExpressionV::StaticIdentifier { name: name@ },
        Expression::ChildIdentifier { parent, name } => ExpressionV::ChildIdentifier {
            parent: Box::new(expr_view(*parent)),
            name: name@,
        },
        Expression::ObjectExpression { parent, child } => ExpressionV::ObjectExpression {
            parent: Box::new(expr_view(*parent)),
            child: Box::new(expr_view(*child)),
        },
        Expression::Assignment { name, type_def, value } => ExpressionV::Assignment {
            name: name@,
            type_def: opt_string_view(type_def),
            value: Box::new(expr_view(*value)),
        },
    }
}

pub open spec fn exprs_view(es: Seq<Expression>) -> Seq<ExpressionV>
    decreases es,
{
    if es.len() == 0 {
        Seq::empty()
    } else {
        seq![expr_view(es[0])] + exprs_view(es.drop_first())
    }
}

/// `exprs_view` maps `expr_view` over the sequence, element by element.
pub proof fn lemma_exprs_view(es: Seq<Expression>)
    ensures
        exprs_view(es).len() == es.len(),
        forall|i: int| 0 <= i < es.len() ==> #[trigger] exprs_view(es)[i] == expr_view(es[i]),
    decreases es.len(),
{
    if es.len() > 0 {
        lemma_exprs_view(es.drop_first());
        assert forall|i: int| 0 <= i < es.len() implies #[trigger] exprs_view(es)[i] == expr_view(
            es[i],
        ) by {
            if i > 0 {
                assert(exprs_view(es)[i] == exprs_view(es.drop_first())[i - 1]);
                assert(es.drop_first()[i - 1] == es[i]);
            }
        }
    }
}

impl View for Expression {
    type V = ExpressionV;

    open spec fn view(&self) -> ExpressionV {
        expr_view(*self)
    }
}

impl Expression {
    pub fn new_call(method_name: String, arguments: Vec<Expression>) -> (e: Expression)
        ensures
            e@ == (ExpressionV::Call { method_name: method_name@, arguments: exprs_view(arguments@) }),
    {
        Expression::Call { method_name, arguments }
    }

    pub fn new_string_literal(value: String) -> (e: Expression)
        ensures
            e@ == (ExpressionV::StringLiteral { value: value@ }),
    {
        Expression::StringLiteral { value }
    }

    pub fn new_variable(name: String, type_def: Option<String>) -> (e: Expression)
        ensures
            e@ == (ExpressionV::Variable { name: name@, type_def: opt_string_view(type_def) }),
    {
        Expression::Variable { name, type_def }
    }

    pub fn new_static_identifier(name: String) -> (e: Expression)
        ensures
            e@ == (ExpressionV::StaticIdentifier { name: name@ }),
    {
        Expression::StaticIdentifier { name }
    }

    pub fn new_child_identifier(parent: Expression, name: String) -> (e: Expression)
        ensures
            e@ == (ExpressionV::ChildIdentifier { parent: Box::new(parent@), name: name@ }),
    {
        Expression::ChildIdentifier { parent: Box::new(parent), name }
    }

    pub fn new_object_expression(parent: Expression, child: Expression) -> (e: Expression)
        ensures
            e@ == (ExpressionV::ObjectExpression {
                parent: Box::new(parent@),
                child: Box::new(child@),
            }),
    {
        Expression::ObjectExpression { parent: Box::new(parent), child: Box::new(child) }
    }

    pub fn new_assignment(name: String, type_def: Option<String>, value: Expression) -> (e:
        Expression)
        ensures
            e@ == (ExpressionV::Assignment {
                name: name@,
                type_def: opt_string_view(type_def),
                value: Box::new(value@),
            }),
    {
        Expression::Assignment { name, type_def, value: Box::new(value) }
    }
}

} // verus!
