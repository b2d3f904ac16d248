use vstd::prelude::*;

use crate::ast::class::{
    methods_view, params_view, AstClass, AstMethod, AstParameter,
};
use crate::ast::expression::{expr_view, exprs_view, lemma_exprs_view, Expression};
use crate::ast::statement::{stmt_view, stmts_view, Statement};
use crate::compiler::instructions::{expr_size, exprs_size, lemma_exprs_size_elem};

verus! {

/// Whether two parameters agree on the compared fields: the comparison
/// covers the declared name and type (the array marker is not compared).
pub open spec fn param_matches(a: crate::ast::class::ParameterV, b: crate::ast::class::ParameterV) -> bool {
    a.param_name == b.param_name && a.param_type == b.param_type
}

/// Whether two parameter lists agree, pairwise, on the compared fields.
pub open spec fn params_match(
    a: Seq<crate::ast::class::ParameterV>,
    b: Seq<crate::ast::class::ParameterV>,
) -> bool {
    a.len() == b.len() && forall|i: int| 0 <= i < a.len() ==> param_matches(#[trigger] a[i], b[i])
}

/// Whether two methods agree on the compared fields: everything except the
/// parameters' array markers.
pub open spec fn method_matches(a: crate::ast::class::MethodV, b: crate::ast::class::MethodV) -> bool {
    &&& a.name == b.name
    &&& a.scope == b.scope
    &&& a.is_static == b.is_static
    &&& a.is_final == b.is_final
    &&& a.return_type == b.return_type
    &&& a.return_type_is_array == b.return_type_is_array
    &&& params_match(a.parameters, b.parameters)
    &&& a.statements == b.statements
}

/// Whether two classes agree on the compared fields, methods included.
pub open spec fn class_matches(a: crate::ast::class::ClassV, b: crate::ast::class::ClassV) -> bool {
    &&& a.name == b.name
    &&& a.scope == b.scope
    &&& a.is_static == b.is_static
    &&& a.is_final == b.is_final
    &&& a.methods.len() == b.methods.len()
    &&& forall|i: int| 0 <= i < a.methods.len() ==> method_matches(#[trigger] a.methods[i], b.methods[i])
}

/// The outcome of a structural comparison: a match, or the labels of the
/// places that differed.
#[derive(Debug, PartialEq)]
pub enum ComparisonResult {
    Match,
    NoMatch { differences: Vec<String> },
}

/// Whether two optional type annotations agree.
fn opt_string_eq(a: &Option<String>, b: &Option<String>) -> (r: bool)
    ensures
        r == (crate::ast::expression::opt_string_view(*a) == crate::ast::expression::opt_string_view(
            *b,
        )),
{
    match (a, b) {
        (None, None) => true,
        (Some(x), Some(y)) => *x == *y,
        _ => false,
    }
}

/// Whether two expressions are structurally equal.
pub fn expressions_equal(a: &Expression, b: &Expression) -> (r: bool)
    ensures
        r == (expr_view(*a) == expr_view(*b)),
    decreases expr_size(expr_view(*a)), 1int,
{
    match (a, b) {
        (
            Expression::Call { method_name: n1, arguments: a1 },
            Expression::Call { method_name: n2, arguments: a2 },
        ) => *n1 == *n2 && expression_lists_equal(a1, a2),
        (
            Expression::StringLiteral { value: v1 },
            Expression::StringLiteral { value: v2 },
        ) => *v1 == *v2,
        (
            Expression::Variable { name: n1, type_def: t1 },
            Expression::Variable { name: n2, type_def: t2 },
        ) => *n1 == *n2 && opt_string_eq(t1, t2),
        (
            Expression::StaticIdentifier { name: n1 },
            Expression::StaticIdentifier { name: n2 },
        ) => *n1 == *n2,
        (
            Expression::ChildIdentifier { parent: p1, name: n1 },
            Expression::ChildIdentifier { parent: p2, name: n2 },
        ) => {
            proof {
                crate::compiler::instructions::lemma_expr_size_pos(expr_view(**p1));
            }
            *n1 == *n2 && expressions_equal(p1, p2)
        },
        (
            Expression::ObjectExpression { parent: p1, child: c1 },
            Expression::ObjectExpression { parent: p2, child: c2 },
        ) => {
            proof {
                crate::compiler::instructions::lemma_expr_size_pos(expr_view(**p1));
                crate::compiler::instructions::lemma_expr_size_pos(expr_view(**c1));
            }
            expressions_equal(p1, p2) && expressions_equal(c1, c2)
        },
        (
            Expression::Assignment { name: n1, type_def: t1, value: v1 },
            Expression::Assignment { name: n2, type_def: t2, value: v2 },
        ) => {
            proof {
                crate::compiler::instructions::lemma_expr_size_pos(expr_view(**v1));
            }
            *n1 == *n2 && opt_string_eq(t1, t2) && expressions_equal(v1, v2)
        },
        _ => false,
    }
}

/// Whether two argument lists are structurally equal, element by element.
#[verifier::loop_isolation(false)]
pub fn expression_lists_equal(a: &Vec<Expression>, b: &Vec<Expression>) -> (r: bool)
    ensures
        r == (exprs_view(a@) == exprs_view(b@)),
    decreases exprs_size(exprs_view(a@)), 0int,
{
    proof {
        lemma_exprs_view(a@);
        lemma_exprs_view(b@);
    }
    if a.len() != b.len() {
        proof {
            assert(exprs_view(a@).len() != exprs_view(b@).len());
        }
        return false;
    }
    let n = a.len();
    for i in 0..n
        invariant
            n == a@.len() && n == b@.len(),
            forall|j: int| 0 <= j < i ==> exprs_view(a@)[j] == exprs_view(b@)[j],
    {
        proof {
            lemma_exprs_size_elem(exprs_view(a@), i as int);
        }
        if !expressions_equal(&a[i], &b[i]) {
            proof {
                assert(exprs_view(a@)[i as int] != exprs_view(b@)[i as int]);
            }
            return false;
        }
    }
    proof {
        assert(exprs_view(a@) =~= exprs_view(b@));
    }
    true
}

/// Whether two optional initialising expressions agree.
fn opt_expression_eq(a: &Option<Expression>, b: &Option<Expression>) -> (r: bool)
    ensures
        r == ((match a {
            Some(e) => Some(expr_view(*e)),
            None => None,
        }) == (match b {
            Some(e) => Some(expr_view(*e)),
            None => None,
        })),
{
    match (a, b) {
        (None, None) => true,
        (Some(x), Some(y)) => expressions_equal(x, y),
        _ => false,
    }
}

/// Whether two statements are structurally equal.
pub fn statements_equal(a: &Statement, b: &Statement) -> (r: bool)
    ensures
        r == (stmt_view(*a) == stmt_view(*b)),
{
    match (a, b) {
        (
            Statement::Expression { expression: e1 },
            Statement::Expression { expression: e2 },
        ) => expressions_equal(e1, e2),
        (
            Statement::VariableAssignment { name: n1, var_type: t1, is_final: f1, value: v1 },
            Statement::VariableAssignment { name: n2, var_type: t2, is_final: f2, value: v2 },
        ) => *n1 == *n2 && opt_string_eq(t1, t2) && *f1 == *f2 && opt_expression_eq(v1, v2),
        _ => false,
    }
}

/// Whether two statement lists are structurally equal.
#[verifier::loop_isolation(false)]
pub fn statement_lists_equal(a: &Vec<Statement>, b: &Vec<Statement>) -> (r: bool)
    ensures
        r == (stmts_view(a@) == stmts_view(b@)),
{
    if a.len() != b.len() {
        proof {
            assert(stmts_view(a@).len() != stmts_view(b@).len());
        }
        return false;
    }
    let n = a.len();
    for i in 0..n
        invariant
            n == a@.len() && n == b@.len(),
            forall|j: int| 0 <= j < i ==> stmts_view(a@)[j] == stmts_view(b@)[j],
    {
        proof {
            assert(stmts_view(a@)[i as int] == stmt_view(a@[i as int]));
            assert(stmts_view(b@)[i as int] == stmt_view(b@[i as int]));
        }
        if !statements_equal(&a[i], &b[i]) {
            proof {
                assert(stmts_view(a@)[i as int] != stmts_view(b@)[i as int]);
            }
            return false;
        }
    }
    proof {
        assert(stmts_view(a@) =~= stmts_view(b@));
    }
    true
}

/// Appends the label when the two values differ.
fn report_if(differs: bool, label: &str, differences: &mut Vec<String>)
    ensures
        differs ==> final(differences)@.len() == old(differences)@.len() + 1
            && final(differences)@.last()@ == label@,
        !differs ==> final(differences)@ == old(differences)@,
        old(differences)@.len() <= final(differences)@.len(),
        (final(differences)@.len() == old(differences)@.len()) == !differs,
{
    if differs {
        differences.push(String::from_str(label));
    }
}

/// Compares two parameters field by field, reporting each difference under
/// the given label.
pub fn check_and_report_differences_in_parameters(
    expected_parameter: &AstParameter,
    actual_parameter: &AstParameter,
    name: &str,
    differences: &mut Vec<String>,
)
    ensures
        old(differences)@.len() <= final(differences)@.len(),
        (final(differences)@.len() == old(differences)@.len()) == param_matches(
            expected_parameter@,
            actual_parameter@,
        ),
{
    let same_name = expected_parameter.param_name == actual_parameter.param_name;
    let same_type = expected_parameter.param_type == actual_parameter.param_type;
    report_if(!(same_name && same_type), name, differences);
}

/// Compares two methods field by field, reporting each difference under the
/// given label.
pub fn check_and_report_differences_in_methods(
    expected_method: &AstMethod,
    actual_method: &AstMethod,
    name: &str,
    differences: &mut Vec<String>,
)
    ensures
        old(differences)@.len() <= final(differences)@.len(),
        (final(differences)@.len() == old(differences)@.len()) == method_matches(
            expected_method@,
            actual_method@,
        ),
{
    let same_name = expected_method.name == actual_method.name;
    let same_scope = expected_method.scope == actual_method.scope;
    let same_static = expected_method.is_static == actual_method.is_static;
    let same_final = expected_method.is_final == actual_method.is_final;
    let same_return = expected_method.return_type == actual_method.return_type;
    let same_return_array = expected_method.return_type_is_array
        == actual_method.return_type_is_array;
    let same_parameters = parameter_lists_equal(
        &expected_method.parameters,
        &actual_method.parameters,
    );
    let same_statements = statement_lists_equal(
        &expected_method.statements,
        &actual_method.statements,
    );
    report_if(
        !(same_name && same_scope && same_static && same_final && same_return && same_return_array
            && same_parameters && same_statements),
        name,
        differences,
    );
}

/// Whether two parameter lists agree on the compared fields.
#[verifier::loop_isolation(false)]
pub fn parameter_lists_equal(a: &Vec<AstParameter>, b: &Vec<AstParameter>) -> (r: bool)
    ensures
        r == params_match(params_view(a@), params_view(b@)),
{
    if a.len() != b.len() {
        return false;
    }
    let n = a.len();
    for i in 0..n
        invariant
            n == a@.len() && n == b@.len(),
            forall|j: int|
                0 <= j < i ==> param_matches(params_view(a@)[j], params_view(b@)[j]),
    {
        proof {
            assert(params_view(a@)[i as int] == a@[i as int]@);
            assert(params_view(b@)[i as int] == b@[i as int]@);
        }
        let same_name = a[i].param_name == b[i].param_name;
        let same_type = a[i].param_type == b[i].param_type;
        if !(same_name && same_type) {
            return false;
        }
    }
    true
}

/// Whether two method lists agree, pairwise, on the compared fields.
#[verifier::loop_isolation(false)]
pub fn method_lists_equal(a: &Vec<AstMethod>, b: &Vec<AstMethod>) -> (r: bool)
    ensures
        r == (methods_view(a@).len() == methods_view(b@).len() && forall|i: int|
            0 <= i < methods_view(a@).len() ==> method_matches(
                #[trigger] methods_view(a@)[i],
                methods_view(b@)[i],
            )),
{
    if a.len() != b.len() {
        return false;
    }
    let n = a.len();
    for i in 0..n
        invariant
            n == a@.len() && n == b@.len(),
            forall|j: int|
                0 <= j < i ==> method_matches(
                    #[trigger] methods_view(a@)[j],
                    methods_view(b@)[j],
                ),
    {
        proof {
            assert(methods_view(a@)[i as int] == a@[i as int]@);
            assert(methods_view(b@)[i as int] == b@[i as int]@);
        }
        let mut inner: Vec<String> = Vec::new();
        check_and_report_differences_in_methods(&a[i], &b[i], "method", &mut inner);
        if inner.len() != 0 {
            return false;
        }
    }
    true
}

/// Compares two classes field by field, methods included, reporting each
/// difference under the given label. No label is appended exactly when the
/// two classes agree on every compared field.
pub fn check_and_report_difference_in_class(
    expected_class: &AstClass,
    actual_class: &AstClass,
    name: &str,
    differences: &mut Vec<String>,
)
    ensures
        old(differences)@.len() <= final(differences)@.len(),
        (final(differences)@.len() == old(differences)@.len()) == class_matches(
            expected_class@,
            actual_class@,
        ),
{
    let same_name = expected_class.name == actual_class.name;
    let same_scope = expected_class.scope == actual_class.scope;
    let same_static = expected_class.is_static == actual_class.is_static;
    let same_final = expected_class.is_final == actual_class.is_final;
    let same_methods = method_lists_equal(&expected_class.methods, &actual_class.methods);
    report_if(
        !(same_name && same_scope && same_static && same_final && same_methods),
        name,
        differences,
    );
}

} // verus!
