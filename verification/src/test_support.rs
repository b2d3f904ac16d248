pub mod comparator;
pub mod java_api_harness;

use vstd::prelude::*;

use crate::ast::class::{AstClass, AstMethod};
use crate::ast::spec_to_ast;
use crate::scanner::scanner::spec_scan;
use crate::test_support::comparator::{
    check_and_report_difference_in_class, check_and_report_differences_in_methods, class_matches,
    method_matches, ComparisonResult,
};

verus! {

/// Scans and parses a whole source text and compares the result against the
/// expected class, field by field.
pub fn build_class_from_source_and_compare(source: &str, expected_class: &AstClass) -> (r:
    ComparisonResult)
    ensures
        (r is Match) <==> (match spec_to_ast(spec_scan(source@)) {
            Ok(cv) => class_matches(expected_class@, cv),
            Err(_) => false,
        }),
{
    let actual_class = match crate::build_ast(source) {
        Ok(c) => c,
        Err(_) => {
            let mut differences: Vec<String> = Vec::new();
            differences.push(String::from_str("Class could not be parsed"));
            return ComparisonResult::NoMatch { differences };
        },
    };

    let mut differences: Vec<String> = Vec::new();
    check_and_report_difference_in_class(expected_class, &actual_class, "Class", &mut differences);
    if differences.len() == 0 {
        ComparisonResult::Match
    } else {
        ComparisonResult::NoMatch { differences }
    }
}

/// Wraps a method body in a minimal class, parses it, and compares the one
/// parsed method against the expected method, field by field.
pub fn build_method_only_and_compare(content: &str, expected_method: &AstMethod) -> (r:
    ComparisonResult)
    ensures
        (r is Match) <==> (match spec_to_ast(
            spec_scan("public class Simple { "@ + content@ + " }"@),
        ) {
            Ok(cv) => cv.methods.len() == 1 && method_matches(expected_method@, cv.methods[0]),
            Err(_) => false,
        }),
{
    let source = String::from_str("public class Simple { ").concat(content).concat(" }");

    let actual_class = match crate::build_ast(source.as_str()) {
        Ok(c) => c,
        Err(_) => {
            let mut differences: Vec<String> = Vec::new();
            differences.push(String::from_str("Class could not be parsed"));
            return ComparisonResult::NoMatch { differences };
        },
    };

    if actual_class.methods.len() != 1 {
        let mut differences: Vec<String> = Vec::new();
        differences.push(String::from_str("Expected exactly one method"));
        proof {
            assert(crate::ast::class::methods_view(actual_class.methods@).len()
                == actual_class.methods@.len());
        }
        return ComparisonResult::NoMatch { differences };
    }

    let mut differences: Vec<String> = Vec::new();
    check_and_report_differences_in_methods(
        expected_method,
        &actual_class.methods[0],
        "Method",
        &mut differences,
    );
    proof {
        assert(crate::ast::class::methods_view(actual_class.methods@)[0]
            == actual_class.methods@[0]@);
    }
    if differences.len() == 0 {
        ComparisonResult::Match
    } else {
        ComparisonResult::NoMatch { differences }
    }
}

} // verus!
