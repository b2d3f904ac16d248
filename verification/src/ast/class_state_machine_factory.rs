use vstd::prelude::*;

use crate::ast::state_machine::StateMachine;
use crate::scanner::token::TokenType;

verus! {

/// The states of the class/method structural grammar.
#[derive(Copy, Clone, Debug, PartialEq, Eq, Structural)]
pub enum ClassState {
    Initial,
    ClassScope,
    ClassDefinition,
    ClassName,
    ClassBody,
    MethodQualifier,
    MethodStatic,
    MethodReturn,
    MethodReturnArrayIndicatorStart,
    MethodReturnArrayIndicatorEnd,
    MethodName,
    MethodParameters,
    MethodParameterType,
    MethodParameterArrayIndicatorStart,
    MethodParameterArrayIndicatorEnd,
    MethodParameterName,
    MethodParametersEnd,
    MethodBody,
    ClassEnd,
    Eof,
}

/// The transition table of the class/method structural grammar: class header,
/// class body, method headers with parameter lists, method bodies, class end.
/// A pair absent here is an unsupported or malformed construct.
pub open spec fn spec_transition(s: ClassState, t: TokenType) -> Option<ClassState> {
    match (s, t) {
        (ClassState::Initial, TokenType::Public) => Some(ClassState::ClassScope),
        (ClassState::ClassScope, TokenType::Class) => Some(ClassState::ClassDefinition),
        (ClassState::ClassDefinition, TokenType::Identifier) => Some(ClassState::ClassName),
        (ClassState::ClassName, TokenType::LeftBrace) => Some(ClassState::ClassBody),
        (ClassState::ClassBody, TokenType::Public) => Some(ClassState::MethodQualifier),
        (ClassState::ClassBody, TokenType::Private) => Some(ClassState::MethodQualifier),
        (ClassState::MethodQualifier, TokenType::Static) => Some(ClassState::MethodStatic),
        (ClassState::MethodStatic, TokenType::Identifier) => Some(ClassState::MethodReturn),
        (ClassState::MethodQualifier, TokenType::Identifier) => Some(ClassState::MethodReturn),
        (ClassState::MethodReturn, TokenType::Identifier) => Some(ClassState::MethodName),
        (ClassState::MethodReturn, TokenType::LeftSquareBracket) => Some(
            ClassState::MethodReturnArrayIndicatorStart,
        ),
        (ClassState::MethodReturnArrayIndicatorStart, TokenType::RightSquareBracket) => Some(
            ClassState::MethodReturnArrayIndicatorEnd,
        ),
        (ClassState::MethodReturnArrayIndicatorEnd, TokenType::Identifier) => Some(
            ClassState::MethodName,
        ),
        (ClassState::MethodName, TokenType::LeftParen) => Some(ClassState::MethodParameters),
        (ClassState::MethodParameters, TokenType::RightParen) => Some(
            ClassState::MethodParametersEnd,
        ),
        (ClassState::MethodParameters, TokenType::Identifier) => Some(
            ClassState::MethodParameterType,
        ),
        (ClassState::MethodParameterType, TokenType::Identifier) => Some(
            ClassState::MethodParameterName,
        ),
        (ClassState::MethodParameterType, TokenType::LeftSquareBracket) => Some(
            ClassState::MethodParameterArrayIndicatorStart,
        ),
        (ClassState::MethodParameterArrayIndicatorStart, TokenType::RightSquareBracket) => Some(
            ClassState::MethodParameterArrayIndicatorEnd,
        ),
        (ClassState::MethodParameterArrayIndicatorEnd, TokenType::Identifier) => Some(
            ClassState::MethodParameterName,
        ),
        (ClassState::MethodParameterName, TokenType::Comma) => Some(ClassState::MethodParameters),
        (ClassState::MethodParameterName, TokenType::RightParen) => Some(
            ClassState::MethodParametersEnd,
        ),
        (ClassState::MethodParametersEnd, TokenType::LeftBrace) => Some(ClassState::MethodBody),
        (ClassState::MethodBody, TokenType::RightBrace) => Some(ClassState::ClassBody),
        (ClassState::ClassBody, TokenType::RightBrace) => Some(ClassState::ClassEnd),
        (ClassState::ClassEnd, TokenType::Eof) => Some(ClassState::Eof),
        _ => None,
    }
}

/// The executable transition table.
#[verifier::when_used_as_spec(spec_transition)]
pub fn transition(s: ClassState, t: TokenType) -> (r: Option<ClassState>)
    ensures
        r == spec_transition(s, t),
{
    match (s, t) {
        (ClassState::Initial, TokenType::Public) => Some(ClassState::ClassScope),
        (ClassState::ClassScope, TokenType::Class) => Some(ClassState::ClassDefinition),
        (ClassState::ClassDefinition, TokenType::Identifier) => Some(ClassState::ClassName),
        (ClassState::ClassName, TokenType::LeftBrace) => Some(ClassState::ClassBody),
        (ClassState::ClassBody, TokenType::Public) => Some(ClassState::MethodQualifier),
        (ClassState::ClassBody, TokenType::Private) => Some(ClassState::MethodQualifier),
        (ClassState::MethodQualifier, TokenType::Static) => Some(ClassState::MethodStatic),
        (ClassState::MethodStatic, TokenType::Identifier) => Some(ClassState::MethodReturn),
        (ClassState::MethodQualifier, TokenType::Identifier) => Some(ClassState::MethodReturn),
        (ClassState::MethodReturn, TokenType::Identifier) => Some(ClassState::MethodName),
        (ClassState::MethodReturn, TokenType::LeftSquareBracket) => Some(
            ClassState::MethodReturnArrayIndicatorStart,
        ),
        (ClassState::MethodReturnArrayIndicatorStart, TokenType::RightSquareBracket) => Some(
            ClassState::MethodReturnArrayIndicatorEnd,
        ),
        (ClassState::MethodReturnArrayIndicatorEnd, TokenType::Identifier) => Some(
            ClassState::MethodName,
        ),
        (ClassState::MethodName, TokenType::LeftParen) => Some(ClassState::MethodParameters),
        (ClassState::MethodParameters, TokenType::RightParen) => Some(
            ClassState::MethodParametersEnd,
        ),
        (ClassState::MethodParameters, TokenType::Identifier) => Some(
            ClassState::MethodParameterType,
        ),
        (ClassState::MethodParameterType, TokenType::Identifier) => Some(
            ClassState::MethodParameterName,
        ),
        (ClassState::MethodParameterType, TokenType::LeftSquareBracket) => Some(
            ClassState::MethodParameterArrayIndicatorStart,
        ),
        (ClassState::MethodParameterArrayIndicatorStart, TokenType::RightSquareBracket) => Some(
            ClassState::MethodParameterArrayIndicatorEnd,
        ),
        (ClassState::MethodParameterArrayIndicatorEnd, TokenType::Identifier) => Some(
            ClassState::MethodParameterName,
        ),
        (ClassState::MethodParameterName, TokenType::Comma) => Some(ClassState::MethodParameters),
        (ClassState::MethodParameterName, TokenType::RightParen) => Some(
            ClassState::MethodParametersEnd,
        ),
        (ClassState::MethodParametersEnd, TokenType::LeftBrace) => Some(ClassState::MethodBody),
        (ClassState::MethodBody, TokenType::RightBrace) => Some(ClassState::ClassBody),
        (ClassState::ClassBody, TokenType::RightBrace) => Some(ClassState::ClassEnd),
        (ClassState::ClassEnd, TokenType::Eof) => Some(ClassState::Eof),
        _ => None,
    }
}

/// A fresh machine for the class/method structural grammar, in its initial
/// state.
pub fn load() -> (m: StateMachine)
    ensures
        m.current_state == ClassState::Initial,
{
    StateMachine::new(ClassState::Initial)
}

} // verus!
