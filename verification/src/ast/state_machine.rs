use vstd::prelude::*;

use crate::ast::class_state_machine_factory::{spec_transition, ClassState};
use crate::ast::ParseError;
use crate::scanner::token::TokenType;

verus! {

/// What the machine does on a `(state, token)` pair: ignore the token, or
/// move to a new state.
#[derive(Copy, Clone, Debug, PartialEq, Eq, Structural)]
pub enum Operation {
    Ignore,
    To(ClassState),
}

/// A table-driven state machine over token kinds. The transition table is the
/// fixed class/method grammar in `spec_transition`; a pair absent from it is
/// a structural parse error.
pub struct StateMachine {
    pub current_state: ClassState,
}

impl StateMachine {
    pub fn new(initial_state: ClassState) -> (m: StateMachine)
        ensures
            m.current_state == initial_state,
    {
        StateMachine { current_state: initial_state }
    }

    /// Feeds one token kind to the machine: moves to the state the table
    /// gives, or reports the absent transition.
    pub fn on_token(&mut self, token_type: TokenType) -> (r: Result<Option<ClassState>, ParseError>)
        ensures
            match spec_transition(old(self).current_state, token_type) {
                Some(s) => {
                    &&& r == Ok::<Option<ClassState>, ParseError>(Some(s))
                    &&& final(self).current_state == s
                },
                None => {
                    &&& r == Err::<Option<ClassState>, ParseError>(
                        ParseError::NoTransitionAvailable {
                            state: old(self).current_state,
                            token_type,
                        },
                    )
                    &&& final(self).current_state == old(self).current_state
                },
            },
    {
        match self.operation_for(self.current_state, token_type) {
            Ok(Operation::Ignore) => Ok(None),
            Ok(Operation::To(new_state)) => {
                self.current_state = new_state;
                Ok(Some(new_state))
            },
            Err(e) => Err(e),
        }
    }

    /// Looks the pair up in the transition table.
    pub fn operation_for(&self, state: ClassState, token_type: TokenType) -> (r: Result<
        Operation,
        ParseError,
    >)
        ensures
            match spec_transition(state, token_type) {
                Some(s) => r == Ok::<Operation, ParseError>(Operation::To(s)),
                None => r == Err::<Operation, ParseError>(
                    ParseError::NoTransitionAvailable { state, token_type },
                ),
            },
    {
        match crate::ast::class_state_machine_factory::transition(state, token_type) {
            Some(s) => Ok(Operation::To(s)),
            None => Err(ParseError::NoTransitionAvailable { state, token_type }),
        }
    }
}

} // verus!
