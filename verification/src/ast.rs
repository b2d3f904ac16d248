pub mod class;
pub mod class_builder;
pub mod class_state_machine_factory;
pub mod expression;
pub mod expression_structure;
pub mod method_builder;
pub mod parser;
pub mod state_machine;
pub mod statement;
pub mod statement_structure;

use vstd::prelude::*;

use crate::ast::class::{AstClass, AstScope, ClassV};
use crate::ast::class_builder::{
    lemma_map_values_update, spec_build_class, ClassBuilder, ClassBuilderV, MethodBuilderV,
    ParameterBuilderV,
};
use crate::ast::class_state_machine_factory::{spec_transition, ClassState};
use crate::ast::method_builder::{spec_statements, AstStatementBuilder};
use crate::ast::statement::StatementV;
use crate::scanner::token::{tokens_view, tokens_wf, Token, TokenType, TokenV};

verus! {

/// A structural parse failure: the first one aborts the compilation.
#[derive(Copy, Clone, Debug, PartialEq, Eq, Structural)]
pub enum ParseError {
    /// The class/method structural grammar has no transition for this pair:
    /// an unsupported or malformed construct.
    NoTransitionAvailable { state: ClassState, token_type: TokenType },
    /// Inside a method body, no statement alternative matched at this token
    /// position.
    MalformedStatement { position: usize },
    /// The token stream ended before the class header was complete.
    IncompleteClass,
    /// The token stream ended before a method header was complete.
    IncompleteMethod,
    /// The token stream ended before a parameter was complete.
    IncompleteParameter,
}

/// The visibility a scope keyword denotes.
pub open spec fn spec_scope_for(token_type: TokenType) -> AstScope {
    match token_type {
        TokenType::Public => AstScope::Public,
        TokenType::Private => AstScope::Private,
        _ => AstScope::Default,
    }
}

/// The visibility a scope keyword denotes.
#[verifier::when_used_as_spec(spec_scope_for)]
pub fn scope_for(token_type: TokenType) -> (r: AstScope)
    requires
        token_type == TokenType::Public || token_type == TokenType::Private,
    ensures
        r == spec_scope_for(token_type),
{
    match token_type {
        TokenType::Public => AstScope::Public,
        TokenType::Private => AstScope::Private,
        _ => AstScope::Default,
    }
}

/// A method builder with nothing set.
pub open spec fn mbv_empty() -> MethodBuilderV {
    MethodBuilderV {
        name: None,
        scope: None,
        is_static: false,
        is_final: false,
        return_type: None,
        return_type_is_array: false,
        parameters: Seq::empty(),
        statements: Seq::empty(),
    }
}

/// A class builder with nothing set.
pub open spec fn cbv_empty() -> ClassBuilderV {
    ClassBuilderV {
        name: None,
        scope: AstScope::Default,
        is_static: false,
        is_final: false,
        methods: Seq::empty(),
    }
}

/// Replaces the method most recently begun (a no-op when none has been).
pub open spec fn cbv_update_last(cb: ClassBuilderV, m: MethodBuilderV) -> ClassBuilderV {
    if cb.methods.len() > 0 {
        ClassBuilderV { methods: cb.methods.update(cb.methods.len() - 1, m), ..cb }
    } else {
        cb
    }
}

/// Replaces the parameter most recently begun (a no-op when none has been).
pub open spec fn mbv_update_last(m: MethodBuilderV, p: ParameterBuilderV) -> MethodBuilderV {
    if m.parameters.len() > 0 {
        MethodBuilderV { parameters: m.parameters.update(m.parameters.len() - 1, p), ..m }
    } else {
        m
    }
}

/// The side effect one accepted transition performs against the class
/// builder, given the token that drove it.
pub open spec fn spec_apply(state: ClassState, tok: TokenV, cb: ClassBuilderV) -> ClassBuilderV {
    match state {
        ClassState::ClassScope => ClassBuilderV { scope: spec_scope_for(tok.token_type), ..cb },
        ClassState::ClassName => ClassBuilderV { name: Some(tok.lexeme.unwrap()), ..cb },
        ClassState::MethodQualifier => ClassBuilderV {
            methods: cb.methods.push(
                MethodBuilderV { scope: Some(spec_scope_for(tok.token_type)), ..mbv_empty() },
            ),
            ..cb
        },
        ClassState::MethodStatic => cbv_update_last(
            cb,
            MethodBuilderV { is_static: true, ..cb.methods.last() },
        ),
        ClassState::MethodReturn => cbv_update_last(
            cb,
            MethodBuilderV { return_type: Some(tok.lexeme.unwrap()), ..cb.methods.last() },
        ),
        ClassState::MethodReturnArrayIndicatorEnd => cbv_update_last(
            cb,
            MethodBuilderV { return_type_is_array: true, ..cb.methods.last() },
        ),
        ClassState::MethodName => cbv_update_last(
            cb,
            MethodBuilderV { name: Some(tok.lexeme.unwrap()), ..cb.methods.last() },
        ),
        ClassState::MethodParameterType => cbv_update_last(
            cb,
            MethodBuilderV {
                parameters: cb.methods.last().parameters.push(
                    ParameterBuilderV {
                        param_name: None,
                        param_type: Some(tok.lexeme.unwrap()),
                        is_array: false,
                    },
                ),
                ..cb.methods.last()
            },
        ),
        ClassState::MethodParameterArrayIndicatorEnd => cbv_update_last(
            cb,
            mbv_update_last(
                cb.methods.last(),
                ParameterBuilderV { is_array: true, ..cb.methods.last().parameters.last() },
            ),
        ),
        ClassState::MethodParameterName => cbv_update_last(
            cb,
            mbv_update_last(
                cb.methods.last(),
                ParameterBuilderV {
                    param_name: Some(tok.lexeme.unwrap()),
                    ..cb.methods.last().parameters.last()
                },
            ),
        ),
        _ => cb,
    }
}

/// Appends a method body's statements to the method most recently begun.
pub open spec fn cbv_append_statements(cb: ClassBuilderV, ss: Seq<StatementV>) -> ClassBuilderV {
    cbv_update_last(
        cb,
        MethodBuilderV { statements: cb.methods.last().statements + ss, ..cb.methods.last() },
    )
}

/// What the builder looks like in each state: the states inside a method
/// header or body always have a method begun, and the states inside a
/// parameter always have a parameter begun.
pub open spec fn builder_inv(state: ClassState, cb: ClassBuilderV) -> bool {
    match state {
        ClassState::MethodQualifier | ClassState::MethodStatic | ClassState::MethodReturn
            | ClassState::MethodReturnArrayIndicatorStart
            | ClassState::MethodReturnArrayIndicatorEnd | ClassState::MethodName
            | ClassState::MethodParameters | ClassState::MethodParametersEnd
            | ClassState::MethodBody => cb.methods.len() > 0,
        ClassState::MethodParameterType | ClassState::MethodParameterArrayIndicatorStart
            | ClassState::MethodParameterArrayIndicatorEnd | ClassState::MethodParameterName => cb.methods.len()
            > 0 && cb.methods.last().parameters.len() > 0,
        _ => true,
    }
}

/// One pass of the structural parser from `pos` in state `state`: feeds each
/// token to the state machine, performs the accepted transition's side
/// effect, and on entering a method body first collects its statements.
pub open spec fn spec_to_ast_loop(
    t: Seq<TokenV>,
    pos: int,
    state: ClassState,
    cb: ClassBuilderV,
) -> Result<ClassBuilderV, ParseError>
    decreases t.len() - pos, 100int,
{
    if pos < 0 || pos >= t.len() {
        Ok(cb)
    } else {
        let tok = t[pos];
        match spec_transition(state, tok.token_type) {
            None => Err(ParseError::NoTransitionAvailable { state, token_type: tok.token_type }),
            Some(next) => {
                let cb1 = spec_apply(next, tok, cb);
                if next is MethodBody {
                    match spec_statements(t, pos + 1) {
                        Err(e) => Err(e),
                        Ok((ss, p)) => if pos + 1 <= p <= t.len() {
                            spec_to_ast_loop(t, p, next, cbv_append_statements(cb1, ss))
                        } else {
                            Err(ParseError::MalformedStatement { position: pos as usize })
                        },
                    }
                } else {
                    spec_to_ast_loop(t, pos + 1, next, cb1)
                }
            },
        }
    }
}

/// What parsing a whole token sequence yields: the structural pass from the
/// initial state over an empty builder, then the finished class.
pub open spec fn spec_to_ast(t: Seq<TokenV>) -> Result<ClassV, ParseError> {
    match spec_to_ast_loop(t, 0, ClassState::Initial, cbv_empty()) {
        Err(e) => Err(e),
        Ok(cb) => spec_build_class(cb),
    }
}

/// Parses one class from a lexed token sequence, or reports the first
/// structural failure.
#[verifier::loop_isolation(false)]
#[verifier::rlimit(30)]
pub fn to_ast(tokens: Vec<Token>) -> (r: Result<AstClass, ParseError>)
    requires
        tokens_wf(tokens_view(tokens@)),
    ensures
        match spec_to_ast(tokens_view(tokens@)) {
            Ok(cv) => r is Ok && r.unwrap()@ == cv,
            Err(e) => r == Err::<AstClass, ParseError>(e),
        },
{
    broadcast use lemma_map_values_update;

    let ghost t = tokens_view(tokens@);
    let mut parser = crate::ast::parser::AstParser::for_tokens(tokens);
    let mut class_state_machine = crate::ast::class_state_machine_factory::load();
    let mut class_builder = ClassBuilder::new();
    proof {
        assert(class_builder@ =~= cbv_empty());
    }
    loop
        invariant
            tokens_view(parser.tokens@) == t,
            parser.wf(),
            parser.auto_commit,
            parser.transaction_positions@.len() == 0,
            parser.position <= t.len(),
            builder_inv(class_state_machine.current_state, class_builder@),
            spec_to_ast_loop(t, 0, ClassState::Initial, cbv_empty()) == spec_to_ast_loop(
                t,
                parser.position as int,
                class_state_machine.current_state,
                class_builder@,
            ),
        decreases t.len() - parser.position,
    {
        if !parser.has_more_tokens() {
            break;
        }
        let ghost pos = parser.position as int;
        let ghost st0 = class_state_machine.current_state;
        let ghost cb0 = class_builder@;
        let token = parser.next_token();
        proof {
            assert(token@ == t[pos]);
        }
        let state = match class_state_machine.on_token(token.token_type()) {
            Ok(s) => s,
            Err(e) => {
                return Err(e);
            },
        };
        match state {
            Some(state) => {
                let ghost next = state;
                proof {
                    if (next is ClassName || next is MethodReturn || next is MethodName
                        || next is MethodParameterType || next is MethodParameterName) {
                        assert(token.token_type == TokenType::Identifier);
                        assert(t[pos].lexeme is Some);
                        assert(token.lexeme is Some);
                    }
                    if (next is ClassScope || next is MethodQualifier) {
                        assert(token.token_type == TokenType::Public || token.token_type
                            == TokenType::Private);
                    }
                    assert(class_builder@.methods == class_builder.methods@.map_values(
                        |m: crate::ast::class_builder::MethodBuilder| m@,
                    ));
                }
                match state {
                    ClassState::Initial => {
                        // no side effect
                    },
                    ClassState::ClassScope => class_builder.with_scope(
                        scope_for(token.token_type()),
                    ),
                    ClassState::ClassDefinition => {
                        // the builder was created before the loop
                    },
                    ClassState::ClassName => class_builder.named(token.lexeme().clone()),
                    ClassState::ClassBody => {
                        // no side effect
                    },
                    ClassState::MethodQualifier => {
                        class_builder.with_new_method();
                        proof {
                            assert(class_builder@.methods.len() > 0);
                            assert(class_builder@.methods
                                == class_builder.methods@.map_values(
                                |m: crate::ast::class_builder::MethodBuilder| m@,
                            ));
                            assert(class_builder.methods@.map_values(
                                |m: crate::ast::class_builder::MethodBuilder| m@,
                            ).len() == class_builder.methods@.len());
                            assert(class_builder.methods@.len() > 0);
                        }
                        let ghost v1 = class_builder@;
                        let ghost rawm = class_builder.methods@;
                        class_builder.latest_method().with_scope(scope_for(token.token_type()));
                        proof {
                            assert(v1.methods == rawm.map_values(
                                |m: crate::ast::class_builder::MethodBuilder| m@,
                            ));
                            assert(v1.methods[rawm.len() - 1] == rawm[rawm.len() - 1]@);
                        }
                    },
                    ClassState::MethodStatic => {
                        class_builder.latest_method().as_static();
                    },
                    ClassState::MethodReturn => {
                        class_builder.latest_method().with_return_type(token.lexeme().clone());
                    },
                    ClassState::MethodReturnArrayIndicatorStart => {
                        // no side effect
                    },
                    ClassState::MethodReturnArrayIndicatorEnd => {
                        class_builder.latest_method().return_type_is_array(true);
                    },
                    ClassState::MethodName => {
                        class_builder.latest_method().with_name(token.lexeme().clone());
                    },
                    ClassState::MethodParameters => {
                        // no side effect
                    },
                    ClassState::MethodParameterType => {
                        let method = class_builder.latest_method();
                        let ghost m0 = method@;
                        method.with_new_parameter();
                        proof {
                            assert(method@.parameters.len() > 0);
                            assert(method@.parameters == method.parameters@.map_values(
                                |p: crate::ast::class_builder::ParameterBuilder| p@,
                            ));
                            assert(method.parameters@.map_values(
                                |p: crate::ast::class_builder::ParameterBuilder| p@,
                            ).len() == method.parameters@.len());
                            assert(method.parameters@.len() > 0);
                        }
                        let ghost m1 = method@;
                        let ghost rawp = method.parameters@;
                        method.latest_parameter().with_type(token.lexeme().clone());
                        proof {
                            assert(m1.parameters == rawp.map_values(
                                |p: crate::ast::class_builder::ParameterBuilder| p@,
                            ));
                            assert(m1.parameters[rawp.len() - 1] == rawp[rawp.len() - 1]@);
                            assert(method@ =~~= MethodBuilderV {
                                parameters: m0.parameters.push(
                                    ParameterBuilderV {
                                        param_name: None,
                                        param_type: Some(t[pos].lexeme.unwrap()),
                                        is_array: false,
                                    },
                                ),
                                ..m0
                            });
                        }
                    },
                    ClassState::MethodParameterArrayIndicatorStart => {
                        // no side effect
                    },
                    ClassState::MethodParameterArrayIndicatorEnd => {
                        class_builder.latest_method().latest_parameter().as_array();
                    },
                    ClassState::MethodParameterName => {
                        class_builder.latest_method().latest_parameter().with_name(
                            token.lexeme().clone(),
                        );
                    },
                    ClassState::MethodParametersEnd => {
                        // no side effect
                    },
                    ClassState::MethodBody => {
                        let mut statement_builder = AstStatementBuilder::new();
                        match statement_builder.build(&mut parser) {
                            Ok(_) => {},
                            Err(e) => {
                                return Err(e);
                            },
                        }
                        class_builder.latest_method().with_statements(
                            statement_builder.statements(),
                        );
                    },
                    ClassState::ClassEnd => {
                        // no side effect
                    },
                    ClassState::Eof => {
                        // no side effect
                    },
                }
                proof {
                    if next is MethodBody {
                        if let Ok((ss, p)) = spec_statements(t, pos + 1) {
                            assert(Seq::<StatementV>::empty() + ss =~= ss);
                            assert(class_builder@ =~~= cbv_append_statements(
                                spec_apply(next, t[pos], cb0),
                                ss,
                            ));
                        }
                    } else {
                        assert(class_builder@.methods == class_builder.methods@.map_values(
                            |m: crate::ast::class_builder::MethodBuilder| m@,
                        ));
                        assert(class_builder@ =~~= spec_apply(next, t[pos], cb0));
                    }
                }
            },
            None => {
                proof {
                    assert(false);
                }
            },
        }
    }
    match class_builder.build() {
        Ok(class) => Ok(class),
        Err(e) => Err(e),
    }
}

} // verus!
