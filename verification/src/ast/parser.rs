use vstd::prelude::*;

use crate::scanner::token::{Token, TokenType};

verus! {

/// The token cursor: owns the token sequence and supports linear consumption,
/// lookahead, and a stack of nested save points ("transactions") used by the
/// backtracking grammar.
///
/// `auto_commit` guards against unmatched transactions: the grammar switches
/// it off while trial parsing, and a commit or rollback is only legal while it
/// is off.
pub struct AstParser {
    pub tokens: Vec<Token>,
    pub position: usize,
    pub transaction_positions: Vec<usize>,
    pub auto_commit: bool,
}

impl AstParser {
    /// Every saved position, like the cursor itself, stays inside the token
    /// sequence.
    pub open spec fn wf(&self) -> bool {
        &&& self.position <= self.tokens@.len()
        &&& forall|i: int|
            0 <= i < self.transaction_positions@.len()
                ==> #[trigger] self.transaction_positions@[i] <= self.tokens@.len()
    }

    pub fn for_tokens(tokens: Vec<Token>) -> (p: AstParser)
        ensures
            p.tokens == tokens,
            p.position == 0,
            p.transaction_positions@ == Seq::<usize>::empty(),
            p.auto_commit == true,
            p.wf(),
    {
        AstParser { tokens, position: 0, transaction_positions: Vec::new(), auto_commit: true }
    }

    pub fn next_token(&mut self) -> (t: Token)
        requires
            old(self).position < old(self).tokens@.len(),
        ensures
            t == old(self).tokens@[old(self).position as int],
            final(self).tokens == old(self).tokens,
            final(self).position == old(self).position + 1,
            final(self).transaction_positions == old(self).transaction_positions,
            final(self).auto_commit == old(self).auto_commit,
            old(self).wf() ==> final(self).wf(),
    {
        let n = self.tokens.len();
        let i = self.position;
        let t = self.tokens[i].duplicate();
        self.position = i + 1;
        t
    }

    pub fn has_more_tokens(&self) -> (r: bool)
        ensures
            r == (self.position < self.tokens@.len()),
    {
        self.position < self.tokens.len()
    }

    /// Turning auto-commit back on asserts that every transaction has been
    /// resolved; turning it off enters transactional mode.
    pub fn auto_commit(&mut self, auto_commit: bool)
        requires
            auto_commit ==> old(self).transaction_positions@.len() == 0,
        ensures
            final(self).tokens == old(self).tokens,
            final(self).position == old(self).position,
            final(self).transaction_positions == old(self).transaction_positions,
            final(self).auto_commit == auto_commit,
    {
        self.auto_commit = auto_commit
    }

    pub fn start_transaction(&mut self)
        ensures
            final(self).tokens == old(self).tokens,
            final(self).position == old(self).position,
            final(self).transaction_positions@ == old(self).transaction_positions@.push(
                old(self).position,
            ),
            final(self).auto_commit == old(self).auto_commit,
            old(self).wf() ==> final(self).wf(),
    {
        self.transaction_positions.push(self.position)
    }

    /// Pops the innermost save point and keeps the position: the tokens
    /// consumed since it was pushed stay consumed.
    pub fn commit(&mut self)
        requires
            !old(self).auto_commit,
            old(self).transaction_positions@.len() > 0,
        ensures
            final(self).tokens == old(self).tokens,
            final(self).position == old(self).position,
            final(self).transaction_positions@ == old(self).transaction_positions@.drop_last(),
            final(self).auto_commit == old(self).auto_commit,
            old(self).wf() ==> final(self).wf(),
    {
        self.transaction_positions.pop();
    }

    /// Pops the innermost save point and restores the position saved there:
    /// nothing consumed since it was pushed remains consumed.
    pub fn rollback(&mut self)
        requires
            !old(self).auto_commit,
            old(self).transaction_positions@.len() > 0,
        ensures
            final(self).tokens == old(self).tokens,
            final(self).position == old(self).transaction_positions@.last(),
            final(self).transaction_positions@ == old(self).transaction_positions@.drop_last(),
            final(self).auto_commit == old(self).auto_commit,
            old(self).wf() ==> final(self).wf(),
    {
        self.position = self.transaction_positions.pop().unwrap();
    }

    pub fn peek_next(&self) -> (t: Token)
        requires
            self.position < self.tokens@.len(),
        ensures
            t == self.tokens@[self.position as int],
    {
        self.tokens[self.position].duplicate()
    }

    pub fn is_next_token(&self, token_type: TokenType) -> (r: bool)
        requires
            self.position < self.tokens@.len(),
        ensures
            r == (self.tokens@[self.position as int].token_type == token_type),
    {
        self.tokens[self.position].token_type == token_type
    }
}

} // verus!
