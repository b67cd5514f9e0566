use crate::interpreter::value::{decimal, nat_to_text};
use vstd::prelude::*;

verus! {

/// A token: its type's name, its text, and where it stands in the source.
pub struct Token {
    pub ttype: String,
    pub lexeme: String,
    pub line: usize,
    pub offset: usize,
    pub length: usize,
}

/// `(type, 'lexeme') line:start-end`.
pub open spec fn token_text(t: Token) -> Seq<char> {
    seq!['('] + t.ttype@ + seq![',', ' ', '\''] + t.lexeme@ + seq!['\'', ')', ' ']
        + decimal(t.line as nat) + seq![':'] + decimal(t.offset as nat) + seq!['-']
        + decimal((t.offset + t.length) as nat)
}

impl Token {
    /// The token as text, for listings of the token stream.
    pub fn render(&self) -> (r: String)
        requires
            self.offset + self.length <= usize::MAX,
        ensures
            r@ == token_text(*self),
    {
        proof {
            reveal_strlit("(");
            reveal_strlit(", '");
            reveal_strlit("') ");
            reveal_strlit(":");
            reveal_strlit("-");
        }
        let mut s = String::from_str("(");
        s.append(self.ttype.as_str());
        s.append(", '");
        s.append(self.lexeme.as_str());
        s.append("') ");
        s.append(nat_to_text(self.line as u64).as_str());
        s.append(":");
        s.append(nat_to_text(self.offset as u64).as_str());
        s.append("-");
        s.append(nat_to_text((self.offset + self.length) as u64).as_str());
        s
    }
}

} // verus!
