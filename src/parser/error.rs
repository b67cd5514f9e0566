use vstd::prelude::*;

verus! {

/// What the parser found wrong.
pub enum ErrorType {
    MissingRightParen,
    /// A token that cannot stand where it was found, by the name of its type.
    InvalidToken(String),
}

pub struct Error {
    pub ttype: ErrorType,
}

/// The message reported for an error.
pub open spec fn message_of(e: ErrorType) -> Seq<char> {
    match e {
        ErrorType::MissingRightParen => "Missing right parenthesis"@,
        ErrorType::InvalidToken(t) => "Invalid token found "@ + t@,
    }
}

impl Error {
    /// The text that reporting this error shows.
    pub fn message(&self) -> (r: String)
        ensures
            r@ == message_of(self.ttype),
    {
        match &self.ttype {
            ErrorType::MissingRightParen => {
                proof { reveal_strlit("Missing right parenthesis"); }
                String::from_str("Missing right parenthesis")
            },
            ErrorType::InvalidToken(t) => {
                proof { reveal_strlit("Invalid token found "); }
                let s = String::from_str("Invalid token found ");
                s.concat(t.as_str())
            },
        }
    }
}

} // verus!
