//! Composable matchers and scanners over a backtrackable, buffered cursor,
//! driven by a lexer that emits positioned tokens.
pub mod util;
mod lexer;
mod matcher;
mod scanner;
mod token;

pub use lexer::Lexer;
pub use matcher::{Any, Combine, Matcher, OneOrMore, Or, Then, Where, Within, ZeroOrMore};
pub use scanner::{Eof, Mapping, Prioritise, Scanner, Unit};
pub use token::Token;
