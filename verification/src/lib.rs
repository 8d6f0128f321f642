pub mod ast;
pub mod cst;
pub mod engine;
pub mod fru_type;
pub mod error;
pub mod eval;
pub mod identifier;
pub mod native;
pub mod parser;
pub mod value;

pub use identifier::Identifier;
pub use identifier::Interner;
pub use identifier::OperatorIdentifier;
