//! Parser and canonical printer for the WebAssembly text format: literal
//! helpers, an s-expression tree with a width-aware renderer, a table of
//! instruction kinds, the stack machine that folds instruction sequences
//! into trees, and the module grammar built on top of them.

pub mod error;
pub mod folding;
pub mod grammar;
pub mod index;
pub mod instruction;
pub mod lexer;
pub mod literal;
pub mod module;
pub mod roundtrip;
pub mod sexpr;
pub mod token;
pub mod types;

pub use error::{Error, ErrorV, Expected, FaultKind};
pub use folding::{parse_expressions, parse_text, ExpressionParser, Level};
pub use grammar::{parse_document, parse_module};
pub use index::{symbolic, Index, IndexV, ValueType};
pub use instruction::{
    call, fold, global_get, i32_const, i64_const, local_get, Expression, ExpressionV, IndexSlot, InstrV,
    Instruction, Opcode, Schema,
};
pub use lexer::{drop_trivia, tokenize};
pub use literal::{Decimal, Hexadecimal, IntegerLiteral, Sign};
pub use module::{
    DataSection, DataSectionEntry, Document, Export, ExportDesc, FunctionSection, FunctionSectionEntry,
    GlobalSection, GlobalSectionEntry, ImportDesc, ImportDescFunc, ImportSection, ImportSectionEntry,
    MemorySection, MemorySectionEntry, Module, Section, TypeSection, TypeSectionEntry,
};
pub use sexpr::{node, Atom, Expr, Node, SExpr, Sx, ToWatParams};
pub use token::{Token, TokenKind};
pub use types::{
    DataString, FuncType, GlobalType, GlobalTypeMut, InlineExport, Limits, MemType, Offset, Params, Results,
    Type, TypeUse,
};
