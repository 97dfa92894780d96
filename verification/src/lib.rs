//! Machine-code generation core of a small x64 assembler: a fixed-capacity
//! sequence, the bit-packed instruction fields, the instruction encoder and
//! the table-driven resolver that selects an instruction form for a line.

pub mod encoder;
pub mod functions;
pub mod line;
pub mod line_parser;
pub mod registers;
pub mod svec;
