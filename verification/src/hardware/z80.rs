pub mod internal;
pub mod alu;
pub mod operand;
pub mod no;
pub mod mem;
pub mod io;
pub mod decode;
pub mod instruction;
pub mod run;
pub mod laws;
