//! Disassembler and object-file model for a small 32-bit teaching RISC
//! instruction set with fixed-width instructions and three relocatable
//! segments (TEXT, DATA, BSS).
//!
//! Every function is verified against a contract stated over mathematical
//! models: instruction words are decoded by fixed bit fields, matched
//! against an ordered catalogue, and rendered by a per-character operand
//! template; object files are parsed from their bytes.

pub mod bytes;
pub mod decode;
pub mod disassembler;
pub mod instructions;
pub mod loader;
pub mod object;
pub mod registers;
pub mod symbols;
pub mod text;

pub use crate::decode::{decode, DecodedInstruction};
pub use crate::disassembler::{disassemble, disassemble_view, DecodeMiss};
pub use crate::instructions::{lookup, InsnDescriptor, InsnType};
pub use crate::loader::FileType;
pub use crate::object::{FormatError, LoadStage, ObjectHeader, ReferenceType, RelocEntry};
pub use crate::symbols::{LabelEntry, Reference, SegmentType};
