//! The byte layout of the records and of the instruction payload.
//!
//! A record is laid out as its fields in declaration order, each in the
//! layout of its type; an instruction as one byte that tells the operation,
//! followed by the operation's fields. The layouts are canonical: a value
//! has exactly one encoding, and an encoding belongs to exactly one value.
//! That is what lets decoding be defined as the inverse of encoding.

pub mod campaign;
pub mod fields;
pub mod instruction;
pub mod referral;
