//! The arithmetic and logical operators. Each is the work of one primitive of
//! the runtime, which promotes the operands as it sees fit: the library names
//! the primitive and the operands, and `settle` says what becomes of the outcome.

use vstd::prelude::*;
use crate::variant::Variant;

verus! {

/// The operators of one operand, each named after the primitive that computes it.
#[derive(Clone, Copy, Debug, PartialEq, Eq, Structural)]
pub enum Unary {
    Abs,
    Negate,
    Not,
}

/// The operators of two operands, each named after the primitive that computes it.
#[derive(Clone, Copy, Debug, PartialEq, Eq, Structural)]
pub enum Binary {
    Add,
    Subtract,
    Multiply,
    Divide,
    ModBy,
    And,
    Or,
    Xor,
}

/// An operator and the operands that its primitive is called on, the left one first.
#[derive(Debug)]
pub enum Operation<'a> {
    Unary(Unary, &'a Variant),
    Binary(Binary, &'a Variant, &'a Variant),
}

impl Variant {
    /// The absolute value of the dynamic value.
    pub fn abs(&self) -> (op: Operation<'_>)
        ensures
            op == Operation::Unary(Unary::Abs, self),
    {
        Operation::Unary(Unary::Abs, self)
    }

    /// The sum of the dynamic value and `augend`.
    pub fn add<'a>(&'a self, augend: &'a Variant) -> (op: Operation<'a>)
        ensures
            op == Operation::Binary(Binary::Add, self, augend),
    {
        Operation::Binary(Binary::Add, self, augend)
    }

    /// The dynamic value less `subtrahend`.
    pub fn subtract<'a>(&'a self, subtrahend: &'a Variant) -> (op: Operation<'a>)
        ensures
            op == Operation::Binary(Binary::Subtract, self, subtrahend),
    {
        Operation::Binary(Binary::Subtract, self, subtrahend)
    }

    /// The product of the dynamic value and `multiplicand`.
    pub fn multiply<'a>(&'a self, multiplicand: &'a Variant) -> (op: Operation<'a>)
        ensures
            op == Operation::Binary(Binary::Multiply, self, multiplicand),
    {
        Operation::Binary(Binary::Multiply, self, multiplicand)
    }

    /// The dynamic value divided by `divisor`.
    pub fn divide<'a>(&'a self, divisor: &'a Variant) -> (op: Operation<'a>)
        ensures
            op == Operation::Binary(Binary::Divide, self, divisor),
    {
        Operation::Binary(Binary::Divide, self, divisor)
    }

    /// The remainder of the dynamic value divided by `m`.
    pub fn mod_by<'a>(&'a self, m: &'a Variant) -> (op: Operation<'a>)
        ensures
            op == Operation::Binary(Binary::ModBy, self, m),
    {
        Operation::Binary(Binary::ModBy, self, m)
    }

    /// The dynamic value negated.
    pub fn negate(&self) -> (op: Operation<'_>)
        ensures
            op == Operation::Unary(Unary::Negate, self),
    {
        Operation::Unary(Unary::Negate, self)
    }

    /// The logical not of the dynamic value.
    pub fn not(&self) -> (op: Operation<'_>)
        ensures
            op == Operation::Unary(Unary::Not, self),
    {
        Operation::Unary(Unary::Not, self)
    }

    /// The logical and of the dynamic value and `val`.
    pub fn and<'a>(&'a self, val: &'a Variant) -> (op: Operation<'a>)
        ensures
            op == Operation::Binary(Binary::And, self, val),
    {
        Operation::Binary(Binary::And, self, val)
    }

    /// The logical or of the dynamic value and `val`.
    pub fn or<'a>(&'a self, val: &'a Variant) -> (op: Operation<'a>)
        ensures
            op == Operation::Binary(Binary::Or, self, val),
    {
        Operation::Binary(Binary::Or, self, val)
    }

    /// The logical exclusive or of the dynamic value and `val`.
    pub fn xor<'a>(&'a self, val: &'a Variant) -> (op: Operation<'a>)
        ensures
            op == Operation::Binary(Binary::Xor, self, val),
    {
        Operation::Binary(Binary::Xor, self, val)
    }
}

} // verus!
