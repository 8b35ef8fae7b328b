use vstd::prelude::*;

verus! {

/// One operand-stack slot.
///
/// The float variants carry the IEEE-754 bit pattern of the number, so the
/// slot stays a plain, copyable value that the stack can compare and move
/// without interpreting it.
#[derive(Debug, PartialEq, Eq, Structural, Clone, Copy)]
pub enum Value {
    I32(i32),
    I64(i64),
    F32(u32),
    F64(u64),
    NullRef,
    FuncRef,
    ExternRef,
}

/// A fault raised by the execution stack instead of aborting the host.
#[derive(Debug, PartialEq, Eq, Structural, Clone, Copy)]
pub enum Trap {
    /// A pop from an empty sub-stack, or a label depth past the bottom.
    StackUnderflow,
    /// A value was read back as a variant other than the one it holds.
    TypeMismatch,
}

/// A native type that one variant of `Value` wraps.
pub trait Native: Sized {
    /// The slot that holds `self`.
    spec fn to_value(self) -> Value;

    /// What a slot holds when read as this type: `None` for any other variant.
    spec fn of_value(v: Value) -> Option<Self>;

    /// Reading back a wrapped value gives it unchanged.
    proof fn lemma_of_to(x: Self)
        ensures
            Self::of_value(x.to_value()) == Some(x),
    ;

    fn into_value(self) -> (v: Value)
        ensures
            v == self.to_value(),
    ;

    fn from_value(v: Value) -> (r: Option<Self>)
        ensures
            r == Self::of_value(v),
    ;
}

impl Native for i32 {
    open spec fn to_value(self) -> Value {
        Value::I32(self)
    }

    open spec fn of_value(v: Value) -> Option<i32> {
        match v {
            Value::I32(x) => Some(x),
            _ => None,
        }
    }

    proof fn lemma_of_to(x: i32) {
    }

    fn into_value(self) -> (v: Value) {
        Value::I32(self)
    }

    fn from_value(v: Value) -> (r: Option<i32>) {
        match v {
            Value::I32(x) => Some(x),
            _ => None,
        }
    }
}

impl Native for i64 {
    open spec fn to_value(self) -> Value {
        Value::I64(self)
    }

    open spec fn of_value(v: Value) -> Option<i64> {
        match v {
            Value::I64(x) => Some(x),
            _ => None,
        }
    }

    proof fn lemma_of_to(x: i64) {
    }

    fn into_value(self) -> (v: Value) {
        Value::I64(self)
    }

    fn from_value(v: Value) -> (r: Option<i64>) {
        match v {
            Value::I64(x) => Some(x),
            _ => None,
        }
    }
}

/// Any slot, read without a tag check.
impl Native for Value {
    open spec fn to_value(self) -> Value {
        self
    }

    open spec fn of_value(v: Value) -> Option<Value> {
        Some(v)
    }

    proof fn lemma_of_to(x: Value) {
    }

    fn into_value(self) -> (v: Value) {
        self
    }

    fn from_value(v: Value) -> (r: Option<Value>) {
        Some(v)
    }
}

} // verus!
