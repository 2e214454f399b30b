//! Decoding of the raw values that arrive from the Dart side.

use vstd::prelude::*;

use crate::api::Operation;

verus! {

/// The wire code of each operation: `Create` 0, `Read` 1, `Update` 2, `Delete` 3.
pub open spec fn operation_code(op: Operation) -> int {
    match op {
        Operation::Create => 0,
        Operation::Read => 1,
        Operation::Update => 2,
        Operation::Delete => 3,
    }
}

/// Conversion of a raw value received across the boundary into a native value.
pub trait Wire2Api<T>: Sized {
    /// Whether this raw value is a valid encoding of a `T`.
    spec fn wire_valid(&self) -> bool;

    /// The native value that a valid raw value stands for.
    spec fn wire_value(&self) -> T;

    fn wire2api(self) -> (r: T)
        requires
            self.wire_valid(),
        ensures
            r == self.wire_value(),
    ;
}

impl Wire2Api<i32> for i32 {
    open spec fn wire_valid(&self) -> bool {
        true
    }

    open spec fn wire_value(&self) -> i32 {
        *self
    }

    fn wire2api(self) -> (r: i32) {
        self
    }
}

impl Wire2Api<Operation> for i32 {
    open spec fn wire_valid(&self) -> bool {
        0 <= *self <= 3
    }

    open spec fn wire_value(&self) -> Operation {
        if *self == 0 {
            Operation::Create
        } else if *self == 1 {
            Operation::Read
        } else if *self == 2 {
            Operation::Update
        } else {
            Operation::Delete
        }
    }

    fn wire2api(self) -> (r: Operation) {
        match self {
            0 => Operation::Create,
            1 => Operation::Read,
            2 => Operation::Update,
            _ => Operation::Delete,
        }
    }
}

/// Every operation has a wire code, and that code decodes back to it.
pub proof fn operation_code_decodes(op: Operation)
    ensures
        0 <= operation_code(op) <= 3,
        Wire2Api::<Operation>::wire_valid(&(operation_code(op) as i32)),
        Wire2Api::<Operation>::wire_value(&(operation_code(op) as i32)) == op,
{
}

/// A valid wire code is the code of the operation that it decodes to.
pub proof fn operation_decode_encodes(code: i32)
    requires
        Wire2Api::<Operation>::wire_valid(&code),
    ensures
        operation_code(Wire2Api::<Operation>::wire_value(&code)) == code,
{
}

impl Wire2Api<u8> for u8 {
    open spec fn wire_valid(&self) -> bool {
        true
    }

    open spec fn wire_value(&self) -> u8 {
        *self
    }

    fn wire2api(self) -> (r: u8) {
        self
    }
}

} // verus!
