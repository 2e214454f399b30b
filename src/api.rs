//! The messages exchanged between the Dart front end and the Rust hub.

use vstd::prelude::*;

verus! {

/// What a request asks the Rust side to do with the addressed resource.
#[derive(Clone, Copy, Debug, PartialEq, Eq, Structural)]
pub enum Operation {
    Create,
    Read,
    Update,
    Delete,
}

/// Data that Rust streams to Dart without being asked.
#[derive(Clone, Debug)]
pub struct RustSignal {
    pub address: String,
    pub bytes: Vec<u8>,
}

/// A request sent from Dart to Rust.
#[derive(Clone, Debug)]
pub struct RustRequest {
    pub address: String,
    pub operation: Operation,
    pub bytes: Vec<u8>,
}

/// A request together with the id that its response will carry back.
#[derive(Clone, Debug)]
pub struct RustRequestUnique {
    pub id: i32,
    pub request: RustRequest,
}

/// A response sent from Rust to Dart.
#[derive(Clone, Debug)]
pub struct RustResponse {
    pub successful: bool,
    pub bytes: Vec<u8>,
}

/// A response together with the id of the request it answers.
#[derive(Clone, Debug)]
pub struct RustResponseUnique {
    pub id: i32,
    pub response: RustResponse,
}

} // verus!
