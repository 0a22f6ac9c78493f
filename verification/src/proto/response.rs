//! The `result` oneof of [`Response`](super::Response).

use vstd::prelude::*;
use super::{ErrorResult, SuccessResult};

verus! {

/// Either a success payload or a server error.
#[derive(Debug)]
pub enum Result {
    Success(SuccessResult),
    Error(ErrorResult),
}

} // verus!
