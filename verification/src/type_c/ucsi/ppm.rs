//! PPM (platform policy manager) responses
use vstd::prelude::*;

use crate::type_c::PdError;

verus! {

/// PPM command response data
#[derive(Copy, Clone, Debug, PartialEq, Eq, Structural)]
#[allow(missing_docs)]
pub enum ResponseData {
    Complete,
}

/// PPM command response
pub type Response = Result<ResponseData, PdError>;

} // verus!
