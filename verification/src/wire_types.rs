//! Declarations of the wire codec's types.
//!
//! These make the tockloader-proto codec's decoder, command and response
//! types known to the verifier as opaque values, so the wrappers in the
//! wire module can hold and pass them.

use vstd::prelude::*;

verus! {

#[verifier::external_type_specification]
#[verifier::external_body]
pub struct ExCommandDecoder(tockloader_proto::CommandDecoder);

#[verifier::external_type_specification]
#[verifier::external_body]
pub struct ExCommand<'a>(tockloader_proto::Command<'a>);

#[verifier::external_type_specification]
#[verifier::external_body]
pub struct ExResponse<'a>(tockloader_proto::Response<'a>);

} // verus!
