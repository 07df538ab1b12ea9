//! What the host says about itself.

use crate::error::{outcome, Error, ErrorModel};
use vstd::prelude::*;
use vstd::string::*;
use vstd::utf8::*;

verus! {

/// The host's memory report as text: the bytes decoded, a failure to
/// decode them, or the failure to get any, with its cause.
pub open spec fn memory_of(output: Result<Seq<u8>, Seq<char>>) -> Result<Seq<char>, ErrorModel> {
    match output {
        Err(cause) => Err(ErrorModel::HostMetricsFailed(cause)),
        Ok(bytes) => if valid_utf8(bytes) {
            Ok(decode_utf8(bytes))
        } else {
            Err(ErrorModel::InvalidOutputEncoding)
        },
    }
}

/// Reads what the host wrote about its free memory. The text is kept as
/// it was written.
pub fn get_memory_stats(output: Result<Vec<u8>, String>) -> (memory: Result<String, Error>)
    ensures
        outcome(memory) == memory_of(
            match output {
                Ok(bytes) => Ok(bytes@),
                Err(cause) => Err(cause@),
            },
        ),
{
    match output {
        Err(cause) => Err(Error::HostMetricsFailed(cause)),
        Ok(bytes) => match core::str::from_utf8(bytes.as_slice()) {
            Ok(text) => Ok(text.to_owned()),
            Err(_) => Err(Error::InvalidOutputEncoding),
        },
    }
}

} // verus!
