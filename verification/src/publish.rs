//! The publish step: validation of what the runtime answered when asked
//! to upload and promote an artifact to a new immutable version.

use vstd::prelude::*;
use crate::marker::marker_string;

verus! {

/// A successful publish: the function the runtime updated and the new
/// immutable version it assigned.
#[derive(Debug)]
pub struct UpdateFunctionResult {
    pub function_name: String,
    pub version: String,
}

impl UpdateFunctionResult {
    /// The marker string that records this publish in the ledger:
    /// `name@version`.
    pub fn tag_name(&self) -> (r: String)
        ensures
            r@ == marker_string(self.function_name@, self.version@),
    {
        let mut s = self.function_name.clone();
        s.append("@");
        s.append(self.version.as_str());
        proof {
            reveal_strlit("@");
            assert("@"@ =~= seq!['@']);
            assert(s@ =~= marker_string(self.function_name@, self.version@));
        }
        s
    }
}

/// Why a publish was refused.
#[derive(Debug, PartialEq, Eq, Structural)]
pub enum PublishError {
    /// The runtime's answer omitted the function name or the version:
    /// a contract violation by the remote system, not a transient error.
    MalformedResponse,
}

/// Check the runtime's answer to a publish request. The answer must
/// carry both the function name and the version it assigned; an answer
/// missing either is rejected and never retried.
pub fn validate_update_response(
    function_name: Option<String>,
    version: Option<String>,
) -> (r: Result<UpdateFunctionResult, PublishError>)
    ensures
        function_name matches Some(n) ==> version matches Some(v) ==> (r matches Ok(u)
            && u.function_name == n && u.version == v),
        function_name is None || version is None ==> (r matches Err(e)
            && e == PublishError::MalformedResponse),
{
    match (function_name, version) {
        (Some(n), Some(v)) => Ok(UpdateFunctionResult { function_name: n, version: v }),
        _ => Err(PublishError::MalformedResponse),
    }
}

} // verus!
