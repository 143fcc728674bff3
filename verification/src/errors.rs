use vstd::prelude::*;

verus! {

/// The fatal conditions that abort a run. None of them is recovered from:
/// the driver stops at the first one it meets.
#[derive(Clone, Copy, Debug, PartialEq, Eq, Structural)]
pub enum RunError {
    /// The destination file already exists and overwriting was not forced.
    DestinationExists,
    /// The login request failed or returned no session cookie.
    Auth,
    /// A listing request failed on the network.
    Fetch,
    /// A listing response body was not a JSON object with a `stories` array.
    Decode,
    /// The output document could not be written.
    Persist,
}

impl RunError {
    /// The name of the stage at which the run stopped, for error messages.
    pub fn stage_name(&self) -> (r: &'static str)
        ensures
            r@ == stage_name_of(*self),
    {
        match self {
            RunError::DestinationExists => "pre-flight",
            RunError::Auth => "auth",
            RunError::Fetch => "fetch",
            RunError::Decode => "decode",
            RunError::Persist => "persist",
        }
    }
}

/// The stage name that each error reports.
pub open spec fn stage_name_of(e: RunError) -> Seq<char> {
    match e {
        RunError::DestinationExists => "pre-flight"@,
        RunError::Auth => "auth"@,
        RunError::Fetch => "fetch"@,
        RunError::Decode => "decode"@,
        RunError::Persist => "persist"@,
    }
}

} // verus!
