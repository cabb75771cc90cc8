//! The shapes of the Twitter profile lookup.

use vstd::prelude::*;

verus! {

/// A profile as the lookup hands it back, and as it is handed on with the high-resolution
/// avatar filled in.
#[derive(Debug)]
pub struct TwitterProfile {
    pub screen_name: Option<String>,
    pub avatar_lowres: Option<String>,
    pub avatar_highres: Option<String>,
    pub banner: Option<String>,
    pub description: Option<String>,
    pub errors: Option<Vec<ApiError>>,
}

/// An error as the lookup reports it.
#[derive(Debug)]
pub struct ApiError {
    pub code: u32,
    pub message: String,
}

} // verus!
