use vstd::prelude::*;

verus! {

/// The address of the service.
pub const HOST: &'static str = "https://kagi.com";

/// How often the results container is looked at before a search gives up
/// waiting for results.
pub const MAX_RETRIES: u32 = 5;

/// The pause after a look that found the results container empty, in
/// milliseconds.
pub const RETRY_TIMEOUT: u64 = 1000;

/// How often one search signs in before it gives up on a service that keeps
/// sending it back to the sign-in page.
pub const MAX_SIGNIN_ROUNDS: u32 = 5;

/// The largest number of characters that the library takes for the texts
/// of one address: the address of the service with the parameter it
/// carries, or the location that the browser reports.
pub const MAX_ADDRESS_LENGTH: usize = 1048576;

/// The width of the browser's viewport, in pixels.
pub const VIEWPORT_WIDTH: u32 = 1920;

/// The height of the browser's viewport, in pixels.
pub const VIEWPORT_HEIGHT: u32 = 1080;

} // verus!
