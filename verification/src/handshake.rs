//! The one-time handshake that hands the worker its configuration.

use vstd::prelude::*;

verus! {

/// The loopback endpoint that takes the initialization payload, by POST.
pub const HANDSHAKE_URL: &'static str = "http://127.0.0.1:4130/api/init";

/// The name of the payload's only field in the JSON body.
pub const APP_DATA_DIR_FIELD: &'static str = "appDataDir";

/// The configuration that the worker is handed once it is ready.
#[derive(Clone, Debug, PartialEq, Eq)]
pub struct InitPayload {
    /// The application's data directory, as an absolute path.
    pub app_data_dir: String,
}

/// Whether `status` is of the 2xx class, which alone counts as success.
pub open spec fn status_accepts(status: u16) -> bool {
    200 <= status < 300
}

/// Tells whether the worker accepted the handshake.
pub fn is_success(status: u16) -> (accepted: bool)
    ensures
        accepted == status_accepts(status),
{
    200 <= status && status < 300
}

} // verus!
