//! Failures the library reports to its callers.

use vstd::prelude::*;

verus! {

/// What went wrong, by category.
#[derive(Clone, Copy, Debug, PartialEq, Eq, Structural)]
pub enum RadarError {
    /// The platform secret store could not be reached or refused the request.
    StoreUnavailable,
    /// A secret that is empty once surrounding whitespace is removed.
    EmptySecret,
    /// Text that does not parse as a URL.
    InvalidUrl,
    /// A URL whose scheme is neither http nor https.
    UnsupportedScheme,
    /// The feature does not exist on this operating system.
    UnsupportedPlatform,
    /// The host runtime has no tray icon under the expected id.
    TrayNotFound,
    /// The tray refused the new icon; nothing of the update was applied.
    TrayIconRejected,
    /// The host runtime has no main window.
    WindowNotFound,
}

} // verus!
