//! Whether a build may update itself.
//!
//! Updates are signed, so the updater is switched on in exactly those builds
//! that were given a signing key. Only the presence of the key counts, never
//! its value, and the answer is settled when the build is made.

use vstd::prelude::*;

verus! {

/// Tells whether the updater is enabled in a build that was given
/// `signing_key`.
///
/// A build without a key is no error: its updater is off. A key that was
/// supplied switches the updater on whatever it holds, the empty string
/// included.
pub fn is_updater_enabled(signing_key: Option<&str>) -> (enabled: bool)
    ensures
        signing_key is None ==> !enabled,
        signing_key is Some ==> enabled,
{
    signing_key.is_some()
}

} // verus!
