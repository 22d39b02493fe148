//! The public entry points of the icon swap as they behave away from Windows, so a
//! cross-platform crate still builds: nothing to clean, no icon to report, and a
//! swap refused.

use vstd::prelude::*;

use crate::{Error, Icon};

verus! {

/// Cleans up after previous swaps. Nothing to do away from Windows.
pub fn init() -> (r: Result<(), Error>)
    ensures
        r matches Ok(()),
{
    Ok(())
}

/// Changes the icon of the running executable: refused away from Windows.
pub fn set_icon<I: Icon>(icon: I) -> (r: Result<(), Error>)
    ensures
        r matches Err(Error::UnsupportedPlatform),
{
    Err(Error::UnsupportedPlatform)
}

/// The name of the icon currently on the executable: never one away from Windows.
pub fn current_icon() -> (r: Result<Option<String>, Error>)
    ensures
        r matches Ok(None),
{
    Ok(None)
}

} // verus!
