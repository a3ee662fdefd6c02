//! Localization: the interface language (English strings only for now).

use vstd::prelude::*;

verus! {

/// Initialize localization (nothing to load while only English exists)
pub fn init() {
}

/// Get the current language code
pub fn current_language() -> (r: String)
    ensures
        r@ == "en"@,
{
    String::from_str("en")
}

} // verus!
