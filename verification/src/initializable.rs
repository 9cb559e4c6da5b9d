//! What every part of the interface offers: taking its texts from a language.

use crate::locales::Locale;
use vstd::prelude::*;

verus! {

/// A part of the interface that shows texts of the chosen language.
pub trait Initializable {
    /// Shows the texts of `locale`.
    fn init_text(&self, locale: &Locale);
}

} // verus!
