//! Compiler settings.

use vstd::prelude::*;

verus! {

/// The flags that the compiler was started with. The tokenizer carries them
/// for its caller and never reads them: they decide what is reported, not
/// what is tokenized.
#[derive(Debug, Clone, Copy, PartialEq, Eq, Structural)]
pub struct Settings {
    /// Report progress.
    pub is_verbose: bool,
    /// Print the tokens once the source is tokenized.
    pub is_print_tokens: bool,
    /// Report without terminal colors.
    pub is_no_color: bool,
}

impl Default for Settings {
    /// All flags off.
    fn default() -> (settings: Self)
        ensures
            !settings.is_verbose,
            !settings.is_print_tokens,
            !settings.is_no_color,
    {
        Settings { is_verbose: false, is_print_tokens: false, is_no_color: false }
    }
}

} // verus!
