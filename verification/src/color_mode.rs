//! Whether output should be colored, resolved per destination.

use vstd::prelude::*;

verus! {

/// The requested color behaviour: follow the destination (color only on a
/// terminal), always color, or never color.
#[derive(Copy, Clone, Debug, PartialEq, Eq, Structural)]
pub enum ColorMode {
    Auto,
    Always,
    Never,
}

impl Default for ColorMode {
    /// The default mode follows the destination.
    fn default() -> (r: ColorMode)
        ensures
            r == ColorMode::Auto,
    {
        ColorMode::Auto
    }
}

impl ColorMode {
    /// What the mode resolves to on a destination whose terminal-ness is
    /// known: `Auto` follows the destination, the other two override it.
    pub open spec fn spec_resolve(self, is_terminal: bool) -> bool {
        match self {
            ColorMode::Auto => is_terminal,
            ColorMode::Always => true,
            ColorMode::Never => false,
        }
    }

    /// Resolves the mode against a destination's terminal-ness.
    pub fn resolve(&self, is_terminal: bool) -> (r: bool)
        ensures
            r == self.spec_resolve(is_terminal),
    {
        match self {
            ColorMode::Auto => is_terminal,
            ColorMode::Always => true,
            ColorMode::Never => false,
        }
    }

    /// Whether to color standard output: a terminal standard output counts
    /// as such a destination.
    pub fn stdout(&self) -> (r: bool)
        ensures
            *self == ColorMode::Always ==> r,
            *self == ColorMode::Never ==> !r,
    {
        let term = stdout_is_terminal();
        self.resolve(term)
    }

    /// Whether to color standard error: a terminal standard error counts as
    /// such a destination.
    pub fn stderr(&self) -> (r: bool)
        ensures
            *self == ColorMode::Always ==> r,
            *self == ColorMode::Never ==> !r,
    {
        let term = stderr_is_terminal();
        self.resolve(term)
    }

    /// Whether to color output going to a file: a file is never a terminal,
    /// so only `Always` colors it.
    pub fn file(&self) -> (r: bool)
        ensures
            r == self.spec_resolve(false),
            r == (*self == ColorMode::Always),
    {
        match self {
            ColorMode::Auto => false,
            ColorMode::Always => true,
            ColorMode::Never => false,
        }
    }
}

/// Relies on std::io::IsTerminal::is_terminal on std::io::stdout: whether
/// standard output is attached to a terminal.
#[verifier::external_body]
fn stdout_is_terminal() -> (r: bool) {
    std::io::IsTerminal::is_terminal(&std::io::stdout())
}

/// Relies on std::io::IsTerminal::is_terminal on std::io::stderr: whether
/// standard error is attached to a terminal.
#[verifier::external_body]
fn stderr_is_terminal() -> (r: bool) {
    std::io::IsTerminal::is_terminal(&std::io::stderr())
}

} // verus!
