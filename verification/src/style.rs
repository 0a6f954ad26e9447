//! The small palette of visual styles that document lines are drawn in.

use vstd::prelude::*;

verus! {

/// The foreground colour of a run of text.
#[derive(Clone, Copy, Debug, PartialEq, Eq, Structural)]
pub enum Foreground {
    /// The terminal's own foreground colour.
    Default,
    LightBlue,
    Red,
    Yellow,
    Green,
}

/// How a run of text looks: its colour, and whether it is bold or shown in
/// reverse video.
#[derive(Clone, Copy, Debug, PartialEq, Eq, Structural)]
pub struct TextStyle {
    pub foreground: Foreground,
    pub bold: bool,
    pub reversed: bool,
}

/// A stretch of text drawn in one style, as contracts speak of it.
pub struct StyledRun {
    pub text: Seq<char>,
    pub style: TextStyle,
}

impl TextStyle {
    /// The style that changes nothing: default colour, neither bold nor reversed.
    pub open spec fn plain_spec() -> TextStyle {
        TextStyle { foreground: Foreground::Default, bold: false, reversed: false }
    }

    /// This style with reverse video laid over it when `highlight` is set.
    pub open spec fn highlighted_spec(self, highlight: bool) -> TextStyle {
        TextStyle {
            foreground: self.foreground,
            bold: self.bold,
            reversed: self.reversed || highlight,
        }
    }

    /// The style that changes nothing.
    #[verifier::when_used_as_spec(plain_spec)]
    pub fn plain() -> (style: TextStyle)
        ensures
            style == TextStyle::plain_spec(),
    {
        TextStyle { foreground: Foreground::Default, bold: false, reversed: false }
    }

    /// A non-bold, non-reversed style of the given colour.
    pub fn coloured(foreground: Foreground) -> (style: TextStyle)
        ensures
            style == (TextStyle { foreground, bold: false, reversed: false }),
    {
        TextStyle { foreground, bold: false, reversed: false }
    }

    /// This style made bold.
    pub fn emboldened(self) -> (style: TextStyle)
        ensures
            style == (TextStyle { foreground: self.foreground, bold: true, reversed: self.reversed }),
    {
        TextStyle { foreground: self.foreground, bold: true, reversed: self.reversed }
    }

    /// Lays reverse video over this style when `highlight` is set, and leaves
    /// it as it is otherwise.
    #[verifier::when_used_as_spec(highlighted_spec)]
    pub fn highlighted(self, highlight: bool) -> (style: TextStyle)
        ensures
            style == self.highlighted_spec(highlight),
    {
        TextStyle {
            foreground: self.foreground,
            bold: self.bold,
            reversed: self.reversed || highlight,
        }
    }
}

} // verus!
