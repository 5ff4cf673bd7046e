use crate::color::Color;
use vstd::prelude::*;

verus! {

/// How text is underlined.
#[derive(Clone, Copy, Debug, Eq, Hash, PartialEq, Structural)]
pub enum UnderlineStyle {
    /// No underline (default).
    Disabled,
    Single,
    Double,
}

impl Default for UnderlineStyle {
    fn default() -> (u: Self)
        ensures
            u == UnderlineStyle::Disabled,
    {
        UnderlineStyle::Disabled
    }
}

/// Underline, strikethrough and overline settings, each with an optional color.
#[derive(Clone, Copy, Debug, Eq, Hash, PartialEq, Structural)]
pub struct TextDecoration {
    pub underline: UnderlineStyle,
    pub underline_color_opt: Option<Color>,
    pub strikethrough: bool,
    pub strikethrough_color_opt: Option<Color>,
    pub overline: bool,
    pub overline_color_opt: Option<Color>,
}

/// The decoration with no line drawn and no color set.
pub open spec fn plain_decoration() -> TextDecoration {
    TextDecoration {
        underline: UnderlineStyle::Disabled,
        underline_color_opt: None,
        strikethrough: false,
        strikethrough_color_opt: None,
        overline: false,
        overline_color_opt: None,
    }
}

/// The plain decoration draws no line and sets no color, so lines drawn
/// later take the text color until a color is given.
pub proof fn lemma_plain_decoration_sets_nothing()
    ensures
        plain_decoration().underline is Disabled,
        !plain_decoration().strikethrough,
        !plain_decoration().overline,
        plain_decoration().underline_color_opt is None,
        plain_decoration().strikethrough_color_opt is None,
        plain_decoration().overline_color_opt is None,
{
}

impl Default for TextDecoration {
    fn default() -> (d: Self)
        ensures
            d == plain_decoration(),
            d.underline_color_opt is None,
            d.strikethrough_color_opt is None,
            d.overline_color_opt is None,
    {
        TextDecoration::new()
    }
}

impl TextDecoration {
    /// No line drawn and no color set.
    pub fn new() -> (d: Self)
        ensures
            d == plain_decoration(),
            d.underline is Disabled,
            !d.strikethrough,
            !d.overline,
            d.underline_color_opt is None,
            d.strikethrough_color_opt is None,
            d.overline_color_opt is None,
    {
        TextDecoration {
            underline: UnderlineStyle::Disabled,
            underline_color_opt: None,
            strikethrough: false,
            strikethrough_color_opt: None,
            overline: false,
            overline_color_opt: None,
        }
    }

    /// Whether any line is drawn: an underline, a strikethrough or an overline.
    pub fn has_decoration(&self) -> (r: bool)
        ensures
            r == (!(self.underline is Disabled) || self.strikethrough || self.overline),
    {
        let underlined = match self.underline {
            UnderlineStyle::Disabled => false,
            _ => true,
        };
        underlined || self.strikethrough || self.overline
    }
}

} // verus!
