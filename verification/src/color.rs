//! Colours and the fill and stroke styles that a tool applies to what it draws.

use vstd::prelude::*;

verus! {

#[derive(Clone, Copy, Debug, PartialEq, Eq, Hash, Structural)]
pub struct Color {
    pub red: u8,
    pub green: u8,
    pub blue: u8,
    pub alpha: u8,
}

impl Color {
    pub open spec fn spec_black() -> Color {
        Color { red: 0, green: 0, blue: 0, alpha: 255 }
    }

    pub open spec fn spec_white() -> Color {
        Color { red: 255, green: 255, blue: 255, alpha: 255 }
    }

    #[verifier::when_used_as_spec(spec_black)]
    pub fn black() -> (c: Color)
        ensures
            c == Color::spec_black(),
    {
        Color { red: 0, green: 0, blue: 0, alpha: 255 }
    }

    #[verifier::when_used_as_spec(spec_white)]
    pub fn white() -> (c: Color)
        ensures
            c == Color::spec_white(),
    {
        Color { red: 255, green: 255, blue: 255, alpha: 255 }
    }
}

#[derive(Clone, Copy, Debug, PartialEq, Eq, Hash)]
pub enum Fill {
    /// Nothing is painted inside the outline.
    Unfilled,
    Solid(Color),
}

#[derive(Clone, Copy, Debug, PartialEq, Eq, Hash)]
pub struct Stroke {
    pub color: Option<Color>,
    /// Line width in pixels.
    pub weight: u32,
}

impl Stroke {
    pub fn new(color: Option<Color>, weight: u32) -> (s: Stroke)
        ensures
            s == (Stroke { color, weight }),
    {
        Stroke { color, weight }
    }
}

/// Where a tool takes a colour from.
#[derive(Clone, Copy, Debug, PartialEq, Eq, Hash, Structural)]
pub enum ToolColorType {
    Primary,
    Secondary,
    Custom,
}

/// The colour choice of one style slot of a tool.
#[derive(Clone, Copy, Debug, PartialEq, Eq, Hash)]
pub struct ToolColorOptions {
    pub custom_color: Option<Color>,
    pub primary_working_color: Option<Color>,
    pub secondary_working_color: Option<Color>,
    pub color_type: ToolColorType,
}

impl ToolColorOptions {
    /// The colour that the slot paints with at the moment, if any.
    pub open spec fn spec_active_color(&self) -> Option<Color> {
        match self.color_type {
            ToolColorType::Custom => self.custom_color,
            ToolColorType::Primary => self.primary_working_color,
            ToolColorType::Secondary => self.secondary_working_color,
        }
    }

    pub open spec fn spec_new_primary() -> ToolColorOptions {
        ToolColorOptions {
            custom_color: Some(Color::spec_black()),
            primary_working_color: Some(Color::spec_black()),
            secondary_working_color: Some(Color::spec_white()),
            color_type: ToolColorType::Primary,
        }
    }

    pub open spec fn spec_new_none() -> ToolColorOptions {
        ToolColorOptions {
            custom_color: None,
            primary_working_color: Some(Color::spec_black()),
            secondary_working_color: Some(Color::spec_white()),
            color_type: ToolColorType::Custom,
        }
    }

    /// A slot that follows the primary working colour.
    #[verifier::when_used_as_spec(spec_new_primary)]
    pub fn new_primary() -> (options: ToolColorOptions)
        ensures
            options == ToolColorOptions::spec_new_primary(),
    {
        ToolColorOptions {
            custom_color: Some(Color::black()),
            primary_working_color: Some(Color::black()),
            secondary_working_color: Some(Color::white()),
            color_type: ToolColorType::Primary,
        }
    }

    /// A slot that follows the secondary working colour.
    pub fn new_secondary() -> (options: ToolColorOptions)
        ensures
            options == (ToolColorOptions { color_type: ToolColorType::Secondary, ..ToolColorOptions::spec_new_primary() }),
    {
        ToolColorOptions {
            custom_color: Some(Color::black()),
            primary_working_color: Some(Color::black()),
            secondary_working_color: Some(Color::white()),
            color_type: ToolColorType::Secondary,
        }
    }

    /// A slot that paints nothing.
    #[verifier::when_used_as_spec(spec_new_none)]
    pub fn new_none() -> (options: ToolColorOptions)
        ensures
            options == ToolColorOptions::spec_new_none(),
            options.spec_active_color() is None,
    {
        ToolColorOptions {
            custom_color: None,
            primary_working_color: Some(Color::black()),
            secondary_working_color: Some(Color::white()),
            color_type: ToolColorType::Custom,
        }
    }

    #[verifier::when_used_as_spec(spec_active_color)]
    pub fn active_color(&self) -> (color: Option<Color>)
        ensures
            color == self.spec_active_color(),
    {
        match self.color_type {
            ToolColorType::Custom => self.custom_color,
            ToolColorType::Primary => self.primary_working_color,
            ToolColorType::Secondary => self.secondary_working_color,
        }
    }
}

} // verus!
