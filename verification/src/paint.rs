use vstd::prelude::*;

use crate::text::lower_eq;
use crate::text::lower_seq;

verus! {

/// Error returned when a paint-mode token is not recognized. It carries
/// no payload: the caller decides whether the failure is fatal.
#[derive(Debug, Clone, Copy, PartialEq, Eq, Structural)]
pub struct ParsePaintModeError {}

/// The closed set of annotation tools.
#[derive(Debug, Clone, Copy, PartialEq, Eq, Structural)]
pub enum PaintMode {
    Brush,
    Text,
    Rectangle,
    Ellipse,
    Arrow,
    Blur,
}

/// The paint-mode grammar: ASCII-lowercase the token, then match it
/// against one of the six tool names. Anything else is a parse error.
pub open spec fn paint_mode_of_text(s: Seq<char>) -> Result<PaintMode, ParsePaintModeError> {
    let t = lower_seq(s);
    if t == "brush"@ {
        Ok(PaintMode::Brush)
    } else if t == "text"@ {
        Ok(PaintMode::Text)
    } else if t == "rectangle"@ {
        Ok(PaintMode::Rectangle)
    } else if t == "ellipse"@ {
        Ok(PaintMode::Ellipse)
    } else if t == "arrow"@ {
        Ok(PaintMode::Arrow)
    } else if t == "blur"@ {
        Ok(PaintMode::Blur)
    } else {
        Err(ParsePaintModeError {})
    }
}

impl PaintMode {
    /// Case-insensitive parser for the tool vocabulary.
    pub fn parse(s: &str) -> (r: Result<PaintMode, ParsePaintModeError>)
        ensures
            r == paint_mode_of_text(s@),
    {
        if lower_eq(s, "brush") {
            Ok(PaintMode::Brush)
        } else if lower_eq(s, "text") {
            Ok(PaintMode::Text)
        } else if lower_eq(s, "rectangle") {
            Ok(PaintMode::Rectangle)
        } else if lower_eq(s, "ellipse") {
            Ok(PaintMode::Ellipse)
        } else if lower_eq(s, "arrow") {
            Ok(PaintMode::Arrow)
        } else if lower_eq(s, "blur") {
            Ok(PaintMode::Blur)
        } else {
            Err(ParsePaintModeError {})
        }
    }
}

impl core::str::FromStr for PaintMode {
    type Err = ParsePaintModeError;

    fn from_str(s: &str) -> Result<PaintMode, ParsePaintModeError> {
        PaintMode::parse(s)
    }
}

} // verus!
