//! The colours in which each kind of annotation is drawn.
use vstd::prelude::*;
use vstd::std_specs::convert::FromSpecImpl;
use crate::annotated_string::AnnotationType;

verus! {

/// A colour, by its red, green and blue parts.
#[derive(Copy, Clone, Debug, PartialEq, Eq, Structural)]
pub struct Rgb {
    pub r: u8,
    pub g: u8,
    pub b: u8,
}

/// The colours of a run of text. `None` leaves a colour as the terminal has it.
#[derive(Copy, Clone, Debug, PartialEq, Eq, Structural)]
pub struct Attribute {
    pub foreground: Option<Rgb>,
    pub background: Option<Rgb>,
}

/// The colours in which text of the given kind is drawn.
pub open spec fn attribute_of(annotation_type: AnnotationType) -> Attribute {
    match annotation_type {
        AnnotationType::Match => Attribute {
            foreground: Some(Rgb { r: 255, g: 255, b: 255 }),
            background: Some(Rgb { r: 211, g: 211, b: 211 }),
        },
        AnnotationType::SelectedMatch => Attribute {
            foreground: Some(Rgb { r: 255, g: 255, b: 255 }),
            background: Some(Rgb { r: 255, g: 255, b: 153 }),
        },
        AnnotationType::Number => Attribute {
            foreground: Some(Rgb { r: 255, g: 99, b: 71 }),
            background: None,
        },
        AnnotationType::KeyWord => Attribute {
            foreground: Some(Rgb { r: 100, g: 149, b: 237 }),
            background: None,
        },
        AnnotationType::Type => Attribute {
            foreground: Some(Rgb { r: 175, g: 225, b: 175 }),
            background: None,
        },
        AnnotationType::KnownValue => Attribute {
            foreground: Some(Rgb { r: 195, g: 177, b: 225 }),
            background: None,
        },
        AnnotationType::Char => Attribute {
            foreground: Some(Rgb { r: 255, g: 191, b: 0 }),
            background: None,
        },
        AnnotationType::LifetimeSpecifier => Attribute {
            foreground: Some(Rgb { r: 102, g: 205, b: 170 }),
            background: None,
        },
    }
}

impl From<AnnotationType> for Attribute {
    fn from(annotation_type: AnnotationType) -> (attribute: Attribute) {
        match annotation_type {
            AnnotationType::Match => Attribute {
                foreground: Some(Rgb { r: 255, g: 255, b: 255 }),
                background: Some(Rgb { r: 211, g: 211, b: 211 }),
            },
            AnnotationType::SelectedMatch => Attribute {
                foreground: Some(Rgb { r: 255, g: 255, b: 255 }),
                background: Some(Rgb { r: 255, g: 255, b: 153 }),
            },
            AnnotationType::Number => Attribute {
                foreground: Some(Rgb { r: 255, g: 99, b: 71 }),
                background: None,
            },
            AnnotationType::KeyWord => Attribute {
                foreground: Some(Rgb { r: 100, g: 149, b: 237 }),
                background: None,
            },
            AnnotationType::Type => Attribute {
                foreground: Some(Rgb { r: 175, g: 225, b: 175 }),
                background: None,
            },
            AnnotationType::KnownValue => Attribute {
                foreground: Some(Rgb { r: 195, g: 177, b: 225 }),
                background: None,
            },
            AnnotationType::Char => Attribute {
                foreground: Some(Rgb { r: 255, g: 191, b: 0 }),
                background: None,
            },
            AnnotationType::LifetimeSpecifier => Attribute {
                foreground: Some(Rgb { r: 102, g: 205, b: 170 }),
                background: None,
            },
        }
    }
}

impl FromSpecImpl<AnnotationType> for Attribute {
    open spec fn obeys_from_spec() -> bool {
        true
    }

    open spec fn from_spec(annotation_type: AnnotationType) -> Attribute {
        attribute_of(annotation_type)
    }
}

} // verus!
