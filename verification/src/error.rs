//! The failure report of the classifier: an unrecognized tag, together with
//! the grammatical dimension whose closed enumeration it missed.

use vstd::prelude::*;

verus! {

/// The grammatical dimension a tag was read for.
#[derive(Clone, Copy, Debug, PartialEq, Eq, Structural)]
pub enum Dimension {
    WordClass,
    Noun,
    Particle,
    Adjective,
    Verb,
    VerbGroup,
    SyllableRow,
    ConjungationForm,
}

/// A tag spelling outside the closed enumeration of its dimension.
#[derive(Clone, Debug, PartialEq)]
pub struct UnrecognizedTag {
    pub dimension: Dimension,
    pub tag: String,
}

/// The mathematical value of an [`UnrecognizedTag`].
pub struct UnrecognizedTagV {
    pub dimension: Dimension,
    pub tag: Seq<char>,
}

impl View for UnrecognizedTag {
    type V = UnrecognizedTagV;

    open spec fn view(&self) -> UnrecognizedTagV {
        UnrecognizedTagV { dimension: self.dimension, tag: self.tag@ }
    }
}

impl DeepView for UnrecognizedTag {
    type V = UnrecognizedTagV;

    open spec fn deep_view(&self) -> UnrecognizedTagV {
        self@
    }
}

} // verus!
