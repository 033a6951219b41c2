//! Styled text fragments.
//!
//! The renderers never talk to a terminal; they return text paired with an
//! abstract emphasis, and the caller maps each emphasis to its medium
//! (colors, markup, nothing).

use vstd::prelude::*;

verus! {

/// The visual emphasis of a rendered fragment.
///
/// `Plain` for system names, `Muted` for precompile names, `Highlighted`
/// for popular-contract names, `RawAddress` for an address printed as bare
/// hex because no name is known for it.
#[derive(Clone, Copy, Debug, PartialEq, Eq, Structural)]
pub enum Style {
    Plain,
    Muted,
    Highlighted,
    RawAddress,
}

/// A piece of text with one emphasis.
#[derive(Clone, Debug)]
pub struct Span {
    pub text: String,
    pub style: Style,
}

/// The mathematical value of a `Span`.
pub ghost struct SpanModel {
    pub text: Seq<char>,
    pub style: Style,
}

impl View for Span {
    type V = SpanModel;

    open spec fn view(&self) -> SpanModel {
        SpanModel { text: self.text@, style: self.style }
    }
}

} // verus!
