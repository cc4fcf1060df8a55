//! What a user may choose about hovers.
use vstd::prelude::*;

verus! {

/// The format in which documentation is shown.
#[derive(Clone, Copy, PartialEq, Eq, Structural, Debug)]
pub enum HoverDocFormat {
    Markdown,
    PlainText,
}

#[derive(Clone, Copy, PartialEq, Eq, Debug)]
pub struct HoverConfig {
    /// Whether links in documentation are kept, and made to lead to where they should.
    pub links_in_hover: bool,
    /// The format of documentation, `None` where none is wanted.
    pub documentation: Option<HoverDocFormat>,
}

impl HoverConfig {
    pub open spec fn is_markdown(self) -> bool {
        self.documentation == Some(HoverDocFormat::Markdown)
    }

    /// Whether a hover may hold Markdown.
    pub fn markdown(&self) -> (res: bool)
        ensures
            res == self.is_markdown(),
    {
        matches!(self.documentation, Some(HoverDocFormat::Markdown))
    }
}

} // verus!
