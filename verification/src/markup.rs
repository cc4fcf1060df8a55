//! The text of a hover.
use vstd::prelude::*;

verus! {

/// A text that may hold Markdown.
#[derive(PartialEq, Eq, Debug)]
pub struct Markup {
    pub text: String,
}

impl View for Markup {
    type V = Seq<char>;

    open spec fn view(&self) -> Seq<char> {
        self.text@
    }
}

/// `contents` as a block of Rust code.
pub open spec fn rust_block(contents: Seq<char>) -> Seq<char> {
    "```rust\n"@ + contents + "\n```"@
}

/// Whole lines as a block of plain text where Markdown is wanted, else as they are.
pub open spec fn text_block(markdown: bool, lines: Seq<char>) -> Seq<char> {
    if markdown {
        "```text\n"@ + lines + "```\n"@
    } else {
        lines
    }
}

/// The contents of an optional markup.
pub open spec fn opt_markup(markup: Option<Markup>) -> Option<Seq<char>> {
    match markup {
        Some(markup) => Some(markup@),
        None => None,
    }
}

impl From<String> for Markup {
    fn from(text: String) -> (res: Markup) {
        Markup { text }
    }
}

impl vstd::std_specs::convert::FromSpecImpl<String> for Markup {
    open spec fn obeys_from_spec() -> bool {
        true
    }

    open spec fn from_spec(text: String) -> Markup {
        Markup { text }
    }
}

impl Markup {
    pub fn as_str(&self) -> (res: &str)
        ensures
            res@ == self@,
    {
        self.text.as_str()
    }

    /// A block of Rust code.
    pub fn fenced_block(contents: &str) -> (res: Markup)
        ensures
            res@ == rust_block(contents@),
    {
        let mut text = String::new();
        push_rust_block(&mut text, contents);
        assert(text@ =~= rust_block(contents@));
        Markup::from(text)
    }
}

/// Appends a block of Rust code.
pub(crate) fn push_rust_block(buf: &mut String, contents: &str)
    ensures
        final(buf)@ == old(buf)@ + rust_block(contents@),
{
    buf.append("```rust\n");
    buf.append(contents);
    buf.append("\n```");
    assert(buf@ =~= old(buf)@ + rust_block(contents@));
}

/// Puts whole lines into a block of plain text where Markdown is wanted.
pub(crate) fn block_of(markdown: bool, lines: String) -> (res: Markup)
    ensures
        res@ == text_block(markdown, lines@),
{
    if markdown {
        let mut text = String::new();
        text.append("```text\n");
        text.append(lines.as_str());
        text.append("```\n");
        assert(text@ =~= text_block(markdown, lines@));
        Markup::from(text)
    } else {
        Markup::from(lines)
    }
}

} // verus!
