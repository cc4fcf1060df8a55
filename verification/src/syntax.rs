//! Tokens, elements and attributes of the syntax tree.
use crate::text;
use vstd::prelude::*;

verus! {

/// The kind of a token or a node.
#[derive(Clone, Copy, PartialEq, Eq, Structural, Debug)]
pub enum SyntaxKind {
    /// The token `:`.
    Colon,
    /// An identifier.
    Ident,
    /// Blanks and line breaks.
    Whitespace,
    /// A comment.
    Comment,
    /// A `let` statement.
    LetStmt,
    /// The condition of an `if` or a `while`.
    Condition,
    /// Any other kind.
    Other,
}

/// A token or a node.
#[derive(Debug)]
pub struct SyntaxElement {
    pub kind: SyntaxKind,
    /// The text of a token, `None` for a node.
    pub token_text: Option<String>,
}

/// The contents of a token or a node.
#[verifier::ext_equal]
pub struct ElementView {
    pub kind: SyntaxKind,
    pub token_text: Option<Seq<char>>,
}

impl View for SyntaxElement {
    type V = ElementView;

    open spec fn view(&self) -> ElementView {
        ElementView { kind: self.kind, token_text: text::opt_text(self.token_text) }
    }
}

impl SyntaxElement {
    /// Whether the element is a blank or a comment.
    pub open spec fn is_trivia(self) -> bool {
        self.kind is Whitespace || self.kind is Comment
    }
}

/// The elements that are no trivia, in order.
pub open spec fn without_trivia(siblings: Seq<SyntaxElement>) -> Seq<ElementView>
    decreases siblings.len(),
{
    if siblings.len() == 0 {
        Seq::empty()
    } else if siblings[0].is_trivia() {
        without_trivia(siblings.drop_first())
    } else {
        seq![siblings[0]@] + without_trivia(siblings.drop_first())
    }
}

/// Finds the first of the elements from number `from` on that is no trivia.
pub fn non_trivia_sibling(siblings: &Vec<SyntaxElement>, from: usize) -> (res: Option<usize>)
    requires
        from <= siblings@.len(),
    ensures
        match res {
            Some(i) => {
                &&& from <= i < siblings.len()
                &&& !siblings@[i as int].is_trivia()
                &&& forall|j: int| from <= j < i ==> (#[trigger] siblings@[j]).is_trivia()
                &&& without_trivia(siblings@.skip(from as int)) == seq![siblings@[i as int]@]
                    + without_trivia(siblings@.skip(i + 1))
            },
            None => {
                &&& forall|j: int|
                    from <= j < siblings@.len() ==> (#[trigger] siblings@[j]).is_trivia()
                &&& without_trivia(siblings@.skip(from as int)) == Seq::<ElementView>::empty()
            },
        },
{
    let mut i: usize = from;
    while i < siblings.len()
        invariant
            from <= i <= siblings@.len(),
            forall|j: int| from <= j < i ==> (#[trigger] siblings@[j]).is_trivia(),
            without_trivia(siblings@.skip(from as int)) == without_trivia(siblings@.skip(i as int)),
        decreases siblings@.len() - i,
    {
        assert(siblings@.skip(i as int).drop_first() =~= siblings@.skip(i + 1));
        if !matches!(siblings[i].kind, SyntaxKind::Whitespace | SyntaxKind::Comment) {
            return Some(i);
        }
        i = i + 1;
    }
    None
}

/// A token under the cursor.
#[derive(Debug)]
pub struct SyntaxToken {
    pub text: String,
    /// Whether the token is of the kind of a keyword.
    pub is_keyword: bool,
    /// The offset of the token's first byte in the file.
    pub start: u32,
    /// The siblings before the token, trivia among them, nearest first.
    pub previous: Vec<SyntaxElement>,
}

/// The bytes from `start` up to, and without, `end`.
#[derive(Clone, Copy, PartialEq, Eq, Debug)]
pub struct TextRange {
    pub start: u32,
    pub end: u32,
}

impl TextRange {
    pub open spec fn spec_contains(self, offset: u32) -> bool {
        self.start <= offset < self.end
    }

    pub fn contains(&self, offset: u32) -> (res: bool)
        ensures
            res == self.spec_contains(offset),
    {
        self.start <= offset && offset < self.end
    }
}

/// The contents of an attribute of the form `path(..)`.
#[derive(Debug)]
pub struct SimpleCall {
    pub path: String,
    /// Where the token tree with the arguments stands.
    pub token_tree: TextRange,
}

/// An attribute.
#[derive(Debug)]
pub struct Attr {
    /// The contents, where they have the form of a simple call.
    pub simple_call: Option<SimpleCall>,
}

} // verus!
