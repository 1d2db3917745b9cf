//! Token trees: the plain-data form of Rust source that the expansions read
//! and produce.
//!
//! A stream of tokens is a `Vec<TokenTree>`. Its mathematical model is the
//! sequence `stream.deep_view()` of [`TokenTreeView`] values, and every
//! contract in this crate is stated over such sequences.

use vstd::prelude::*;
use vstd::string::StringExecFns;

verus! {

/// The brackets around a group of tokens.
#[derive(Clone, Copy, Debug, PartialEq, Eq, Hash, Structural)]
pub enum Delimiter {
    /// `( ... )`
    Parenthesis,
    /// `{ ... }`
    Brace,
    /// `[ ... ]`
    Bracket,
    /// No brackets in the source text: the group only keeps its tokens together.
    Invisible,
}

/// Whether a punctuation character is glued to the one that follows it.
#[derive(Clone, Copy, Debug, PartialEq, Eq, Hash, Structural)]
pub enum Spacing {
    /// The next token is separate, as after the `,` in `a, b`.
    Alone,
    /// The next punctuation character continues this operator, as after the
    /// first `:` of `::`.
    Joint,
}

/// A literal token.
///
/// A literal that was read from source is kept as the text that stood there.
/// A literal that an expansion creates for a value is kept as that value, so
/// that no escaping happens here.
#[derive(Debug, PartialEq, Eq, Hash)]
pub enum Literal {
    /// The literal exactly as written, quotes and suffix included.
    Verbatim(String),
    /// A string literal that denotes the given text.
    Str(String),
    /// An integer literal of type `usize`, written with its suffix.
    Usize(usize),
}

/// One token, or a bracketed group of tokens.
#[derive(Debug, PartialEq, Eq, Hash)]
pub enum TokenTree {
    /// The tokens between a pair of brackets.
    Group(Delimiter, Vec<TokenTree>),
    /// An identifier or keyword.
    Ident(String),
    /// A single punctuation character.
    Punct(char, Spacing),
    /// A literal.
    Literal(Literal),
}

/// The model of a [`Literal`].
pub enum LiteralView {
    Verbatim(Seq<char>),
    Str(Seq<char>),
    Usize(usize),
}

/// The model of a [`TokenTree`].
pub enum TokenTreeView {
    Group(Delimiter, Seq<TokenTreeView>),
    Ident(Seq<char>),
    Punct(char, Spacing),
    Literal(LiteralView),
}

impl View for Literal {
    type V = LiteralView;

    open spec fn view(&self) -> LiteralView {
        match self {
            Literal::Verbatim(text) => LiteralView::Verbatim(text@),
            Literal::Str(value) => LiteralView::Str(value@),
            Literal::Usize(n) => LiteralView::Usize(*n),
        }
    }
}

impl DeepView for Literal {
    type V = LiteralView;

    open spec fn deep_view(&self) -> LiteralView {
        self@
    }
}

/// The model of a token tree: the same tree with every vector read as a
/// sequence and every string as its characters.
pub open spec fn tree_view(tree: TokenTree) -> TokenTreeView
    decreases tree,
{
    match tree {
        TokenTree::Group(delimiter, stream) => TokenTreeView::Group(
            delimiter,
            Seq::new(
                stream@.len(),
                |i: int|
                    if 0 <= i < stream@.len() {
                        tree_view(stream@[i])
                    } else {
                        arbitrary()
                    },
            ),
        ),
        TokenTree::Ident(name) => TokenTreeView::Ident(name@),
        TokenTree::Punct(ch, spacing) => TokenTreeView::Punct(ch, spacing),
        TokenTree::Literal(literal) => TokenTreeView::Literal(literal@),
    }
}

impl DeepView for TokenTree {
    type V = TokenTreeView;

    open spec fn deep_view(&self) -> TokenTreeView {
        tree_view(*self)
    }
}

impl View for TokenTree {
    type V = TokenTreeView;

    open spec fn view(&self) -> TokenTreeView {
        tree_view(*self)
    }
}

impl TokenTreeView {
    /// A punctuation character that stands alone.
    pub open spec fn punct(ch: char) -> TokenTreeView {
        TokenTreeView::Punct(ch, Spacing::Alone)
    }

    /// A punctuation character glued to the next one.
    pub open spec fn joint(ch: char) -> TokenTreeView {
        TokenTreeView::Punct(ch, Spacing::Joint)
    }

    /// A string literal that denotes `value`.
    pub open spec fn string(value: Seq<char>) -> TokenTreeView {
        TokenTreeView::Literal(LiteralView::Str(value))
    }

    /// A `usize` literal.
    pub open spec fn usize_suffixed(n: usize) -> TokenTreeView {
        TokenTreeView::Literal(LiteralView::Usize(n))
    }

    /// A literal kept as written.
    pub open spec fn verbatim(text: Seq<char>) -> TokenTreeView {
        TokenTreeView::Literal(LiteralView::Verbatim(text))
    }

    /// `( stream )`
    pub open spec fn parenthesized(stream: Seq<TokenTreeView>) -> TokenTreeView {
        TokenTreeView::Group(Delimiter::Parenthesis, stream)
    }

    /// `{ stream }`
    pub open spec fn braced(stream: Seq<TokenTreeView>) -> TokenTreeView {
        TokenTreeView::Group(Delimiter::Brace, stream)
    }

    /// `[ stream ]`
    pub open spec fn bracketed(stream: Seq<TokenTreeView>) -> TokenTreeView {
        TokenTreeView::Group(Delimiter::Bracket, stream)
    }
}

/// The path separator `::`.
pub open spec fn path_separator() -> Seq<TokenTreeView> {
    seq![TokenTreeView::joint(':'), TokenTreeView::punct(':')]
}

/// The outer attribute `#[content]`.
pub open spec fn outer_attribute(content: Seq<TokenTreeView>) -> Seq<TokenTreeView> {
    seq![TokenTreeView::punct('#'), TokenTreeView::bracketed(content)]
}

/// The model of a group is the group of the models of its tokens.
pub proof fn lemma_group_view(delimiter: Delimiter, stream: Vec<TokenTree>)
    ensures
        TokenTree::Group(delimiter, stream)@ == TokenTreeView::Group(
            delimiter,
            stream.deep_view(),
        ),
{
    assert(TokenTree::Group(delimiter, stream)@->Group_1 =~= stream.deep_view());
}

impl Clone for Literal {
    fn clone(&self) -> (copy: Self)
        ensures
            copy@ == self@,
    {
        match self {
            Literal::Verbatim(text) => Literal::Verbatim(text.clone()),
            Literal::Str(value) => Literal::Str(value.clone()),
            Literal::Usize(n) => Literal::Usize(*n),
        }
    }
}

impl Clone for TokenTree {
    fn clone(&self) -> (copy: Self)
        ensures
            copy@ == self@,
    {
        clone_tree(self)
    }
}

/// A copy of `tree`, every level of it.
pub fn clone_tree(tree: &TokenTree) -> (copy: TokenTree)
    ensures
        copy@ == tree@,
    decreases *tree,
{
    match tree {
        TokenTree::Group(delimiter, stream) => {
            let mut copies: Vec<TokenTree> = Vec::new();
            let mut i: usize = 0;
            while i < stream.len()
                invariant
                    i <= stream.len(),
                    decreases_to!(*tree => *stream),
                    copies@.len() == i,
                    forall|j: int| 0 <= j < i ==> copies@[j]@ == stream@[j]@,
                decreases stream.len() - i,
            {
                proof {
                    assert(decreases_to!(*stream => stream[i as int]));
                }
                copies.push(clone_tree(&stream[i]));
                i += 1;
            }
            proof {
                lemma_group_view(*delimiter, copies);
                lemma_group_view(*delimiter, *stream);
                assert(copies.deep_view() =~= stream.deep_view());
            }
            TokenTree::Group(*delimiter, copies)
        },
        TokenTree::Ident(name) => TokenTree::Ident(name.clone()),
        TokenTree::Punct(ch, spacing) => TokenTree::Punct(*ch, *spacing),
        TokenTree::Literal(literal) => TokenTree::Literal(literal.clone()),
    }
}

/// A copy of `stream`, every level of it.
pub fn clone_stream(stream: &Vec<TokenTree>) -> (copy: Vec<TokenTree>)
    ensures
        copy.deep_view() == stream.deep_view(),
{
    let mut copy: Vec<TokenTree> = Vec::new();
    extend_stream(&mut copy, stream);
    copy
}

/// Puts `tree` at the end of `stream`.
pub fn push_tree(stream: &mut Vec<TokenTree>, tree: TokenTree)
    ensures
        final(stream).deep_view() == old(stream).deep_view().push(tree@),
{
    stream.push(tree);
    assert(stream.deep_view() =~= old(stream).deep_view().push(tree@));
}

/// Moves the tokens of `more` to the end of `stream`.
pub fn append_stream(stream: &mut Vec<TokenTree>, more: Vec<TokenTree>)
    ensures
        final(stream).deep_view() == old(stream).deep_view() + more.deep_view(),
{
    let mut more = more;
    let ghost added = more.deep_view();
    stream.append(&mut more);
    assert(stream.deep_view() =~= old(stream).deep_view() + added);
}

/// Puts a copy of each token of `more` at the end of `stream`.
pub fn extend_stream(stream: &mut Vec<TokenTree>, more: &Vec<TokenTree>)
    ensures
        final(stream).deep_view() == old(stream).deep_view() + more.deep_view(),
{
    let mut i: usize = 0;
    while i < more.len()
        invariant
            i <= more.len(),
            stream.deep_view() == old(stream).deep_view() + more.deep_view().take(i as int),
        decreases more.len() - i,
    {
        push_tree(stream, clone_tree(&more[i]));
        assert(stream.deep_view() =~= old(stream).deep_view() + more.deep_view().take(i + 1));
        i += 1;
    }
    assert(more.deep_view().take(more.len() as int) =~= more.deep_view());
}

impl TokenTree {
    /// The identifier or keyword `name`.
    pub fn ident(name: &str) -> (tree: TokenTree)
        ensures
            tree@ == TokenTreeView::Ident(name@),
    {
        TokenTree::Ident(String::from_str(name))
    }

    /// The punctuation character `ch`, standing alone.
    pub fn punct(ch: char) -> (tree: TokenTree)
        ensures
            tree@ == TokenTreeView::punct(ch),
    {
        TokenTree::Punct(ch, Spacing::Alone)
    }

    /// The punctuation character `ch`, glued to the next one.
    pub fn joint(ch: char) -> (tree: TokenTree)
        ensures
            tree@ == TokenTreeView::joint(ch),
    {
        TokenTree::Punct(ch, Spacing::Joint)
    }

    /// A string literal that denotes `value`.
    pub fn string(value: &str) -> (tree: TokenTree)
        ensures
            tree@ == TokenTreeView::string(value@),
    {
        TokenTree::Literal(Literal::Str(String::from_str(value)))
    }

    /// The `usize` literal `n`.
    pub fn usize_suffixed(n: usize) -> (tree: TokenTree)
        ensures
            tree@ == TokenTreeView::usize_suffixed(n),
    {
        TokenTree::Literal(Literal::Usize(n))
    }

    /// A literal with the source text `text`.
    pub fn verbatim(text: &str) -> (tree: TokenTree)
        ensures
            tree@ == TokenTreeView::verbatim(text@),
    {
        TokenTree::Literal(Literal::Verbatim(String::from_str(text)))
    }

    /// The group `()`.
    pub fn unit() -> (tree: TokenTree)
        ensures
            tree@ == TokenTreeView::parenthesized(Seq::empty()),
    {
        let stream: Vec<TokenTree> = Vec::new();
        assert(stream.deep_view() =~= Seq::empty());
        TokenTree::group(Delimiter::Parenthesis, stream)
    }

    /// The group of `stream` between the brackets `delimiter`.
    pub fn group(delimiter: Delimiter, stream: Vec<TokenTree>) -> (tree: TokenTree)
        ensures
            tree@ == TokenTreeView::Group(delimiter, stream.deep_view()),
    {
        proof {
            lemma_group_view(delimiter, stream);
        }
        TokenTree::Group(delimiter, stream)
    }
}

/// Puts the path separator `::` at the end of `stream`.
pub fn push_path_separator(stream: &mut Vec<TokenTree>)
    ensures
        final(stream).deep_view() == old(stream).deep_view() + path_separator(),
{
    push_tree(stream, TokenTree::joint(':'));
    push_tree(stream, TokenTree::punct(':'));
    assert(stream.deep_view() =~= old(stream).deep_view() + path_separator());
}

/// Puts the outer attribute `#[content]` at the end of `stream`.
pub fn push_outer_attribute(stream: &mut Vec<TokenTree>, content: Vec<TokenTree>)
    ensures
        final(stream).deep_view() == old(stream).deep_view() + outer_attribute(
            content.deep_view(),
        ),
{
    let ghost inner = content.deep_view();
    push_tree(stream, TokenTree::punct('#'));
    push_tree(stream, TokenTree::group(Delimiter::Bracket, content));
    assert(stream.deep_view() =~= old(stream).deep_view() + outer_attribute(inner));
}

} // verus!
