//! The annotated function, as far as the expansions read it.
//!
//! Everything the expansions only carry along (the visibility, the body, the
//! generics) is a run of token trees. What they inspect is spelled out: the
//! attributes with their paths, the function's name, and for each parameter
//! its pattern and its type. Nothing is held twice, so the tokens that an
//! expansion emits for a parameter always speak of the same name and type.
//! The punctuation of the parameter list is carried along too: a function
//! spelled out again differs from the one that was read in nothing but what
//! an expansion changes on purpose.

use crate::token::{
    append_stream, clone_stream, extend_stream, path_separator, push_path_separator, push_tree,
    Delimiter, TokenTree, TokenTreeView,
};
use vstd::prelude::*;

verus! {

/// Where an attribute stands.
#[derive(Clone, Copy, Debug, PartialEq, Eq, Hash, Structural)]
pub enum AttrStyle {
    /// `#[..]` in front of the function.
    Outer,
    /// `#![..]` at the head of the function's body.
    Inner,
}

/// An attribute `#[path tokens]` on the function.
#[derive(Debug, PartialEq, Eq, Hash)]
pub struct Attribute {
    pub style: AttrStyle,
    /// Whether the path starts with `::`.
    pub leading_colon: bool,
    /// The segments of the attribute's path, in order.
    pub path: Vec<String>,
    /// Whatever follows the path inside the brackets.
    pub tokens: Vec<TokenTree>,
}

/// A pattern that binds a single identifier: `ref mut ident @ subpattern`.
#[derive(Clone, Debug, PartialEq, Eq, Hash)]
pub struct PatIdent {
    pub by_ref: bool,
    pub mutable: bool,
    pub ident: String,
    /// What follows `@`; empty where there is no `@`.
    pub subpattern: Vec<TokenTree>,
}

/// The pattern of a parameter.
#[derive(Clone, Debug, PartialEq, Eq, Hash)]
pub enum Pat {
    Ident(PatIdent),
    /// Any other pattern, as written.
    Other(Vec<TokenTree>),
}

/// A parameter `attrs pat: ty`.
#[derive(Clone, Debug, PartialEq, Eq, Hash)]
pub struct PatType {
    /// The attributes on the parameter, as written.
    pub attrs: Vec<TokenTree>,
    pub pat: Pat,
    /// The parameter's type.
    pub ty: Vec<TokenTree>,
}

/// One parameter of the function.
#[derive(Clone, Debug, PartialEq, Eq, Hash)]
pub enum FnArg {
    /// `self` in any form, as written.
    Receiver(Vec<TokenTree>),
    Typed(PatType),
}

/// The signature of the function.
#[derive(Clone, Debug, PartialEq, Eq, Hash)]
pub struct Signature {
    /// What stands before the name: `const`, `async`, `unsafe`, an ABI, and
    /// `fn`.
    pub prefix: Vec<TokenTree>,
    /// The function's name.
    pub ident: String,
    /// The generic parameters with their angle brackets, if any.
    pub generics: Vec<TokenTree>,
    /// The parameters, in declaration order.
    pub inputs: Vec<FnArg>,
    /// What stands between the last parameter and the closing parenthesis, as
    /// written: nothing, a comma, or a variadic `...` with the comma before
    /// it.
    pub trailing: Vec<TokenTree>,
    /// What stands after the parameter list: the return type and the `where`
    /// clause.
    pub output: Vec<TokenTree>,
}

/// A free-standing function.
#[derive(Clone, Debug, PartialEq, Eq, Hash)]
pub struct ItemFn {
    pub attrs: Vec<Attribute>,
    /// The visibility, empty for a private function.
    pub vis: Vec<TokenTree>,
    pub sig: Signature,
    /// The statements between the braces of the body.
    pub block: Vec<TokenTree>,
}

/// The model of an [`Attribute`].
pub struct AttributeView {
    pub style: AttrStyle,
    pub leading_colon: bool,
    pub path: Seq<Seq<char>>,
    pub tokens: Seq<TokenTreeView>,
}

/// The model of a [`PatIdent`].
pub struct PatIdentView {
    pub by_ref: bool,
    pub mutable: bool,
    pub ident: Seq<char>,
    pub subpattern: Seq<TokenTreeView>,
}

/// The model of a [`Pat`].
pub enum PatView {
    Ident(PatIdentView),
    Other(Seq<TokenTreeView>),
}

/// The model of a [`PatType`].
pub struct PatTypeView {
    pub attrs: Seq<TokenTreeView>,
    pub pat: PatView,
    pub ty: Seq<TokenTreeView>,
}

/// The model of a [`FnArg`].
pub enum FnArgView {
    Receiver(Seq<TokenTreeView>),
    Typed(PatTypeView),
}

/// The model of a [`Signature`].
pub struct SignatureView {
    pub prefix: Seq<TokenTreeView>,
    pub ident: Seq<char>,
    pub generics: Seq<TokenTreeView>,
    pub inputs: Seq<FnArgView>,
    pub trailing: Seq<TokenTreeView>,
    pub output: Seq<TokenTreeView>,
}

/// The model of an [`ItemFn`].
pub struct ItemFnView {
    pub attrs: Seq<AttributeView>,
    pub vis: Seq<TokenTreeView>,
    pub sig: SignatureView,
    pub block: Seq<TokenTreeView>,
}

impl View for Attribute {
    type V = AttributeView;

    open spec fn view(&self) -> AttributeView {
        AttributeView {
            style: self.style,
            leading_colon: self.leading_colon,
            path: self.path.deep_view(),
            tokens: self.tokens.deep_view(),
        }
    }
}

impl DeepView for Attribute {
    type V = AttributeView;

    open spec fn deep_view(&self) -> AttributeView {
        self@
    }
}

impl View for PatIdent {
    type V = PatIdentView;

    open spec fn view(&self) -> PatIdentView {
        PatIdentView {
            by_ref: self.by_ref,
            mutable: self.mutable,
            ident: self.ident@,
            subpattern: self.subpattern.deep_view(),
        }
    }
}

impl View for Pat {
    type V = PatView;

    open spec fn view(&self) -> PatView {
        match self {
            Pat::Ident(pat) => PatView::Ident(pat@),
            Pat::Other(tokens) => PatView::Other(tokens.deep_view()),
        }
    }
}

impl View for PatType {
    type V = PatTypeView;

    open spec fn view(&self) -> PatTypeView {
        PatTypeView { attrs: self.attrs.deep_view(), pat: self.pat@, ty: self.ty.deep_view() }
    }
}

impl View for FnArg {
    type V = FnArgView;

    open spec fn view(&self) -> FnArgView {
        match self {
            FnArg::Receiver(tokens) => FnArgView::Receiver(tokens.deep_view()),
            FnArg::Typed(typed) => FnArgView::Typed(typed@),
        }
    }
}

impl DeepView for FnArg {
    type V = FnArgView;

    open spec fn deep_view(&self) -> FnArgView {
        self@
    }
}

impl View for Signature {
    type V = SignatureView;

    open spec fn view(&self) -> SignatureView {
        SignatureView {
            prefix: self.prefix.deep_view(),
            ident: self.ident@,
            generics: self.generics.deep_view(),
            inputs: self.inputs.deep_view(),
            trailing: self.trailing.deep_view(),
            output: self.output.deep_view(),
        }
    }
}

impl DeepView for Signature {
    type V = SignatureView;

    open spec fn deep_view(&self) -> SignatureView {
        self@
    }
}

impl View for ItemFn {
    type V = ItemFnView;

    open spec fn view(&self) -> ItemFnView {
        ItemFnView {
            attrs: self.attrs.deep_view(),
            vis: self.vis.deep_view(),
            sig: self.sig@,
            block: self.block.deep_view(),
        }
    }
}

impl DeepView for ItemFn {
    type V = ItemFnView;

    open spec fn deep_view(&self) -> ItemFnView {
        self@
    }
}

/// The segments of a path, `::` between them.
pub open spec fn segments_tokens(path: Seq<Seq<char>>) -> Seq<TokenTreeView>
    decreases path.len(),
{
    if path.len() == 0 {
        Seq::empty()
    } else if path.len() == 1 {
        seq![TokenTreeView::Ident(path[0])]
    } else {
        segments_tokens(path.drop_last()) + path_separator() + seq![
            TokenTreeView::Ident(path.last()),
        ]
    }
}

impl AttributeView {
    /// The path of the attribute, as tokens.
    pub open spec fn path_tokens(self) -> Seq<TokenTreeView> {
        if self.leading_colon {
            path_separator() + segments_tokens(self.path)
        } else {
            segments_tokens(self.path)
        }
    }

    /// What stands between the brackets of the attribute.
    pub open spec fn content(self) -> Seq<TokenTreeView> {
        self.path_tokens() + self.tokens
    }

    /// The attribute spelled out: `#[path tokens]`, or `#![path tokens]` for
    /// an inner one.
    pub open spec fn spelled(self) -> Seq<TokenTreeView> {
        match self.style {
            AttrStyle::Outer => seq![
                TokenTreeView::punct('#'),
                TokenTreeView::bracketed(self.content()),
            ],
            AttrStyle::Inner => seq![
                TokenTreeView::punct('#'),
                TokenTreeView::punct('!'),
                TokenTreeView::bracketed(self.content()),
            ],
        }
    }
}

/// The attributes of `attrs` that stand at `style`, spelled out one after the
/// other in their order.
pub open spec fn spelled_attributes(attrs: Seq<AttributeView>, style: AttrStyle) -> Seq<
    TokenTreeView,
> {
    attrs.filter(|attr: AttributeView| attr.style == style).flat_map(
        |attr: AttributeView| attr.spelled(),
    )
}

impl PatIdentView {
    /// The pattern as tokens: `ref mut ident @ subpattern`, each part only
    /// where it is there.
    pub open spec fn tokens(self) -> Seq<TokenTreeView> {
        (if self.by_ref {
            seq![TokenTreeView::Ident("ref"@)]
        } else {
            Seq::empty()
        }) + (if self.mutable {
            seq![TokenTreeView::Ident("mut"@)]
        } else {
            Seq::empty()
        }) + seq![TokenTreeView::Ident(self.ident)] + (if self.subpattern.len() > 0 {
            seq![TokenTreeView::punct('@')] + self.subpattern
        } else {
            Seq::empty()
        })
    }
}

impl PatView {
    /// The pattern as tokens.
    pub open spec fn tokens(self) -> Seq<TokenTreeView> {
        match self {
            PatView::Ident(pat) => pat.tokens(),
            PatView::Other(tokens) => tokens,
        }
    }
}

impl FnArgView {
    /// The parameter is `self`.
    pub open spec fn is_receiver(self) -> bool {
        self is Receiver
    }

    /// The parameter is bound to a single identifier.
    pub open spec fn is_named(self) -> bool {
        self matches FnArgView::Typed(typed) && typed.pat is Ident
    }

    /// The identifier that a named parameter is bound to.
    pub open spec fn name(self) -> Seq<char>
        recommends
            self.is_named(),
    {
        self->Typed_0.pat->Ident_0.ident
    }

    /// The type of a parameter that has one.
    pub open spec fn ty(self) -> Seq<TokenTreeView>
        recommends
            self is Typed,
    {
        self->Typed_0.ty
    }

    /// The parameter as tokens: `self` as written, any other as
    /// `attrs pat : ty`.
    pub open spec fn tokens(self) -> Seq<TokenTreeView> {
        match self {
            FnArgView::Receiver(tokens) => tokens,
            FnArgView::Typed(typed) => typed.attrs + typed.pat.tokens() + seq![
                TokenTreeView::punct(':'),
            ] + typed.ty,
        }
    }

    /// The parameter as it stands in a parameter list before another
    /// parameter: its tokens and a comma.
    pub open spec fn listed(self) -> Seq<TokenTreeView> {
        self.tokens().push(TokenTreeView::punct(','))
    }
}

/// Every parameter of `inputs` is bound to a single identifier.
pub open spec fn all_named(inputs: Seq<FnArgView>) -> bool {
    forall|i: int| 0 <= i < inputs.len() ==> (#[trigger] inputs[i]).is_named()
}

/// The parameters in declaration order, a comma between each two and none
/// after the last.
pub open spec fn separated(inputs: Seq<FnArgView>) -> Seq<TokenTreeView> {
    if inputs.len() == 0 {
        Seq::empty()
    } else {
        inputs.drop_last().flat_map(|arg: FnArgView| arg.listed()) + inputs.last().tokens()
    }
}

impl SignatureView {
    /// The tokens between the parentheses of the parameter list: the
    /// parameters, a comma between each two, and after the last what stood
    /// there.
    pub open spec fn parameter_list(self) -> Seq<TokenTreeView> {
        separated(self.inputs) + self.trailing
    }

    /// The signature under the name `ident`, as tokens:
    /// `prefix ident generics (parameter list) output`.
    pub open spec fn tokens_as(self, ident: Seq<char>) -> Seq<TokenTreeView> {
        self.prefix + seq![TokenTreeView::Ident(ident)] + self.generics + seq![
            TokenTreeView::parenthesized(self.parameter_list()),
        ] + self.output
    }
}

impl ItemFnView {
    /// The function as tokens: its outer attributes, its visibility, its
    /// signature, and between braces its inner attributes and its statements.
    pub open spec fn tokens(self) -> Seq<TokenTreeView> {
        spelled_attributes(self.attrs, AttrStyle::Outer) + self.vis + self.sig.tokens_as(
            self.sig.ident,
        ) + seq![
            TokenTreeView::braced(spelled_attributes(self.attrs, AttrStyle::Inner) + self.block),
        ]
    }
}

impl Clone for Attribute {
    fn clone(&self) -> (copy: Self)
        ensures
            copy@ == self@,
    {
        let path = self.path.clone();
        assert(path.deep_view() =~= self.path.deep_view());
        Attribute {
            style: self.style,
            leading_colon: self.leading_colon,
            path,
            tokens: clone_stream(&self.tokens),
        }
    }
}

/// A copy of `attrs`, every level of it.
pub fn clone_attributes(attrs: &Vec<Attribute>) -> (copy: Vec<Attribute>)
    ensures
        copy.deep_view() == attrs.deep_view(),
{
    let mut copy: Vec<Attribute> = Vec::new();
    let mut i: usize = 0;
    while i < attrs.len()
        invariant
            i <= attrs.len(),
            copy.deep_view() == attrs.deep_view().take(i as int),
        decreases attrs.len() - i,
    {
        let attr = attrs[i].clone();
        assert(attr@ == attrs.deep_view()[i as int]);
        let ghost before = copy.deep_view();
        copy.push(attr);
        assert(copy.deep_view() =~= before.push(attr@));
        assert(copy.deep_view() =~= attrs.deep_view().take(i + 1));
        i += 1;
    }
    assert(attrs.deep_view().take(attrs.len() as int) =~= attrs.deep_view());
    copy
}

impl Attribute {
    /// The attribute spelled out as tokens.
    pub fn to_tokens(&self) -> (stream: Vec<TokenTree>)
        ensures
            stream.deep_view() == self@.spelled(),
    {
        let mut content: Vec<TokenTree> = Vec::new();
        if self.leading_colon {
            push_path_separator(&mut content);
        }
        let ghost lead = content.deep_view();
        let mut i: usize = 0;
        assert(content.deep_view() =~= lead + segments_tokens(self@.path.take(0)));
        while i < self.path.len()
            invariant
                i <= self.path.len(),
                content.deep_view() == lead + segments_tokens(self@.path.take(i as int)),
            decreases self.path.len() - i,
        {
            let ghost so_far = self@.path.take(i as int);
            let ghost next = self@.path.take(i + 1);
            assert(next.drop_last() =~= so_far);
            assert(next.last() == self.path@[i as int]@);
            if i > 0 {
                push_path_separator(&mut content);
            }
            push_tree(&mut content, TokenTree::Ident(self.path[i].clone()));
            assert(content.deep_view() =~= lead + segments_tokens(next));
            i += 1;
        }
        assert(self@.path.take(self.path.len() as int) =~= self@.path);
        assert(content.deep_view() =~= self@.path_tokens());
        extend_stream(&mut content, &self.tokens);

        let mut stream: Vec<TokenTree> = Vec::new();
        push_tree(&mut stream, TokenTree::punct('#'));
        match self.style {
            AttrStyle::Outer => {},
            AttrStyle::Inner => {
                push_tree(&mut stream, TokenTree::punct('!'));
            },
        }
        push_tree(&mut stream, TokenTree::group(Delimiter::Bracket, content));
        assert(stream.deep_view() =~= self@.spelled());
        stream
    }
}

/// The attributes of `attrs` that stand at `style`, spelled out one after the
/// other in their order.
pub fn spell_attributes(attrs: &Vec<Attribute>, style: AttrStyle) -> (stream: Vec<TokenTree>)
    ensures
        stream.deep_view() == spelled_attributes(attrs.deep_view(), style),
{
    let ghost at_style = |attr: AttributeView| attr.style == style;
    let ghost spell = |attr: AttributeView| attr.spelled();
    let mut stream: Vec<TokenTree> = Vec::new();
    let mut i: usize = 0;
    proof {
        reveal(Seq::filter);
        assert(attrs.deep_view().take(0).filter(at_style).map_values(spell) =~= Seq::empty());
    }
    while i < attrs.len()
        invariant
            i <= attrs.len(),
            at_style == |attr: AttributeView| attr.style == style,
            spell == |attr: AttributeView| attr.spelled(),
            stream.deep_view() == attrs.deep_view().take(i as int).filter(at_style).flat_map(
                spell,
            ),
        decreases attrs.len() - i,
    {
        let ghost seen = attrs.deep_view().take(i as int);
        let ghost attr = attrs.deep_view()[i as int];
        assert(attr == attrs@[i as int]@);
        proof {
            assert(attrs.deep_view().take(i + 1) =~= seen.push(attr));
            seen.lemma_filter_push(attr, at_style);
            seen.filter(at_style).lemma_flat_map_push(spell, attr);
        }
        let here = match (attrs[i].style, style) {
            (AttrStyle::Outer, AttrStyle::Outer) => true,
            (AttrStyle::Inner, AttrStyle::Inner) => true,
            _ => false,
        };
        if here {
            let spelled = attrs[i].to_tokens();
            append_stream(&mut stream, spelled);
        }
        i += 1;
    }
    assert(attrs.deep_view().take(attrs.len() as int) =~= attrs.deep_view());
    stream
}

impl PatIdent {
    /// The pattern as tokens.
    pub fn to_tokens(&self) -> (stream: Vec<TokenTree>)
        ensures
            stream.deep_view() == self@.tokens(),
    {
        let mut stream: Vec<TokenTree> = Vec::new();
        if self.by_ref {
            push_tree(&mut stream, TokenTree::ident("ref"));
        }
        if self.mutable {
            push_tree(&mut stream, TokenTree::ident("mut"));
        }
        push_tree(&mut stream, TokenTree::Ident(self.ident.clone()));
        if self.subpattern.len() > 0 {
            push_tree(&mut stream, TokenTree::punct('@'));
            extend_stream(&mut stream, &self.subpattern);
        }
        assert(stream.deep_view() =~= self@.tokens());
        stream
    }
}

impl FnArg {
    /// Whether the parameter is `self`.
    pub fn is_receiver(&self) -> (b: bool)
        ensures
            b == self@.is_receiver(),
    {
        match self {
            FnArg::Receiver(_) => true,
            _ => false,
        }
    }

    /// Whether the parameter is bound to a single identifier.
    pub fn is_named(&self) -> (b: bool)
        ensures
            b == self@.is_named(),
    {
        match self {
            FnArg::Typed(typed) => match &typed.pat {
                Pat::Ident(_) => true,
                _ => false,
            },
            _ => false,
        }
    }

    /// The parameter as tokens.
    pub fn to_tokens(&self) -> (stream: Vec<TokenTree>)
        ensures
            stream.deep_view() == self@.tokens(),
    {
        match self {
            FnArg::Receiver(tokens) => clone_stream(tokens),
            FnArg::Typed(typed) => {
                let mut stream = clone_stream(&typed.attrs);
                match &typed.pat {
                    Pat::Ident(pat) => {
                        let pattern = pat.to_tokens();
                        append_stream(&mut stream, pattern);
                    },
                    Pat::Other(tokens) => {
                        extend_stream(&mut stream, tokens);
                    },
                }
                push_tree(&mut stream, TokenTree::punct(':'));
                extend_stream(&mut stream, &typed.ty);
                assert(stream.deep_view() =~= self@.tokens());
                stream
            },
        }
    }
}

/// Whether every parameter of `inputs` is bound to a single identifier.
pub fn check_all_named(inputs: &Vec<FnArg>) -> (b: bool)
    ensures
        b == all_named(inputs.deep_view()),
{
    let mut i: usize = 0;
    while i < inputs.len()
        invariant
            i <= inputs.len(),
            forall|j: int| 0 <= j < i ==> (#[trigger] inputs.deep_view()[j]).is_named(),
        decreases inputs.len() - i,
    {
        if !inputs[i].is_named() {
            assert(!inputs.deep_view()[i as int].is_named());
            return false;
        }
        i += 1;
    }
    true
}

/// The parameters of `inputs` as tokens, a comma between each two and none
/// after the last.
pub fn separated_tokens(inputs: &Vec<FnArg>) -> (list: Vec<TokenTree>)
    ensures
        list.deep_view() == separated(inputs.deep_view()),
{
    let mut list: Vec<TokenTree> = Vec::new();
    if inputs.len() == 0 {
        assert(list.deep_view() =~= separated(inputs.deep_view()));
        return list;
    }
    let last = inputs.len() - 1;
    let ghost listed = |arg: FnArgView| arg.listed();
    let mut i: usize = 0;
    assert(inputs.deep_view().take(0).map_values(listed) =~= Seq::empty());
    while i < last
        invariant
            i <= last,
            last == inputs.len() - 1,
            listed == |arg: FnArgView| arg.listed(),
            list.deep_view() == inputs.deep_view().take(i as int).flat_map(listed),
        decreases last - i,
    {
        let ghost before = list.deep_view();
        let tokens = inputs[i].to_tokens();
        append_stream(&mut list, tokens);
        push_tree(&mut list, TokenTree::punct(','));
        proof {
            inputs.deep_view().lemma_flat_map_take_append(listed, i as int);
            assert(list.deep_view() =~= before + inputs.deep_view()[i as int].listed());
        }
        i += 1;
    }
    assert(inputs.deep_view().take(last as int) =~= inputs.deep_view().drop_last());
    assert(inputs.deep_view().last() == inputs[last as int]@);
    let tokens = inputs[last].to_tokens();
    append_stream(&mut list, tokens);
    list
}

impl Signature {
    /// The signature as tokens, with `ident` in place of the function's name.
    pub fn to_tokens_as(&self, ident: &str) -> (stream: Vec<TokenTree>)
        ensures
            stream.deep_view() == self@.tokens_as(ident@),
    {
        let mut stream = clone_stream(&self.prefix);
        push_tree(&mut stream, TokenTree::ident(ident));
        extend_stream(&mut stream, &self.generics);
        let mut list = separated_tokens(&self.inputs);
        extend_stream(&mut list, &self.trailing);
        push_tree(&mut stream, TokenTree::group(Delimiter::Parenthesis, list));
        extend_stream(&mut stream, &self.output);
        assert(stream.deep_view() =~= self@.tokens_as(ident@));
        stream
    }
}

} // verus!
