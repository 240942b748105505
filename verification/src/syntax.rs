//! What the module tree reads of Rust syntax.
//!
//! Source text is parsed by `syn`. Items, attributes and visibilities are
//! stored as `syn` made them and never looked into, with one exception: a
//! module declaration is taken apart into its name, its visibility and its
//! body.

use syn::Error as SyntaxError;
use vstd::prelude::*;

verus! {

/// `syn::Item`: one item of a module, held as `syn` parsed it.
#[verifier::external_type_specification]
#[verifier::external_body]
pub struct ExItem(syn::Item);

/// `syn::Attribute`: one attribute, held as `syn` parsed it.
#[verifier::external_type_specification]
#[verifier::external_body]
pub struct ExAttribute(syn::Attribute);

/// `syn::Visibility`: what is written before `mod`, if anything.
#[verifier::external_type_specification]
#[verifier::external_body]
pub struct ExVisibility(syn::Visibility);

/// `syn::Error`: why a text is no Rust source, and where.
#[verifier::external_type_specification]
#[verifier::external_body]
pub struct ExSyntaxError(SyntaxError);

/// A parsed source file: its items in textual order, and the inner
/// attributes at its head.
pub struct SourceFile {
    pub items: Vec<syn::Item>,
    pub attributes: Vec<syn::Attribute>,
}

/// A module declaration: `mod name;` or `mod name { .. }`.
pub struct ModuleDecl {
    /// The declared name.
    pub name: String,
    /// The visibility written before `mod`.
    pub visibility: syn::Visibility,
    /// The items between the braces; `None` for `mod name;`.
    pub body: Option<Vec<syn::Item>>,
}

/// The mathematical content of a [`ModuleDecl`].
pub struct ModuleDeclView {
    pub name: Seq<char>,
    pub visibility: syn::Visibility,
    pub body: Option<Seq<syn::Item>>,
}

impl View for ModuleDecl {
    type V = ModuleDeclView;

    open spec fn view(&self) -> ModuleDeclView {
        ModuleDeclView {
            name: self.name@,
            visibility: self.visibility,
            body: match self.body {
                Some(items) => Some(items@),
                None => None,
            },
        }
    }
}

/// What `syn::parse_file` makes of `text`: the items and the attributes of
/// the file, or `None` where `text` is not a Rust source file.
pub uninterp spec fn syntax_of(text: Seq<char>) -> Option<(Seq<syn::Item>, Seq<syn::Attribute>)>;

/// The module declaration that `item` is, or `None` for any other item.
pub uninterp spec fn declared_module(item: syn::Item) -> Option<ModuleDeclView>;

/// The amount of syntax nested in `item`. Only its order matters: a module
/// with a body outweighs its body.
pub uninterp spec fn item_weight(item: syn::Item) -> nat;

/// Whether `visibility` is a plain `pub`.
pub uninterp spec fn is_public(visibility: syn::Visibility) -> bool;

/// The weight of `items[from..]`, one more for each item.
pub open spec fn items_weight(items: Seq<syn::Item>, from: int) -> nat
    decreases items.len() - from,
{
    if from < 0 || from >= items.len() {
        0
    } else {
        1 + item_weight(items[from]) + items_weight(items, from + 1)
    }
}

/// Calls `syn::parse_file`. The items and attributes depend on the text
/// alone, up to the spans of their tokens, which nothing here reads. Of the
/// error nothing is claimed but that it comes exactly when the text does
/// not parse.
#[verifier::external_body]
pub(crate) fn parse_file(text: &str) -> (parsed: Result<SourceFile, SyntaxError>)
    ensures
        parsed matches Ok(file) ==> syntax_of(text@) == Some((file.items@, file.attributes@)),
        parsed is Err ==> syntax_of(text@) is None,
{
    match syn::parse_file(text) {
        Ok(file) => Ok(SourceFile { items: file.items, attributes: file.attrs }),
        Err(error) => Err(error),
    }
}

/// Tells `syn::Item::Mod` from the other variants and copies out the three
/// fields of the `syn::ItemMod` that the tree is built from: `ident` (as
/// text, by its `to_string`), `vis` and the items of `content`. The body,
/// being a part of the item, weighs less than the item.
#[verifier::external_body]
pub(crate) fn module_decl(item: &syn::Item) -> (decl: Option<ModuleDecl>)
    ensures
        decl matches Some(d) ==> declared_module(*item) == Some(d@),
        decl is None ==> declared_module(*item) is None,
        decl matches Some(d) ==> (d.body matches Some(body) ==> items_weight(body@, 0)
            < item_weight(*item)),
{
    match item {
        syn::Item::Mod(module) => Some(
            ModuleDecl {
                name: module.ident.to_string(),
                visibility: module.vis.clone(),
                body: match &module.content {
                    Some(content) => Some(content.1.clone()),
                    None => None,
                },
            },
        ),
        _ => None,
    }
}

/// Builds `syn::Visibility::Public` with a `pub` token of its own.
#[verifier::external_body]
pub(crate) fn public_visibility() -> (visibility: syn::Visibility)
    ensures
        is_public(visibility),
{
    syn::Visibility::Public(syn::VisPublic { pub_token: syn::token::Pub::default() })
}

} // verus!
