//! Rendering of one conversion-trait implementation block for one enum
//! variant.

use vstd::prelude::*;
use vstd::string::StringExecFns;
use crate::bindings::{spec_from_trait, spec_into_trait, Bindings};
use crate::generics::{
    spec_has_ty_param_named, spec_impl_generics, spec_ty_generics, spec_where_clause, Generics,
    GenericsView, TyParam, TyParamView,
};

verus! {

/// A view of data which can generate a `From<T> for Target` impl block.
#[derive(Debug, Clone)]
pub struct FromImpl {
    /// The set of library bindings to generate against (core or std).
    pub bindings: Bindings,
    /// The generics of the target enum.
    pub generics: Generics,
    /// The identifier of the target enum.
    pub target_ident: String,
    /// The identifier of the target variant.
    pub variant_ident: String,
    /// The type of the target variant's single field.
    pub variant_ty: String,
    /// Whether or not this impl should use an `Into` conversion.
    pub into: bool,
}

/// The mathematical value of a [`FromImpl`].
pub ghost struct FromImplView {
    pub bindings: Bindings,
    pub generics: GenericsView,
    pub target_ident: Seq<char>,
    pub variant_ident: Seq<char>,
    pub variant_ty: Seq<char>,
    pub into: bool,
}

impl View for FromImpl {
    type V = FromImplView;

    open spec fn view(&self) -> FromImplView {
        FromImplView {
            bindings: self.bindings,
            generics: self.generics@,
            target_ident: self.target_ident@,
            variant_ident: self.variant_ident@,
            variant_ty: self.variant_ty@,
            into: self.into,
        }
    }
}

/// The auxiliary type parameter injected in auxiliary-generic mode: named
/// `INTO`, with the single bound "convertible into the variant's field
/// type", and no default.
pub open spec fn spec_into_param(b: Bindings, variant_ty: Seq<char>) -> TyParamView {
    TyParamView {
        ident: "INTO"@,
        bounds: seq![spec_into_trait(b) + "<"@ + variant_ty + ">"@],
        default_ty: Option::None,
    }
}

/// The generics attached to the `impl` keyword: the enclosing type's own
/// generics, extended by the auxiliary parameter in auxiliary-generic mode.
pub open spec fn spec_header_generics(v: FromImplView) -> GenericsView {
    if v.into {
        GenericsView {
            lifetimes: v.generics.lifetimes,
            ty_params: v.generics.ty_params.push(spec_into_param(v.bindings, v.variant_ty)),
            where_predicates: v.generics.where_predicates,
        }
    } else {
        v.generics
    }
}

/// The type the conversion accepts: the auxiliary parameter in
/// auxiliary-generic mode, the variant's field type in direct mode.
pub open spec fn spec_conversion_ty(v: FromImplView) -> Seq<char> {
    if v.into {
        "INTO"@
    } else {
        v.variant_ty
    }
}

/// The text of the documentation string attached to the rendered block.
pub open spec fn spec_doc_text(variant_ident: Seq<char>) -> Seq<char> {
    "Convert into a `"@ + variant_ident + "` variant."@
}

/// The documentation attribute attached to the rendered block.
pub open spec fn spec_doc_attr(variant_ident: Seq<char>) -> Seq<char> {
    "#[doc = \""@ + spec_doc_text(variant_ident) + "\"]"@
}

/// The implementation block itself (everything after the documentation
/// attribute): the `impl` header with its generics, the conversion trait
/// applied to the accepted type, the implemented-for type with the
/// enclosing type's own generic arguments and where-clause, and a `from`
/// function that wraps the (possibly converted) value into the variant.
pub open spec fn spec_impl_block(v: FromImplView) -> Seq<char> {
    " impl"@ + spec_impl_generics(spec_header_generics(v)) + " "@ + spec_from_trait(v.bindings)
        + "<"@ + spec_conversion_ty(v) + "> for "@ + v.target_ident + spec_ty_generics(v.generics)
        + spec_where_clause(v.generics) + " { fn from(v: "@ + spec_conversion_ty(v)
        + ") -> Self { "@ + v.target_ident + "::"@ + v.variant_ident + (if v.into {
        "(v.into()) } }"@
    } else {
        "(v) } }"@
    })
}

/// The full rendered output: the documentation attribute followed by the
/// implementation block.
pub open spec fn spec_rendered(v: FromImplView) -> Seq<char> {
    spec_doc_attr(v.variant_ident) + spec_impl_block(v)
}

/// Builds the auxiliary type parameter: named `INTO`, bounded by the given
/// convertible-into trait path instantiated with the variant's field type.
pub fn generate_into_ty_param(into_path: String, variant_ty: &String) -> (r: TyParam)
    ensures
        r@.ident == "INTO"@,
        r@.bounds == seq![into_path@ + "<"@ + variant_ty@ + ">"@],
        r@.default_ty is None,
{
    let mut bound = into_path;
    bound.append("<");
    bound.append(variant_ty.as_str());
    bound.append(">");
    let mut bounds: Vec<String> = Vec::new();
    bounds.push(bound);
    let r = TyParam { ident: "INTO".to_owned(), bounds, default_ty: Option::None };
    proof {
        assert(r@.bounds =~= seq![into_path@ + "<"@ + variant_ty@ + ">"@]);
    }
    r
}

/// Renders the documentation attribute for the given variant identifier.
fn doc_attr(variant_ident: &String) -> (r: String)
    ensures
        r@ == spec_doc_attr(variant_ident@),
{
    let mut r = "#[doc = \"".to_owned();
    r.append("Convert into a `");
    r.append(variant_ident.as_str());
    r.append("` variant.");
    r.append("\"]");
    proof {
        assert(r@ =~= spec_doc_attr(variant_ident@));
    }
    r
}

impl FromImpl {
    /// Renders the implementation block that follows the documentation
    /// attribute.
    fn render_impl_block(&self) -> (r: String)
        ensures
            r@ == spec_impl_block(self@),
    {
        let from_trait = self.bindings.from_trait();
        let conversion_ty: String = if self.into {
            "INTO".to_owned()
        } else {
            self.variant_ty.clone()
        };
        let (impl_generics, ty_generics, where_clause) = self.generics.split_for_impl();
        let impl_generics: String = if self.into {
            let mut altered = self.generics.duplicate();
            altered.ty_params.push(
                generate_into_ty_param(self.bindings.into_trait(), &self.variant_ty),
            );
            proof {
                assert(altered@.ty_params =~= spec_header_generics(self@).ty_params);
                assert(altered@ == spec_header_generics(self@));
            }
            let (header, _, _) = altered.split_for_impl();
            header
        } else {
            impl_generics
        };
        let mut r = " impl".to_owned();
        r.append(impl_generics.as_str());
        r.append(" ");
        r.append(from_trait.as_str());
        r.append("<");
        r.append(conversion_ty.as_str());
        r.append("> for ");
        r.append(self.target_ident.as_str());
        r.append(ty_generics.as_str());
        r.append(where_clause.as_str());
        r.append(" { fn from(v: ");
        r.append(conversion_ty.as_str());
        r.append(") -> Self { ");
        r.append(self.target_ident.as_str());
        r.append("::");
        r.append(self.variant_ident.as_str());
        if self.into {
            r.append("(v.into()) } }");
        } else {
            r.append("(v) } }");
        }
        r
    }

    /// Whether rendering would inject the auxiliary parameter under a name
    /// that one of the enclosing type's own type parameters already uses.
    /// Rendering does not guard against this itself: a caller that cannot
    /// rule the collision out should consult this first and refuse to
    /// render, since the emitted block would shadow the existing parameter.
    pub fn into_param_collides(&self) -> (r: bool)
        ensures
            r == (self@.into && spec_has_ty_param_named(self@.generics, "INTO"@)),
    {
        self.into && self.generics.has_ty_param_named(&"INTO".to_owned())
    }

    /// Renders the complete output for this description: the documentation
    /// attribute followed by one self-contained implementation block.
    pub fn render(&self) -> (r: String)
        ensures
            r@ == spec_rendered(self@),
    {
        let mut r = doc_attr(&self.variant_ident);
        let block = self.render_impl_block();
        r.append(block.as_str());
        r
    }

    /// Appends the complete rendered output for this description to
    /// `tokens`.
    pub fn to_tokens(&self, tokens: &mut String)
        ensures
            final(tokens)@ == old(tokens)@ + spec_rendered(self@),
    {
        let r = self.render();
        tokens.append(r.as_str());
    }
}

/// In direct mode the rendered block is built from the enclosing type's own
/// generics alone: the `impl` header carries exactly that parameter list,
/// the `for` clause carries exactly that argument list, and the conversion
/// accepts exactly the variant's field type: no auxiliary parameter is
/// involved anywhere.
pub proof fn lemma_direct_mode(v: FromImplView)
    requires
        !v.into,
    ensures
        spec_header_generics(v) == v.generics,
        spec_conversion_ty(v) == v.variant_ty,
        spec_rendered(v) == spec_doc_attr(v.variant_ident) + (" impl"@ + spec_impl_generics(
            v.generics,
        ) + " "@ + spec_from_trait(v.bindings) + "<"@ + v.variant_ty + "> for "@ + v.target_ident
            + spec_ty_generics(v.generics) + spec_where_clause(v.generics) + " { fn from(v: "@
            + v.variant_ty + ") -> Self { "@ + v.target_ident + "::"@ + v.variant_ident
            + "(v) } }"@),
{
}

/// In auxiliary-generic mode the `impl` header's generics are the enclosing
/// type's own generics plus exactly one trailing type parameter, named
/// `INTO` and bounded by the convertible-into trait instantiated with the
/// variant's field type, while the `for` clause still carries the
/// enclosing type's own, unaugmented argument list and where-clause, with the
/// auxiliary parameter excluded.
pub proof fn lemma_auxiliary_mode(v: FromImplView)
    requires
        v.into,
    ensures
        spec_header_generics(v).lifetimes == v.generics.lifetimes,
        spec_header_generics(v).where_predicates == v.generics.where_predicates,
        spec_header_generics(v).ty_params == v.generics.ty_params.push(
            spec_into_param(v.bindings, v.variant_ty),
        ),
        spec_header_generics(v).ty_params.len() == v.generics.ty_params.len() + 1,
        forall|j: int|
            0 <= j < v.generics.ty_params.len() ==> #[trigger] spec_header_generics(v).ty_params[j]
                == v.generics.ty_params[j],
        spec_header_generics(v).ty_params.last() == spec_into_param(v.bindings, v.variant_ty),
        spec_into_param(v.bindings, v.variant_ty).ident == "INTO"@,
        spec_into_param(v.bindings, v.variant_ty).bounds == seq![
            spec_into_trait(v.bindings) + "<"@ + v.variant_ty + ">"@,
        ],
        spec_rendered(v) == spec_doc_attr(v.variant_ident) + (" impl"@ + spec_impl_generics(
            spec_header_generics(v),
        ) + " "@ + spec_from_trait(v.bindings) + "<"@ + "INTO"@ + "> for "@ + v.target_ident
            + spec_ty_generics(v.generics) + spec_where_clause(v.generics) + " { fn from(v: "@
            + "INTO"@ + ") -> Self { "@ + v.target_ident + "::"@ + v.variant_ident
            + "(v.into()) } }"@),
{
}

/// Rendering is a pure function of the description's fields: two
/// descriptions that are equal field for field render to textually
/// identical token sequences, so rendering the same description twice
/// yields the same text both times.
pub proof fn lemma_render_deterministic(a: FromImplView, b: FromImplView)
    requires
        a == b,
    ensures
        spec_rendered(a) == spec_rendered(b),
{
}

/// For a variant named `Bar` the rendered block's attached documentation
/// string is exactly "Convert into a `Bar` variant.", in every mode and
/// under every binding choice.
pub proof fn lemma_doc_text_for_bar(v: FromImplView)
    requires
        v.variant_ident == "Bar"@,
    ensures
        spec_doc_text(v.variant_ident) == "Convert into a `Bar` variant."@,
        spec_rendered(v) == "#[doc = \"Convert into a `Bar` variant.\"]"@ + spec_impl_block(v),
{
    reveal_strlit("Bar");
    reveal_strlit("#[doc = \"");
    reveal_strlit("\"]");
    reveal_strlit("Convert into a `");
    reveal_strlit("` variant.");
    reveal_strlit("Convert into a `Bar` variant.");
    reveal_strlit("#[doc = \"Convert into a `Bar` variant.\"]");
    assert(spec_doc_text(v.variant_ident) =~= "Convert into a `Bar` variant."@);
    assert(spec_doc_attr(v.variant_ident) =~= "#[doc = \"Convert into a `Bar` variant.\"]"@);
}

} // verus!
