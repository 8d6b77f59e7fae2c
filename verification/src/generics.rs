//! The enclosing type's generic parameter list, and its split into the
//! three pieces an implementation block needs: the parameter list on the
//! `impl` keyword, the argument list on the implemented-for type, and the
//! where-clause.

use vstd::prelude::*;
use vstd::string::StringExecFns;
use crate::text::{bracketed_list, join_with, spec_bracketed, spec_join, views_of};

verus! {

/// One generic type parameter of the enclosing type: its identifier, its
/// trait bounds, and an optional default type. All pieces are pre-parsed
/// fragments held as plain text.
#[derive(Debug, Clone)]
pub struct TyParam {
    /// The parameter's identifier.
    pub ident: String,
    /// The parameter's trait bounds, one fragment per bound.
    pub bounds: Vec<String>,
    /// The parameter's default type, if it has one. A default appears only
    /// in the type's own declaration, never in an implementation header, so
    /// rendering ignores it.
    pub default_ty: Option<String>,
}

/// The mathematical value of a [`TyParam`].
pub ghost struct TyParamView {
    pub ident: Seq<char>,
    pub bounds: Seq<Seq<char>>,
    pub default_ty: Option<Seq<char>>,
}

impl View for TyParam {
    type V = TyParamView;

    open spec fn view(&self) -> TyParamView {
        TyParamView {
            ident: self.ident@,
            bounds: views_of(self.bounds@),
            default_ty: match self.default_ty {
                Option::Some(d) => Option::Some(d@),
                Option::None => Option::None,
            },
        }
    }
}

/// The enclosing type's generic parameter list: its lifetime parameters,
/// its type parameters, and the predicates of its where-clause, in order.
#[derive(Debug, Clone)]
pub struct Generics {
    /// The lifetime parameters, e.g. `'a`.
    pub lifetimes: Vec<String>,
    /// The type parameters.
    pub ty_params: Vec<TyParam>,
    /// The predicates of the where-clause, one fragment per predicate.
    pub where_predicates: Vec<String>,
}

/// The mathematical value of a [`Generics`].
pub ghost struct GenericsView {
    pub lifetimes: Seq<Seq<char>>,
    pub ty_params: Seq<TyParamView>,
    pub where_predicates: Seq<Seq<char>>,
}

/// The views of a sequence of type parameters, element for element.
pub open spec fn param_views(params: Seq<TyParam>) -> Seq<TyParamView> {
    params.map_values(|p: TyParam| p@)
}

impl View for Generics {
    type V = GenericsView;

    open spec fn view(&self) -> GenericsView {
        GenericsView {
            lifetimes: views_of(self.lifetimes@),
            ty_params: param_views(self.ty_params@),
            where_predicates: views_of(self.where_predicates@),
        }
    }
}

/// A type parameter as it is declared in an `impl` header: its identifier,
/// followed by its bounds joined with ` + ` after a colon when it has any.
/// Its default type never appears there.
pub open spec fn spec_param_decl(p: TyParamView) -> Seq<char> {
    if p.bounds.len() == 0 {
        p.ident
    } else {
        p.ident + ": "@ + spec_join(p.bounds, " + "@)
    }
}

/// The declarations of a list of type parameters, element for element.
pub open spec fn spec_param_decls(params: Seq<TyParamView>) -> Seq<Seq<char>> {
    params.map_values(|p: TyParamView| spec_param_decl(p))
}

/// The identifiers of a list of type parameters, element for element.
pub open spec fn spec_param_idents(params: Seq<TyParamView>) -> Seq<Seq<char>> {
    params.map_values(|p: TyParamView| p.ident)
}

/// The generic-parameter list attached to the `impl` keyword: every
/// lifetime, then every type parameter with its bounds.
pub open spec fn spec_impl_generics(g: GenericsView) -> Seq<char> {
    spec_bracketed(g.lifetimes + spec_param_decls(g.ty_params))
}

/// The generic-argument list attached to the implemented-for type: every
/// lifetime, then every type parameter's bare identifier.
pub open spec fn spec_ty_generics(g: GenericsView) -> Seq<char> {
    spec_bracketed(g.lifetimes + spec_param_idents(g.ty_params))
}

/// Whether some type parameter of `g` is named `name`.
pub open spec fn spec_has_ty_param_named(g: GenericsView, name: Seq<char>) -> bool {
    exists|j: int| 0 <= j < g.ty_params.len() && g.ty_params[j].ident == name
}

/// The where-clause: nothing when there are no predicates, else ` where `
/// followed by the predicates joined with `, `.
pub open spec fn spec_where_clause(g: GenericsView) -> Seq<char> {
    if g.where_predicates.len() == 0 {
        Seq::empty()
    } else {
        " where "@ + spec_join(g.where_predicates, ", "@)
    }
}

impl TyParam {
    /// Renders this parameter's declaration for an `impl` header.
    pub fn decl(&self) -> (r: String)
        ensures
            r@ == spec_param_decl(self@),
    {
        if self.bounds.len() == 0 {
            self.ident.clone()
        } else {
            let mut r = self.ident.clone();
            r.append(": ");
            let joined = join_with(&self.bounds, " + ");
            r.append(joined.as_str());
            r
        }
    }

    /// A field-for-field copy of this parameter.
    pub fn duplicate(&self) -> (r: TyParam)
        ensures
            r@ == self@,
    {
        let default_ty = match &self.default_ty {
            Option::Some(d) => Option::Some(d.clone()),
            Option::None => Option::None,
        };
        let r = TyParam { ident: self.ident.clone(), bounds: copy_strings(&self.bounds), default_ty };
        proof {
            assert(r@.bounds =~= self@.bounds);
        }
        r
    }
}

/// A field-for-field copy of a list of strings.
fn copy_strings(v: &Vec<String>) -> (r: Vec<String>)
    ensures
        r@ == v@,
{
    let mut r: Vec<String> = Vec::new();
    let mut i: usize = 0;
    while i < v.len()
        invariant
            i <= v@.len(),
            r@ == v@.take(i as int),
        decreases v@.len() - i,
    {
        r.push(v[i].clone());
        proof {
            assert(v@.take(i + 1) =~= v@.take(i as int).push(v@[i as int]));
        }
        i = i + 1;
    }
    proof {
        assert(v@.take(v@.len() as int) =~= v@);
    }
    r
}

impl Generics {
    /// Renders the generic-parameter list for the `impl` keyword.
    pub fn impl_generics(&self) -> (r: String)
        ensures
            r@ == spec_impl_generics(self@),
    {
        let ghost decls = spec_param_decls(self@.ty_params);
        let mut parts: Vec<String> = Vec::new();
        self.push_lifetimes(&mut parts);
        proof {
            assert(views_of(parts@) =~= self@.lifetimes + decls.take(0));
        }
        let mut i: usize = 0;
        while i < self.ty_params.len()
            invariant
                i <= self.ty_params@.len(),
                decls == spec_param_decls(self@.ty_params),
                decls.len() == self.ty_params@.len(),
                views_of(parts@) == self@.lifetimes + decls.take(i as int),
            decreases self.ty_params@.len() - i,
        {
            let ghost before = parts@;
            parts.push(self.ty_params[i].decl());
            proof {
                assert(decls[i as int] == spec_param_decl(self.ty_params@[i as int]@));
                assert(views_of(parts@) =~= views_of(before).push(decls[i as int]));
                assert(self@.lifetimes + decls.take(i + 1) =~= (self@.lifetimes + decls.take(
                    i as int,
                )).push(decls[i as int]));
            }
            i = i + 1;
        }
        proof {
            assert(decls.take(decls.len() as int) =~= decls);
        }
        bracketed_list(&parts)
    }

    /// Renders the generic-argument list for the implemented-for type.
    pub fn ty_generics(&self) -> (r: String)
        ensures
            r@ == spec_ty_generics(self@),
    {
        let ghost idents = spec_param_idents(self@.ty_params);
        let mut parts: Vec<String> = Vec::new();
        self.push_lifetimes(&mut parts);
        proof {
            assert(views_of(parts@) =~= self@.lifetimes + idents.take(0));
        }
        let mut i: usize = 0;
        while i < self.ty_params.len()
            invariant
                i <= self.ty_params@.len(),
                idents == spec_param_idents(self@.ty_params),
                idents.len() == self.ty_params@.len(),
                views_of(parts@) == self@.lifetimes + idents.take(i as int),
            decreases self.ty_params@.len() - i,
        {
            let ghost before = parts@;
            parts.push(self.ty_params[i].ident.clone());
            proof {
                assert(idents[i as int] == self.ty_params@[i as int]@.ident);
                assert(views_of(parts@) =~= views_of(before).push(idents[i as int]));
                assert(self@.lifetimes + idents.take(i + 1) =~= (self@.lifetimes + idents.take(
                    i as int,
                )).push(idents[i as int]));
            }
            i = i + 1;
        }
        proof {
            assert(idents.take(idents.len() as int) =~= idents);
        }
        bracketed_list(&parts)
    }

    /// Renders the where-clause.
    pub fn where_clause(&self) -> (r: String)
        ensures
            r@ == spec_where_clause(self@),
    {
        if self.where_predicates.len() == 0 {
            String::new()
        } else {
            let mut r = " where ".to_owned();
            let joined = join_with(&self.where_predicates, ", ");
            r.append(joined.as_str());
            r
        }
    }

    /// Whether some type parameter is named `name`.
    pub fn has_ty_param_named(&self, name: &String) -> (r: bool)
        ensures
            r == spec_has_ty_param_named(self@, name@),
    {
        let mut i: usize = 0;
        while i < self.ty_params.len()
            invariant
                i <= self.ty_params@.len(),
                forall|j: int| 0 <= j < i ==> #[trigger] self@.ty_params[j].ident != name@,
            decreases self.ty_params@.len() - i,
        {
            if self.ty_params[i].ident == *name {
                proof {
                    assert(self@.ty_params[i as int].ident == name@);
                }
                return true;
            }
            proof {
                assert(self@.ty_params[i as int].ident != name@);
            }
            i = i + 1;
        }
        false
    }

    /// Splits this parameter list into the three rendered pieces an
    /// implementation block needs: the parameter list on the `impl`
    /// keyword, the argument list on the implemented-for type, and the
    /// where-clause.
    pub fn split_for_impl(&self) -> (r: (String, String, String))
        ensures
            r.0@ == spec_impl_generics(self@),
            r.1@ == spec_ty_generics(self@),
            r.2@ == spec_where_clause(self@),
    {
        (self.impl_generics(), self.ty_generics(), self.where_clause())
    }

    /// A field-for-field copy of this parameter list.
    pub fn duplicate(&self) -> (r: Generics)
        ensures
            r@ == self@,
    {
        let ghost views = param_views(self.ty_params@);
        let mut ty_params: Vec<TyParam> = Vec::new();
        proof {
            assert(param_views(ty_params@) =~= views.take(0));
        }
        let mut i: usize = 0;
        while i < self.ty_params.len()
            invariant
                i <= self.ty_params@.len(),
                views == param_views(self.ty_params@),
                views.len() == self.ty_params@.len(),
                param_views(ty_params@) == views.take(i as int),
            decreases self.ty_params@.len() - i,
        {
            let ghost before = ty_params@;
            ty_params.push(self.ty_params[i].duplicate());
            proof {
                assert(views[i as int] == self.ty_params@[i as int]@);
                assert(param_views(ty_params@) =~= param_views(before).push(views[i as int]));
                assert(views.take(i + 1) =~= views.take(i as int).push(views[i as int]));
            }
            i = i + 1;
        }
        let r = Generics {
            lifetimes: copy_strings(&self.lifetimes),
            ty_params,
            where_predicates: copy_strings(&self.where_predicates),
        };
        proof {
            assert(views.take(views.len() as int) =~= views);
        }
        r
    }

    /// Copies every lifetime onto the end of `parts`.
    fn push_lifetimes(&self, parts: &mut Vec<String>)
        ensures
            views_of(final(parts)@) == views_of(old(parts)@) + self@.lifetimes,
    {
        let ghost parts0 = parts@;
        proof {
            assert(views_of(parts@) =~= views_of(parts0) + self@.lifetimes.take(0));
        }
        let mut i: usize = 0;
        while i < self.lifetimes.len()
            invariant
                i <= self.lifetimes@.len(),
                self@.lifetimes.len() == self.lifetimes@.len(),
                views_of(parts@) == views_of(parts0) + self@.lifetimes.take(i as int),
            decreases self.lifetimes@.len() - i,
        {
            let ghost before = parts@;
            parts.push(self.lifetimes[i].clone());
            proof {
                assert(self@.lifetimes[i as int] == self.lifetimes@[i as int]@);
                assert(views_of(parts@) =~= views_of(before).push(self@.lifetimes[i as int]));
                assert(views_of(parts0) + self@.lifetimes.take(i + 1) =~= (views_of(parts0)
                    + self@.lifetimes.take(i as int)).push(self@.lifetimes[i as int]));
            }
            i = i + 1;
        }
        proof {
            assert(self@.lifetimes.take(self@.lifetimes.len() as int) =~= self@.lifetimes);
        }
    }
}

impl Default for Generics {
    /// A parameter list with no lifetimes, no type parameters, and no
    /// where-clause.
    fn default() -> (r: Self)
        ensures
            r@.lifetimes.len() == 0,
            r@.ty_params.len() == 0,
            r@.where_predicates.len() == 0,
    {
        Generics { lifetimes: Vec::new(), ty_params: Vec::new(), where_predicates: Vec::new() }
    }
}

} // verus!
