use from_variants::bindings::Bindings;
use from_variants::from_impl::{generate_into_ty_param, FromImpl};
use from_variants::generics::{Generics, TyParam};

fn default_from_impl() -> FromImpl {
    FromImpl {
        bindings: Bindings::default(),
        generics: Generics::default(),
        target_ident: "Foo".to_string(),
        variant_ident: "Bar".to_string(),
        variant_ty: "String".to_string(),
        into: false,
    }
}

fn rendered(fi: &FromImpl) -> String {
    let mut tokens = String::new();
    fi.to_tokens(&mut tokens);
    tokens
}

#[test]
fn simple() {
    let fi = default_from_impl();
    assert_eq!(
        rendered(&fi),
        "#[doc = \"Convert into a `Bar` variant.\"] \
         impl ::std::convert::From<String> for Foo \
         { fn from(v: String) -> Self { Foo::Bar(v) } }"
    );
}

#[test]
fn lifetime() {
    let mut generics = Generics::default();
    generics.lifetimes.push("'a".to_string());

    let mut fi = default_from_impl();
    fi.variant_ty = "&'a str".to_string();
    fi.generics = generics;

    assert_eq!(
        rendered(&fi),
        "#[doc = \"Convert into a `Bar` variant.\"] \
         impl<'a> ::std::convert::From<&'a str> for Foo<'a> \
         { fn from(v: &'a str) -> Self { Foo::Bar(v) } }"
    );
}

#[test]
fn into() {
    let mut fi = default_from_impl();
    fi.into = true;

    assert_eq!(
        rendered(&fi),
        "#[doc = \"Convert into a `Bar` variant.\"] \
         impl<INTO: ::std::convert::Into<String>> ::std::convert::From<INTO> for Foo \
         { fn from(v: INTO) -> Self { Foo::Bar(v.into()) } }"
    );
}

#[test]
fn into_generics() {
    let mut generics = Generics::default();
    generics.ty_params.push(TyParam {
        ident: "T".to_string(),
        bounds: Vec::new(),
        default_ty: None,
    });
    let mut fi = default_from_impl();
    fi.variant_ty = "Vec<T>".to_string();
    fi.generics = generics;
    fi.into = true;

    assert_eq!(
        rendered(&fi),
        "#[doc = \"Convert into a `Bar` variant.\"] \
         impl<T, INTO: ::std::convert::Into<Vec<T>>> ::std::convert::From<INTO> for Foo<T> \
         { fn from(v: INTO) -> Self { Foo::Bar(v.into()) } }"
    );
}

#[test]
fn direct_mode_keeps_own_generics_and_no_auxiliary() {
    let mut fi = default_from_impl();
    fi.generics.ty_params.push(TyParam {
        ident: "T".to_string(),
        bounds: Vec::new(),
        default_ty: None,
    });
    fi.variant_ty = "Vec<T>".to_string();

    let out = rendered(&fi);
    assert!(out.contains("impl<T> ::std::convert::From<Vec<T>> for Foo<T>"));
    assert!(!out.contains("INTO"));
}

#[test]
fn auxiliary_mode_keeps_lifetimes_and_appends_parameter() {
    let mut fi = default_from_impl();
    fi.generics.lifetimes.push("'a".to_string());
    fi.variant_ty = "&'a str".to_string();
    fi.into = true;

    assert_eq!(
        rendered(&fi),
        "#[doc = \"Convert into a `Bar` variant.\"] \
         impl<'a, INTO: ::std::convert::Into<&'a str>> ::std::convert::From<INTO> for Foo<'a> \
         { fn from(v: INTO) -> Self { Foo::Bar(v.into()) } }"
    );
}

#[test]
fn core_bindings_direct() {
    let mut fi = default_from_impl();
    fi.bindings = Bindings::Core;

    assert_eq!(
        rendered(&fi),
        "#[doc = \"Convert into a `Bar` variant.\"] \
         impl ::core::convert::From<String> for Foo \
         { fn from(v: String) -> Self { Foo::Bar(v) } }"
    );
}

#[test]
fn core_bindings_auxiliary() {
    let mut fi = default_from_impl();
    fi.bindings = Bindings::Core;
    fi.into = true;

    assert_eq!(
        rendered(&fi),
        "#[doc = \"Convert into a `Bar` variant.\"] \
         impl<INTO: ::core::convert::Into<String>> ::core::convert::From<INTO> for Foo \
         { fn from(v: INTO) -> Self { Foo::Bar(v.into()) } }"
    );
}

#[test]
fn where_clause_carries_over() {
    let mut fi = default_from_impl();
    fi.generics.ty_params.push(TyParam {
        ident: "T".to_string(),
        bounds: Vec::new(),
        default_ty: None,
    });
    fi.generics.where_predicates.push("T: ::std::fmt::Debug".to_string());
    fi.generics.where_predicates.push("T: Clone".to_string());
    fi.variant_ty = "Vec<T>".to_string();

    assert_eq!(
        rendered(&fi),
        "#[doc = \"Convert into a `Bar` variant.\"] \
         impl<T> ::std::convert::From<Vec<T>> for Foo<T> where T: ::std::fmt::Debug, T: Clone \
         { fn from(v: Vec<T>) -> Self { Foo::Bar(v) } }"
    );
}

#[test]
fn bounds_join_with_plus() {
    let mut fi = default_from_impl();
    fi.generics.ty_params.push(TyParam {
        ident: "T".to_string(),
        bounds: vec!["Clone".to_string(), "Default".to_string()],
        default_ty: None,
    });
    fi.variant_ty = "T".to_string();

    let out = rendered(&fi);
    assert!(out.contains("impl<T: Clone + Default> ::std::convert::From<T> for Foo<T>"));
}

#[test]
fn default_type_never_rendered() {
    let mut fi = default_from_impl();
    fi.generics.ty_params.push(TyParam {
        ident: "T".to_string(),
        bounds: Vec::new(),
        default_ty: Some("String".to_string()),
    });
    fi.variant_ty = "T".to_string();

    let out = rendered(&fi);
    assert!(out.contains("impl<T> ::std::convert::From<T> for Foo<T>"));
    assert!(!out.contains("T = String"));
}

#[test]
fn render_is_deterministic() {
    let a = default_from_impl();
    let b = default_from_impl();
    assert_eq!(a.render(), b.render());
    assert_eq!(a.render(), a.render());

    let mut c = default_from_impl();
    c.into = true;
    let mut d = default_from_impl();
    d.into = true;
    assert_eq!(c.render(), d.render());
}

#[test]
fn doc_string_same_in_every_mode_and_binding() {
    let expected_prefix = "#[doc = \"Convert into a `Bar` variant.\"]";
    for &bindings in &[Bindings::Std, Bindings::Core] {
        for &into in &[false, true] {
            let mut fi = default_from_impl();
            fi.bindings = bindings;
            fi.into = into;
            assert!(rendered(&fi).starts_with(expected_prefix));
        }
    }
}

#[test]
fn doc_string_interpolates_variant_name() {
    let mut fi = default_from_impl();
    fi.variant_ident = "Quux".to_string();
    assert!(rendered(&fi).starts_with("#[doc = \"Convert into a `Quux` variant.\"]"));
}

#[test]
fn to_tokens_appends_to_existing_text() {
    let fi = default_from_impl();
    let mut tokens = String::from("prefix ");
    fi.to_tokens(&mut tokens);
    let mut expected = String::from("prefix ");
    expected.push_str(&fi.render());
    assert_eq!(tokens, expected);
}

#[test]
fn split_for_impl_pieces() {
    let g = Generics {
        lifetimes: vec!["'a".to_string(), "'b".to_string()],
        ty_params: vec![
            TyParam { ident: "T".to_string(), bounds: vec!["Clone".to_string()], default_ty: None },
            TyParam { ident: "U".to_string(), bounds: Vec::new(), default_ty: None },
        ],
        where_predicates: vec!["U: From<T>".to_string()],
    };
    let (impl_generics, ty_generics, where_clause) = g.split_for_impl();
    assert_eq!(impl_generics, "<'a, 'b, T: Clone, U>");
    assert_eq!(ty_generics, "<'a, 'b, T, U>");
    assert_eq!(where_clause, " where U: From<T>");
}

#[test]
fn split_for_impl_empty() {
    let g = Generics::default();
    let (impl_generics, ty_generics, where_clause) = g.split_for_impl();
    assert_eq!(impl_generics, "");
    assert_eq!(ty_generics, "");
    assert_eq!(where_clause, "");
}

#[test]
fn into_ty_param_shape() {
    let p = generate_into_ty_param(
        "::std::convert::Into".to_string(),
        &"String".to_string(),
    );
    assert_eq!(p.ident, "INTO");
    assert_eq!(p.bounds, vec!["::std::convert::Into<String>".to_string()]);
    assert!(p.default_ty.is_none());
}

#[test]
fn collision_detected_in_auxiliary_mode() {
    let mut fi = default_from_impl();
    fi.generics.ty_params.push(TyParam {
        ident: "INTO".to_string(),
        bounds: Vec::new(),
        default_ty: None,
    });
    fi.into = true;
    assert!(fi.into_param_collides());
}

#[test]
fn no_collision_in_direct_mode_or_with_other_names() {
    let mut fi = default_from_impl();
    fi.generics.ty_params.push(TyParam {
        ident: "INTO".to_string(),
        bounds: Vec::new(),
        default_ty: None,
    });
    assert!(!fi.into_param_collides());

    let mut fi = default_from_impl();
    fi.generics.ty_params.push(TyParam {
        ident: "T".to_string(),
        bounds: Vec::new(),
        default_ty: None,
    });
    fi.into = true;
    assert!(!fi.into_param_collides());
}

#[test]
fn bindings_default_is_std() {
    assert_eq!(Bindings::default(), Bindings::Std);
}
