use chalk_display::driver::{render_declaration, render_program};
use chalk_display::error::ChalkError;
use chalk_display::ir::{
    AdtDatum, AssociatedTyDatum, AssociatedTyValue, DeclId, ImplDatum, InlineBound, OpaqueTyDatum,
    Polarity, Program, QuantifiedWhereClause, TraitDatum, TraitFlags, TraitRef, Ty, VariableKind,
};
use chalk_display::state::split_params;
use chalk_display::text::{decimal_string, indentation_string};
use chalk_display::wf::{program_is_wf, render_declaration_checked, render_program_checked};

fn named(name: &str) -> Ty {
    Ty::Apply { name: name.to_string(), args: vec![] }
}

fn applied(name: &str, args: Vec<Ty>) -> Ty {
    Ty::Apply { name: name.to_string(), args }
}

fn bv(debruijn: usize, index: usize) -> Ty {
    Ty::BoundVar { debruijn, index }
}

fn kinds(n: usize) -> Vec<VariableKind> {
    vec![VariableKind::Ty; n]
}

fn no_flags() -> TraitFlags {
    TraitFlags {
        auto: false,
        marker: false,
        upstream: false,
        fundamental: false,
        non_enumerable: false,
        coinductive: false,
    }
}

fn plain_trait(name: &str, binders: usize) -> TraitDatum {
    TraitDatum {
        name: name.to_string(),
        flags: no_flags(),
        binders: kinds(binders),
        where_clauses: vec![],
        associated_ty_ids: vec![],
    }
}

fn clause(binders: usize, trait_id: usize, params: Vec<Ty>) -> QuantifiedWhereClause {
    QuantifiedWhereClause { binders: kinds(binders), trait_ref: TraitRef { trait_id, params } }
}

fn empty_program() -> Program {
    Program {
        adts: vec![],
        traits: vec![],
        impls: vec![],
        associated_tys: vec![],
        associated_ty_values: vec![],
        opaque_tys: vec![],
    }
}

#[test]
fn scenario_non_generic_impl() {
    let mut db = empty_program();
    db.adts.push(AdtDatum { name: "Foo".to_string(), binders: kinds(0), fields: vec![], where_clauses: vec![] });
    db.traits.push(plain_trait("Buz", 1));
    db.impls.push(ImplDatum {
        binders: kinds(0),
        trait_ref: TraitRef { trait_id: 0, params: vec![named("Foo")] },
        where_clauses: vec![],
        polarity: Polarity::Positive,
        associated_ty_value_ids: vec![],
    });
    assert_eq!(render_declaration(&db, DeclId::Impl(0)), "impl Buz for Foo {}");
    assert_eq!(render_program(&db), "struct Foo {}\ntrait Buz {}\nimpl Buz for Foo {}");
}

#[test]
fn scenario_generic_opaque_type() {
    let mut db = empty_program();
    db.adts.push(AdtDatum { name: "Foo".to_string(), binders: kinds(1), fields: vec![], where_clauses: vec![] });
    db.traits.push(plain_trait("Bar", 2));
    db.opaque_tys.push(OpaqueTyDatum {
        name: "Baz".to_string(),
        binders: kinds(1),
        bounds: vec![clause(0, 0, vec![bv(1, 0), bv(2, 0)])],
        hidden_ty: applied("Foo", vec![bv(0, 0)]),
    });
    assert_eq!(
        render_declaration(&db, DeclId::OpaqueTy(0)),
        "opaque type Baz<_0_0>: Bar<_0_0> = Foo<_0_0>;"
    );
}

#[test]
fn scenario_assoc_type_of_two_parameter_interface() {
    let mut db = empty_program();
    db.traits.push(plain_trait("Bar", 2));
    let mut owner = plain_trait("Foo", 3);
    owner.associated_ty_ids.push(0);
    db.traits.push(owner);
    db.associated_tys.push(AssociatedTyDatum {
        trait_id: 1,
        name: "Assoc".to_string(),
        binders: kinds(3),
        bounds: vec![
            InlineBound { trait_id: 0, args_no_self: vec![bv(0, 1)] },
            InlineBound { trait_id: 0, args_no_self: vec![bv(0, 2)] },
        ],
        where_clauses: vec![],
    });
    assert_eq!(
        render_declaration(&db, DeclId::Trait(1)),
        "trait Foo<_0_1, _0_2> {\n    type Assoc: Bar<_0_1> + Bar<_0_2>;\n}"
    );
    assert_eq!(render_declaration(&db, DeclId::AssociatedTy(0)), "type Assoc: Bar<_0_1> + Bar<_0_2>;");
}

#[test]
fn owner_names_recovered_with_own_parameter() {
    let mut db = empty_program();
    db.traits.push(plain_trait("Bar", 2));
    let mut owner = plain_trait("Foo", 3);
    owner.associated_ty_ids.push(0);
    db.traits.push(owner);
    db.associated_tys.push(AssociatedTyDatum {
        trait_id: 1,
        name: "Item".to_string(),
        binders: kinds(4),
        bounds: vec![InlineBound { trait_id: 0, args_no_self: vec![bv(0, 1)] }],
        where_clauses: vec![clause(0, 0, vec![bv(1, 3), bv(1, 0)])],
    });
    assert_eq!(
        render_declaration(&db, DeclId::Trait(1)),
        "trait Foo<_0_1, _0_2> {\n    type Item<_1_3>: Bar<_0_1>\n    where\n        _1_3: Bar<Self>;\n}"
    );
}

#[test]
fn flags_auto_and_coinductive_in_order() {
    let mut db = empty_program();
    let mut t = plain_trait("Foo", 1);
    t.flags.coinductive = true;
    t.flags.auto = true;
    db.traits.push(t);
    assert_eq!(render_declaration(&db, DeclId::Trait(0)), "#[auto]\n#[coinductive]\ntrait Foo {}");
}

#[test]
fn all_flags_in_fixed_order() {
    let mut db = empty_program();
    let mut t = plain_trait("Foo", 1);
    t.flags = TraitFlags {
        auto: true,
        marker: true,
        upstream: true,
        fundamental: true,
        non_enumerable: true,
        coinductive: true,
    };
    db.traits.push(t);
    assert_eq!(
        render_declaration(&db, DeclId::Trait(0)),
        "#[auto]\n#[marker]\n#[upstream]\n#[fundamental]\n#[non_enumerable]\n#[coinductive]\ntrait Foo {}"
    );
}

#[test]
fn negative_impl_has_marker_next_to_name() {
    let mut db = empty_program();
    db.traits.push(plain_trait("Buz", 2));
    db.impls.push(ImplDatum {
        binders: kinds(1),
        trait_ref: TraitRef { trait_id: 0, params: vec![named("Foo"), bv(0, 0)] },
        where_clauses: vec![],
        polarity: Polarity::Negative,
        associated_ty_value_ids: vec![],
    });
    assert_eq!(render_declaration(&db, DeclId::Impl(0)), "impl<_0_0> !Buz<_0_0> for Foo {}");
}

#[test]
fn record_with_fields_and_where_clause() {
    let mut db = empty_program();
    db.traits.push(plain_trait("Bar", 1));
    db.adts.push(AdtDatum {
        name: "Foo".to_string(),
        binders: kinds(1),
        fields: vec![bv(0, 0), named("Unit")],
        where_clauses: vec![clause(0, 0, vec![bv(1, 0)])],
    });
    assert_eq!(
        render_declaration(&db, DeclId::Adt(0)),
        "struct Foo<_0_0>\nwhere\n    _0_0: Bar\n{\n    field_0: _0_0,\n    field_1: Unit\n}"
    );
}

#[test]
fn record_without_where_clause_or_fields() {
    let mut db = empty_program();
    db.adts.push(AdtDatum { name: "Empty".to_string(), binders: kinds(0), fields: vec![], where_clauses: vec![] });
    assert_eq!(render_declaration(&db, DeclId::Adt(0)), "struct Empty {}");
}

#[test]
fn quantified_where_clause_on_impl() {
    let mut db = empty_program();
    db.traits.push(plain_trait("Foo", 1));
    db.traits.push(plain_trait("Bar", 2));
    db.impls.push(ImplDatum {
        binders: kinds(1),
        trait_ref: TraitRef { trait_id: 0, params: vec![bv(0, 0)] },
        where_clauses: vec![clause(1, 1, vec![bv(0, 0), bv(1, 0)]), clause(0, 0, vec![bv(1, 0)])],
        polarity: Polarity::Positive,
        associated_ty_value_ids: vec![],
    });
    assert_eq!(
        render_declaration(&db, DeclId::Impl(0)),
        "impl<_0_0> Foo for _0_0\nwhere\n    forall<_1_0> _1_0: Bar<_0_0>,\n    _0_0: Foo\n{}"
    );
}

#[test]
fn assoc_value_with_own_parameter() {
    let mut db = empty_program();
    let mut baz = plain_trait("Baz", 1);
    baz.associated_ty_ids.push(0);
    db.traits.push(baz);
    db.associated_tys.push(AssociatedTyDatum {
        trait_id: 0,
        name: "Item".to_string(),
        binders: kinds(2),
        bounds: vec![],
        where_clauses: vec![],
    });
    db.impls.push(ImplDatum {
        binders: kinds(1),
        trait_ref: TraitRef { trait_id: 0, params: vec![applied("Foo", vec![bv(0, 0)])] },
        where_clauses: vec![],
        polarity: Polarity::Positive,
        associated_ty_value_ids: vec![0],
    });
    db.associated_ty_values.push(AssociatedTyValue {
        impl_id: 0,
        associated_ty_id: 0,
        binders: kinds(2),
        ty: applied("Pair", vec![bv(0, 0), bv(0, 1)]),
    });
    assert_eq!(
        render_declaration(&db, DeclId::Impl(0)),
        "impl<_0_0> Baz for Foo<_0_0> {\n    type Item<_1_1> = Pair<_0_0, _1_1>;\n}"
    );
    assert_eq!(
        render_declaration(&db, DeclId::AssociatedTyValue(0)),
        "type Item<_1_1> = Pair<_0_0, _1_1>;"
    );
}

#[test]
fn function_pointer_with_several_parameters() {
    let mut db = empty_program();
    db.adts.push(AdtDatum {
        name: "Foo".to_string(),
        binders: kinds(0),
        fields: vec![Ty::FnPtr { params: vec![named("A"), named("B"), applied("C", vec![named("D")])] }],
        where_clauses: vec![],
    });
    assert_eq!(render_declaration(&db, DeclId::Adt(0)), "struct Foo {\n    field_0: fn(A, B, C<D>)\n}");
}

#[test]
fn opaque_type_with_two_bounds() {
    let mut db = empty_program();
    db.traits.push(plain_trait("A", 1));
    db.traits.push(plain_trait("B", 1));
    db.opaque_tys.push(OpaqueTyDatum {
        name: "T".to_string(),
        binders: kinds(0),
        bounds: vec![clause(0, 0, vec![bv(1, 0)]), clause(0, 1, vec![bv(1, 0)])],
        hidden_ty: named("Foo"),
    });
    assert_eq!(render_declaration(&db, DeclId::OpaqueTy(0)), "opaque type T: A + B = Foo;");
}

#[test]
fn empty_program_renders_nothing() {
    assert_eq!(render_program(&empty_program()), "");
}

#[test]
fn decimal_numbers() {
    assert_eq!(decimal_string(0), "0");
    assert_eq!(decimal_string(7), "7");
    assert_eq!(decimal_string(10), "10");
    assert_eq!(decimal_string(1234), "1234");
}

#[test]
fn indentation_levels() {
    assert_eq!(indentation_string(0), "");
    assert_eq!(indentation_string(2), "        ");
}

#[test]
fn split_after_owner_parameters() {
    let (owner, own) = split_params(vec![1u32, 2, 3], 1);
    assert_eq!(owner, vec![1]);
    assert_eq!(own, vec![2, 3]);
    let (owner, own) = split_params(vec![1u32, 2], 0);
    assert!(owner.is_empty());
    assert_eq!(own, vec![1, 2]);
}

#[test]
fn error_keeps_its_text() {
    let a = ChalkError::from_text("coherence failed".to_string());
    let b = ChalkError::from_text("coherence failed".to_string());
    assert_eq!(a, b);
    assert_eq!(a.to_string(), "coherence failed");
    assert_ne!(a, ChalkError::from_text("other".to_string()));
}

#[test]
fn checked_rendering_refuses_unbound_variable() {
    let mut db = empty_program();
    db.adts.push(AdtDatum { name: "Foo".to_string(), binders: kinds(1), fields: vec![bv(1, 0)], where_clauses: vec![] });
    assert!(!program_is_wf(&db));
    assert_eq!(render_program_checked(&db), None);
    assert_eq!(render_declaration_checked(&db, DeclId::Adt(0)), None);
    db.adts[0].fields = vec![bv(0, 0)];
    assert_eq!(render_program_checked(&db), Some("struct Foo<_0_0> {\n    field_0: _0_0\n}".to_string()));
}

#[test]
fn checked_rendering_refuses_short_copied_prefix() {
    let mut db = empty_program();
    let mut owner = plain_trait("Foo", 3);
    owner.associated_ty_ids.push(0);
    db.traits.push(owner);
    db.associated_tys.push(AssociatedTyDatum {
        trait_id: 0,
        name: "Item".to_string(),
        binders: kinds(2),
        bounds: vec![],
        where_clauses: vec![],
    });
    assert_eq!(render_declaration_checked(&db, DeclId::Trait(0)), None);
    assert_eq!(render_declaration_checked(&db, DeclId::AssociatedTy(0)), None);
    db.associated_tys[0].binders = kinds(3);
    assert_eq!(
        render_declaration_checked(&db, DeclId::Trait(0)),
        Some("trait Foo<_0_1, _0_2> {\n    type Item;\n}".to_string())
    );
}

#[test]
fn checked_rendering_refuses_unknown_identifier() {
    let mut db = empty_program();
    assert_eq!(render_declaration_checked(&db, DeclId::Impl(0)), None);
    db.impls.push(ImplDatum {
        binders: kinds(0),
        trait_ref: TraitRef { trait_id: 4, params: vec![named("Foo")] },
        where_clauses: vec![],
        polarity: Polarity::Positive,
        associated_ty_value_ids: vec![],
    });
    assert_eq!(render_program_checked(&db), None);
}

#[test]
fn lifetime_and_const_parameters() {
    let mut db = empty_program();
    db.adts.push(AdtDatum {
        name: "Foo".to_string(),
        binders: vec![VariableKind::Lifetime, VariableKind::Ty, VariableKind::Const],
        fields: vec![bv(0, 1)],
        where_clauses: vec![],
    });
    assert_eq!(
        render_declaration(&db, DeclId::Adt(0)),
        "struct Foo<'_0_0, _0_1, const _0_2> {\n    field_0: _0_1\n}"
    );
    db.traits.push(plain_trait("Bar", 2));
    db.impls.push(ImplDatum {
        binders: kinds(1),
        trait_ref: TraitRef { trait_id: 0, params: vec![bv(0, 0), named("Unit")] },
        where_clauses: vec![QuantifiedWhereClause {
            binders: vec![VariableKind::Lifetime],
            trait_ref: TraitRef { trait_id: 0, params: vec![bv(1, 0), named("Unit")] },
        }],
        polarity: Polarity::Positive,
        associated_ty_value_ids: vec![],
    });
    assert_eq!(
        render_declaration(&db, DeclId::Impl(0)),
        "impl<_0_0> Bar<Unit> for _0_0\nwhere\n    forall<'_1_0> _0_0: Bar<Unit>\n{}"
    );
}
