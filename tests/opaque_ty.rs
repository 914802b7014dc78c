use chalk_display::driver::render_program;
use chalk_display::ir::{
    AdtDatum, AssociatedTyDatum, AssociatedTyValue, ImplDatum, InlineBound, OpaqueTyDatum,
    Polarity, Program, QuantifiedWhereClause, TraitDatum, TraitFlags, TraitRef, Ty, VariableKind,
};

fn ty(name: &str, args: Vec<Ty>) -> Ty {
    Ty::Apply { name: name.to_string(), args }
}

fn var(debruijn: usize, index: usize) -> Ty {
    Ty::BoundVar { debruijn, index }
}

fn record(name: &str, binders: usize) -> AdtDatum {
    AdtDatum { name: name.to_string(), binders: vec![VariableKind::Ty; binders], fields: vec![], where_clauses: vec![] }
}

fn interface(name: &str, binders: usize, associated_ty_ids: Vec<usize>) -> TraitDatum {
    let flags = TraitFlags {
        auto: false,
        marker: false,
        upstream: false,
        fundamental: false,
        non_enumerable: false,
        coinductive: false,
    };
    TraitDatum { name: name.to_string(), flags, binders: vec![VariableKind::Ty; binders], where_clauses: vec![], associated_ty_ids }
}

fn implementation(trait_id: usize, params: Vec<Ty>, associated_ty_value_ids: Vec<usize>) -> ImplDatum {
    ImplDatum {
        binders: vec![],
        trait_ref: TraitRef { trait_id, params },
        where_clauses: vec![],
        polarity: Polarity::Positive,
        associated_ty_value_ids,
    }
}

fn bound(trait_id: usize, params: Vec<Ty>) -> QuantifiedWhereClause {
    QuantifiedWhereClause { binders: vec![], trait_ref: TraitRef { trait_id, params } }
}

fn opaque(name: &str, binders: usize, bounds: Vec<QuantifiedWhereClause>, hidden_ty: Ty) -> OpaqueTyDatum {
    OpaqueTyDatum { name: name.to_string(), binders: vec![VariableKind::Ty; binders], bounds, hidden_ty }
}

fn assoc_ty(trait_id: usize, name: &str, binders: usize, bounds: Vec<InlineBound>) -> AssociatedTyDatum {
    AssociatedTyDatum { trait_id, name: name.to_string(), binders: vec![VariableKind::Ty; binders], bounds, where_clauses: vec![] }
}

fn assoc_value(impl_id: usize, associated_ty_id: usize, ty: Ty) -> AssociatedTyValue {
    AssociatedTyValue { impl_id, associated_ty_id, binders: vec![], ty }
}

// struct Bar {}
// trait Buz {}
// trait Baz { type Hi; }
// impl Buz for Bar {}
// impl Baz for Foo { type Hi = Foo; }
// opaque type Foo: Buz = Bar;
#[test]
fn opaque_types() {
    let db = Program {
        adts: vec![record("Bar", 0)],
        traits: vec![interface("Buz", 1, vec![]), interface("Baz", 1, vec![0])],
        impls: vec![
            implementation(0, vec![ty("Bar", vec![])], vec![]),
            implementation(1, vec![ty("Foo", vec![])], vec![0]),
        ],
        associated_tys: vec![assoc_ty(1, "Hi", 1, vec![])],
        associated_ty_values: vec![assoc_value(1, 0, ty("Foo", vec![]))],
        opaque_tys: vec![opaque("Foo", 0, vec![bound(0, vec![var(1, 0)])], ty("Bar", vec![]))],
    };
    assert_eq!(
        render_program(&db),
        "struct Bar {}\ntrait Buz {}\ntrait Baz {\n    type Hi;\n}\nimpl Buz for Bar {}\n\
         impl Baz for Foo {\n    type Hi = Foo;\n}\nopaque type Foo: Buz = Bar;"
    );
}

#[test]
fn test_generic_opaque_types() {
    // struct Foo {}
    // trait Bar<T> {}
    // opaque type Baz<T>: Bar<T> = Foo;
    let db = Program {
        adts: vec![record("Foo", 0)],
        traits: vec![interface("Bar", 2, vec![])],
        impls: vec![],
        associated_tys: vec![],
        associated_ty_values: vec![],
        opaque_tys: vec![opaque("Baz", 1, vec![bound(0, vec![var(1, 0), var(2, 0)])], ty("Foo", vec![]))],
    };
    assert_eq!(
        render_program(&db),
        "struct Foo {}\ntrait Bar<_0_1> {}\nopaque type Baz<_0_0>: Bar<_0_0> = Foo;"
    );
    // struct Foo<T> {}
    // struct Unit {}
    // trait Bar<T, U> {}
    // opaque type Boz<U>: Bar<Unit, U> = Foo<U>;
    let db = Program {
        adts: vec![record("Foo", 1), record("Unit", 0)],
        traits: vec![interface("Bar", 3, vec![])],
        impls: vec![],
        associated_tys: vec![],
        associated_ty_values: vec![],
        opaque_tys: vec![opaque(
            "Boz",
            1,
            vec![bound(0, vec![var(1, 0), ty("Unit", vec![]), var(2, 0)])],
            ty("Foo", vec![var(0, 0)]),
        )],
    };
    assert_eq!(
        render_program(&db),
        "struct Foo<_0_0> {}\nstruct Unit {}\ntrait Bar<_0_1, _0_2> {}\n\
         opaque type Boz<_0_0>: Bar<Unit, _0_0> = Foo<_0_0>;"
    );
}

#[test]
fn test_opaque_type_as_type_value() {
    // struct Foo {}
    // trait Bar {}
    // trait Fuzz { type Assoc: Bar; }
    // impl Bar for Foo {}
    // impl Fuzz for Foo { type Assoc = Bax; }
    // opaque type Bax: Bar = Foo;
    let db = Program {
        adts: vec![record("Foo", 0)],
        traits: vec![interface("Bar", 1, vec![]), interface("Fuzz", 1, vec![0])],
        impls: vec![
            implementation(0, vec![ty("Foo", vec![])], vec![]),
            implementation(1, vec![ty("Foo", vec![])], vec![0]),
        ],
        associated_tys: vec![assoc_ty(1, "Assoc", 1, vec![InlineBound { trait_id: 0, args_no_self: vec![] }])],
        associated_ty_values: vec![assoc_value(1, 0, ty("Bax", vec![]))],
        opaque_tys: vec![opaque("Bax", 0, vec![bound(0, vec![var(1, 0)])], ty("Foo", vec![]))],
    };
    assert_eq!(
        render_program(&db),
        "struct Foo {}\ntrait Bar {}\ntrait Fuzz {\n    type Assoc: Bar;\n}\nimpl Bar for Foo {}\n\
         impl Fuzz for Foo {\n    type Assoc = Bax;\n}\nopaque type Bax: Bar = Foo;"
    );
    // struct Foo {}
    // trait Bar<T> {}
    // trait Faz { type Assoc; }
    // impl Faz for Foo { type Assoc = fn(Baz); }
    // opaque type Baz: Bar<Foo> = Foo;
    let db = Program {
        adts: vec![record("Foo", 0)],
        traits: vec![interface("Bar", 2, vec![]), interface("Faz", 1, vec![0])],
        impls: vec![implementation(1, vec![ty("Foo", vec![])], vec![0])],
        associated_tys: vec![assoc_ty(1, "Assoc", 1, vec![])],
        associated_ty_values: vec![assoc_value(0, 0, Ty::FnPtr { params: vec![ty("Baz", vec![])] })],
        opaque_tys: vec![opaque("Baz", 0, vec![bound(0, vec![var(1, 0), ty("Foo", vec![])])], ty("Foo", vec![]))],
    };
    assert_eq!(
        render_program(&db),
        "struct Foo {}\ntrait Bar<_0_1> {}\ntrait Faz {\n    type Assoc;\n}\n\
         impl Faz for Foo {\n    type Assoc = fn(Baz);\n}\nopaque type Baz: Bar<Foo> = Foo;"
    );
}
