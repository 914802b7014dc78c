//! Checks of the consistency that rendering relies on, and entry points that
//! refuse an inconsistent program instead of rendering it.
use vstd::prelude::*;
use crate::decls::{
    adt_wf, assoc_ty_wf, assoc_value_wf, impl_wf, inline_bound_wf, opaque_wf, trait_wf,
};
use crate::driver::{decl_text, decl_wf, program_text, program_wf, render_declaration, render_program, top_level_decls};
use crate::ir::{
    AdtDatum, AssociatedTyDatum, AssociatedTyValue, DeclId, ImplDatum, OpaqueTyDatum, Program,
    QuantifiedWhereClause, TraitDatum, Ty, ty_wf,
};
use crate::render::{qwc_wf, qwcs_wf, tys_wf};

verus! {

broadcast use vstd::std_specs::vec::group_vec_axioms;

fn tys_are_wf(ts: &Vec<Ty>, depth: usize) -> (r: bool)
    ensures
        r == tys_wf(ts@, depth as nat),
    decreases ts, 0nat,
{
    let mut i: usize = 0;
    while i < ts.len()
        invariant
            i <= ts@.len(),
            forall|j: int| 0 <= j < i ==> ty_wf(#[trigger] ts@[j], depth as nat),
        decreases ts@.len() - i,
    {
        proof { vstd::std_specs::vec::axiom_vec_index_decreases(*ts, i as int); }
        if !ty_is_wf(&ts[i], depth) {
            return false;
        }
        i = i + 1;
    }
    true
}

/// Whether every bound variable of `t` refers to one of `depth` binders.
pub fn ty_is_wf(t: &Ty, depth: usize) -> (r: bool)
    ensures
        r == ty_wf(*t, depth as nat),
    decreases t, 1nat,
{
    match t {
        Ty::BoundVar { debruijn, index } => *debruijn < depth,
        Ty::Apply { name, args } => tys_are_wf(args, depth),
        Ty::FnPtr { params } => tys_are_wf(params, depth),
    }
}

fn qwcs_are_wf(db: &Program, wcs: &Vec<QuantifiedWhereClause>, depth: usize) -> (r: bool)
    requires
        depth < usize::MAX,
    ensures
        r == qwcs_wf(*db, wcs@, depth as nat),
{
    let mut i: usize = 0;
    while i < wcs.len()
        invariant
            i <= wcs@.len(),
            depth < usize::MAX,
            forall|j: int| 0 <= j < i ==> qwc_wf(*db, #[trigger] wcs@[j], depth as nat),
        decreases wcs@.len() - i,
    {
        let q = &wcs[i];
        let ok = q.trait_ref.trait_id < db.traits.len() && q.trait_ref.params.len() >= 1
            && tys_are_wf(&q.trait_ref.params, depth + 1);
        if !ok {
            return false;
        }
        i = i + 1;
    }
    true
}

fn adt_is_wf(db: &Program, a: &AdtDatum, depth: usize) -> (r: bool)
    requires
        depth + 2 <= usize::MAX,
    ensures
        r == adt_wf(*db, *a, depth as nat),
{
    tys_are_wf(&a.fields, depth + 1) && qwcs_are_wf(db, &a.where_clauses, depth + 1)
}

fn opaque_is_wf(db: &Program, o: &OpaqueTyDatum, depth: usize) -> (r: bool)
    requires
        depth + 3 <= usize::MAX,
    ensures
        r == opaque_wf(*db, *o, depth as nat),
{
    qwcs_are_wf(db, &o.bounds, depth + 2) && ty_is_wf(&o.hidden_ty, depth + 1)
}

fn assoc_ty_is_wf(db: &Program, a: &AssociatedTyDatum, depth: usize) -> (r: bool)
    requires
        depth + 2 <= usize::MAX,
    ensures
        r == assoc_ty_wf(*db, *a, depth as nat),
{
    if depth < 1 || a.trait_id >= db.traits.len() || db.traits[a.trait_id].binders.len() > a.binders.len() {
        return false;
    }
    let mut i: usize = 0;
    while i < a.bounds.len()
        invariant
            i <= a.bounds@.len(),
            depth + 2 <= usize::MAX,
            forall|j: int| 0 <= j < i ==> inline_bound_wf(*db, #[trigger] a.bounds@[j], (depth + 1) as nat),
        decreases a.bounds@.len() - i,
    {
        let b = &a.bounds[i];
        if b.trait_id >= db.traits.len() || !tys_are_wf(&b.args_no_self, depth + 1) {
            return false;
        }
        i = i + 1;
    }
    qwcs_are_wf(db, &a.where_clauses, depth + 1)
}

fn assoc_value_is_wf(db: &Program, v: &AssociatedTyValue, depth: usize) -> (r: bool)
    requires
        depth < usize::MAX,
    ensures
        r == assoc_value_wf(*db, *v, depth as nat),
{
    depth >= 1 && v.impl_id < db.impls.len() && v.associated_ty_id < db.associated_tys.len()
        && db.impls[v.impl_id].binders.len() <= v.binders.len() && ty_is_wf(&v.ty, depth + 1)
}

fn trait_is_wf(db: &Program, t: &TraitDatum, depth: usize) -> (r: bool)
    requires
        depth + 3 <= usize::MAX,
    ensures
        r == trait_wf(*db, *t, depth as nat),
{
    if t.binders.len() < 1 || !qwcs_are_wf(db, &t.where_clauses, depth + 1) {
        return false;
    }
    let mut i: usize = 0;
    while i < t.associated_ty_ids.len()
        invariant
            i <= t.associated_ty_ids@.len(),
            depth + 3 <= usize::MAX,
            forall|j: int| 0 <= j < i ==> {
                let id = #[trigger] t.associated_ty_ids@[j];
                &&& id < db.associated_tys@.len()
                &&& assoc_ty_wf(*db, db.associated_tys@[id as int], (depth + 1) as nat)
            },
        decreases t.associated_ty_ids@.len() - i,
    {
        let id = t.associated_ty_ids[i];
        if id >= db.associated_tys.len() || !assoc_ty_is_wf(db, &db.associated_tys[id], depth + 1) {
            return false;
        }
        i = i + 1;
    }
    true
}

fn impl_is_wf(db: &Program, im: &ImplDatum, depth: usize) -> (r: bool)
    requires
        depth + 3 <= usize::MAX,
    ensures
        r == impl_wf(*db, *im, depth as nat),
{
    let head_ok = im.trait_ref.trait_id < db.traits.len() && im.trait_ref.params.len() >= 1
        && tys_are_wf(&im.trait_ref.params, depth + 1) && qwcs_are_wf(db, &im.where_clauses, depth + 1);
    if !head_ok {
        return false;
    }
    let mut i: usize = 0;
    while i < im.associated_ty_value_ids.len()
        invariant
            i <= im.associated_ty_value_ids@.len(),
            depth + 3 <= usize::MAX,
            forall|j: int| 0 <= j < i ==> {
                let id = #[trigger] im.associated_ty_value_ids@[j];
                &&& id < db.associated_ty_values@.len()
                &&& assoc_value_wf(*db, db.associated_ty_values@[id as int], (depth + 1) as nat)
            },
        decreases im.associated_ty_value_ids@.len() - i,
    {
        let id = im.associated_ty_value_ids[i];
        if id >= db.associated_ty_values.len()
            || !assoc_value_is_wf(db, &db.associated_ty_values[id], depth + 1) {
            return false;
        }
        i = i + 1;
    }
    true
}

/// Whether the declaration exists and is consistent where the driver renders it.
pub fn decl_is_wf(db: &Program, d: DeclId) -> (r: bool)
    ensures
        r == decl_wf(*db, d),
{
    match d {
        DeclId::Adt(i) => i < db.adts.len() && adt_is_wf(db, &db.adts[i], 0),
        DeclId::Trait(i) => i < db.traits.len() && trait_is_wf(db, &db.traits[i], 0),
        DeclId::Impl(i) => i < db.impls.len() && impl_is_wf(db, &db.impls[i], 0),
        DeclId::OpaqueTy(i) => i < db.opaque_tys.len() && opaque_is_wf(db, &db.opaque_tys[i], 0),
        DeclId::AssociatedTy(i) => i < db.associated_tys.len() && assoc_ty_is_wf(db, &db.associated_tys[i], 1),
        DeclId::AssociatedTyValue(i) => i < db.associated_ty_values.len()
            && assoc_value_is_wf(db, &db.associated_ty_values[i], 1),
    }
}

fn decls_are_wf(db: &Program, kind: usize, n: usize, start: Ghost<int>) -> (r: bool)
    requires
        kind < 4,
        n == (if kind == 0 { db.adts@.len() } else if kind == 1 { db.traits@.len() }
            else if kind == 2 { db.impls@.len() } else { db.opaque_tys@.len() }),
        start@ == (if kind == 0 { 0 } else if kind == 1 { db.adts@.len() as int }
            else if kind == 2 { (db.adts@.len() + db.traits@.len()) as int }
            else { (db.adts@.len() + db.traits@.len() + db.impls@.len()) as int }),
    ensures
        r == forall|j: int| start@ <= j < start@ + n ==> decl_wf(*db, #[trigger] top_level_decls(*db)[j]),
{
    let mut i: usize = 0;
    while i < n
        invariant
            i <= n,
            kind < 4,
            n == (if kind == 0 { db.adts@.len() } else if kind == 1 { db.traits@.len() }
                else if kind == 2 { db.impls@.len() } else { db.opaque_tys@.len() }),
            start@ == (if kind == 0 { 0 } else if kind == 1 { db.adts@.len() as int }
                else if kind == 2 { (db.adts@.len() + db.traits@.len()) as int }
                else { (db.adts@.len() + db.traits@.len() + db.impls@.len()) as int }),
            forall|j: int| start@ <= j < start@ + i ==> decl_wf(*db, #[trigger] top_level_decls(*db)[j]),
        decreases n - i,
    {
        let d = if kind == 0 { DeclId::Adt(i) } else if kind == 1 { DeclId::Trait(i) }
            else if kind == 2 { DeclId::Impl(i) } else { DeclId::OpaqueTy(i) };
        assert(top_level_decls(*db)[start@ + i] == d);
        if !decl_is_wf(db, d) {
            return false;
        }
        i = i + 1;
    }
    true
}

/// Whether every top-level declaration of the program is consistent.
pub fn program_is_wf(db: &Program) -> (r: bool)
    ensures
        r == program_wf(*db),
{
    let a = db.adts.len();
    let t = db.traits.len();
    let i = db.impls.len();
    let ok = decls_are_wf(db, 0, a, Ghost(0))
        && decls_are_wf(db, 1, t, Ghost(a as int))
        && decls_are_wf(db, 2, i, Ghost(a as int + t as int))
        && decls_are_wf(db, 3, db.opaque_tys.len(), Ghost(a as int + t as int + i as int));
    assert(top_level_decls(*db).len() == a + t + i + db.opaque_tys@.len());
    ok
}

/// Renders one declaration, or gives `None` when it is missing or
/// inconsistent (a bound variable out of scope, an unknown identifier, a
/// copied parameter list longer than the item's).
pub fn render_declaration_checked(db: &Program, d: DeclId) -> (r: Option<String>)
    ensures
        r.is_some() == decl_wf(*db, d),
        r matches Some(s) ==> s@ == decl_text(*db, d),
{
    if decl_is_wf(db, d) {
        Some(render_declaration(db, d))
    } else {
        None
    }
}

/// Renders the whole program, or gives `None` when one of its top-level
/// declarations is inconsistent.
pub fn render_program_checked(db: &Program) -> (r: Option<String>)
    ensures
        r.is_some() == program_wf(*db),
        r matches Some(s) ==> s@ == program_text(*db),
{
    if program_is_wf(db) {
        Some(render_program(db))
    } else {
        None
    }
}

} // verus!
