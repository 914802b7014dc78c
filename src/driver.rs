//! The entry points: render one declaration, or every top-level declaration
//! of a program, from the top-level scope.
use vstd::prelude::*;
use crate::decls::{
    adt_text, adt_wf, assoc_ty_text, assoc_ty_wf, assoc_value_text, assoc_value_wf, impl_text,
    impl_wf, opaque_text, opaque_wf, render_adt, render_assoc_ty, render_assoc_value, render_impl,
    render_opaque_ty, render_trait, trait_text, trait_wf,
};
use crate::ir::{DeclId, Program};
use crate::state::{Scope, WriterState};
use crate::text::{join_with, joined, views};

verus! {

/// The scope at the top of a program: no binder, no indentation.
pub open spec fn root_scope() -> Scope {
    Scope { depth: 0, indent: 0, self_var: None, remapping: Seq::empty() }
}

/// The declaration exists and is well formed where the driver renders it:
/// associated items in the scope of their owner.
pub open spec fn decl_wf(db: Program, d: DeclId) -> bool {
    match d {
        DeclId::Adt(i) => i < db.adts@.len() && adt_wf(db, db.adts@[i as int], 0),
        DeclId::Trait(i) => i < db.traits@.len() && trait_wf(db, db.traits@[i as int], 0),
        DeclId::Impl(i) => i < db.impls@.len() && impl_wf(db, db.impls@[i as int], 0),
        DeclId::OpaqueTy(i) => i < db.opaque_tys@.len() && opaque_wf(db, db.opaque_tys@[i as int], 0),
        DeclId::AssociatedTy(i) => i < db.associated_tys@.len()
            && assoc_ty_wf(db, db.associated_tys@[i as int], 1),
        DeclId::AssociatedTyValue(i) => i < db.associated_ty_values@.len()
            && assoc_value_wf(db, db.associated_ty_values@[i as int], 1),
    }
}

/// The text of a declaration. An associated type is rendered in the scope of
/// an interface, an associated type value in that of an implementation.
pub open spec fn decl_text(db: Program, d: DeclId) -> Seq<char> {
    match d {
        DeclId::Adt(i) => adt_text(db, root_scope(), db.adts@[i as int]),
        DeclId::Trait(i) => trait_text(db, root_scope(), db.traits@[i as int]),
        DeclId::Impl(i) => impl_text(db, root_scope(), db.impls@[i as int]),
        DeclId::OpaqueTy(i) => opaque_text(db, root_scope(), db.opaque_tys@[i as int]),
        DeclId::AssociatedTy(i) => assoc_ty_text(db, root_scope().enter(Some(0)), db.associated_tys@[i as int]),
        DeclId::AssociatedTyValue(i) => assoc_value_text(
            db,
            root_scope().enter(None),
            db.associated_ty_values@[i as int],
        ),
    }
}

/// Renders one declaration of the program.
pub fn render_declaration(db: &Program, d: DeclId) -> (r: String)
    requires
        decl_wf(*db, d),
    ensures
        r@ == decl_text(*db, d),
{
    let root = WriterState::new();
    match d {
        DeclId::Adt(i) => render_adt(db, &root, &db.adts[i]),
        DeclId::Trait(i) => render_trait(db, &root, &db.traits[i]),
        DeclId::Impl(i) => render_impl(db, &root, &db.impls[i]),
        DeclId::OpaqueTy(i) => render_opaque_ty(db, &root, &db.opaque_tys[i]),
        DeclId::AssociatedTy(i) => {
            let owner = root.add_debruijn_index(Some(0));
            render_assoc_ty(db, &owner, &db.associated_tys[i])
        },
        DeclId::AssociatedTyValue(i) => {
            let owner = root.add_debruijn_index(None);
            render_assoc_value(db, &owner, &db.associated_ty_values[i])
        },
    }
}

/// The program's top-level declarations: records, interfaces,
/// implementations, then opaque types, each in the order of its list.
pub open spec fn top_level_decls(db: Program) -> Seq<DeclId> {
    Seq::new(db.adts@.len(), |i: int| DeclId::Adt(i as usize))
        + Seq::new(db.traits@.len(), |i: int| DeclId::Trait(i as usize))
        + Seq::new(db.impls@.len(), |i: int| DeclId::Impl(i as usize))
        + Seq::new(db.opaque_tys@.len(), |i: int| DeclId::OpaqueTy(i as usize))
}

pub open spec fn program_wf(db: Program) -> bool {
    forall|i: int| 0 <= i < top_level_decls(db).len() ==> decl_wf(db, #[trigger] top_level_decls(db)[i])
}

/// The text of a program: its top-level declarations, one after another,
/// separated by newlines.
pub open spec fn program_text(db: Program) -> Seq<char> {
    let ds = top_level_decls(db);
    joined(Seq::new(ds.len(), |i: int| decl_text(db, ds[i])), seq!['\n'])
}

fn push_decls(db: &Program, parts: &mut Vec<String>, kind: usize, n: usize)
    requires
        kind < 4,
        program_wf(*db),
        views(old(parts)@) =~= Seq::new(old(parts)@.len(), |i: int| decl_text(*db, top_level_decls(*db)[i])),
        n == (if kind == 0 { db.adts@.len() } else if kind == 1 { db.traits@.len() }
            else if kind == 2 { db.impls@.len() } else { db.opaque_tys@.len() }),
        old(parts)@.len() == (if kind == 0 { 0 } else if kind == 1 { db.adts@.len() }
            else if kind == 2 { db.adts@.len() + db.traits@.len() }
            else { db.adts@.len() + db.traits@.len() + db.impls@.len() }),
    ensures
        final(parts)@.len() == old(parts)@.len() + n,
        views(final(parts)@) =~= Seq::new(final(parts)@.len(), |i: int| decl_text(*db, top_level_decls(*db)[i])),
{
    let ghost start = parts@.len();
    let mut j: usize = 0;
    while j < n
        invariant
            j <= n,
            kind < 4,
            program_wf(*db),
            n == (if kind == 0 { db.adts@.len() } else if kind == 1 { db.traits@.len() }
                else if kind == 2 { db.impls@.len() } else { db.opaque_tys@.len() }),
            start == (if kind == 0 { 0 } else if kind == 1 { db.adts@.len() }
                else if kind == 2 { db.adts@.len() + db.traits@.len() }
                else { db.adts@.len() + db.traits@.len() + db.impls@.len() }),
            parts@.len() == start + j,
            views(parts@) =~= Seq::new(parts@.len(), |i: int| decl_text(*db, top_level_decls(*db)[i])),
        decreases n - j,
    {
        let d = if kind == 0 { DeclId::Adt(j) } else if kind == 1 { DeclId::Trait(j) }
            else if kind == 2 { DeclId::Impl(j) } else { DeclId::OpaqueTy(j) };
        assert(top_level_decls(*db)[start + j] == d);
        assert(decl_wf(*db, top_level_decls(*db)[start + j]));
        let text = render_declaration(db, d);
        let ghost before = parts@;
        parts.push(text);
        assert(views(parts@) =~= views(before).push(text@));
        j = j + 1;
    }
}

/// Renders every top-level declaration of the program, separated by newlines.
pub fn render_program(db: &Program) -> (r: String)
    requires
        program_wf(*db),
    ensures
        r@ == program_text(*db),
{
    let mut parts: Vec<String> = Vec::new();
    push_decls(db, &mut parts, 0, db.adts.len());
    push_decls(db, &mut parts, 1, db.traits.len());
    push_decls(db, &mut parts, 2, db.impls.len());
    push_decls(db, &mut parts, 3, db.opaque_tys.len());
    proof {
        reveal_strlit("\n");
        assert("\n"@ =~= seq!['\n']);
    }
    join_with(&parts, "\n")
}

} // verus!
