//! Rendering of types, where-clauses and declarations, each against a
//! spec function that states the text it produces.
use vstd::prelude::*;
use crate::ir::{
    VariableKind, Program, QuantifiedWhereClause, TraitRef, Ty, ty_wf,
};
use crate::state::{InvertedVar, Scope, WriterState};
use crate::text::{indentation, join_with, joined, views};

verus! {

broadcast use vstd::std_specs::vec::group_vec_axioms;

pub open spec fn comma_sep() -> Seq<char> {
    seq![',', ' ']
}

/// A non-empty generics list in angle brackets; nothing for an empty one.
pub open spec fn generics_text(names: Seq<Seq<char>>) -> Seq<char> {
    if names.len() == 0 {
        Seq::empty()
    } else {
        seq!['<'] + joined(names, comma_sep()) + seq!['>']
    }
}

/// The text of type `t` in scope `sc`.
pub open spec fn ty_text(sc: Scope, t: Ty) -> Seq<char>
    decreases t, 0nat,
{
    match t {
        Ty::BoundVar { debruijn, index } => sc.display_bound(debruijn as nat, index as nat),
        Ty::Apply { name, args } => name@ + generics_text(texts_upto(sc, args@, args@.len())),
        Ty::FnPtr { params } => seq!['f', 'n', '('] + joined(
            texts_upto(sc, params@, params@.len()),
            comma_sep(),
        ) + seq![')'],
    }
}

/// The texts of the first `n` types of `ts` in scope `sc`, in order.
pub open spec fn texts_upto(sc: Scope, ts: Seq<Ty>, n: nat) -> Seq<Seq<char>>
    decreases ts, n,
{
    if n == 0 || n > ts.len() {
        Seq::empty()
    } else {
        texts_upto(sc, ts, (n - 1) as nat).push(ty_text(sc, ts[n - 1]))
    }
}

/// The texts of the types `ts` in scope `sc`, in order.
pub open spec fn tys_texts(sc: Scope, ts: Seq<Ty>) -> Seq<Seq<char>> {
    texts_upto(sc, ts, ts.len())
}

pub open spec fn tys_wf(ts: Seq<Ty>, depth: nat) -> bool {
    forall|i: int| 0 <= i < ts.len() ==> ty_wf(#[trigger] ts[i], depth)
}

pub(crate) fn generics_string(names: &Vec<String>) -> (r: String)
    ensures
        r@ == generics_text(views(names@)),
{
    if names.len() == 0 {
        String::new()
    } else {
        proof {
            reveal_strlit("<");
            reveal_strlit(", ");
            reveal_strlit(">");
            assert(", "@ =~= comma_sep());
        }
        let mut r = String::from_str("<");
        r.append(join_with(names, ", ").as_str());
        r.append(">");
        assert(r@ =~= generics_text(views(names@)));
        r
    }
}

fn render_tys(st: &WriterState, ts: &Vec<Ty>) -> (r: Vec<String>)
    requires
        tys_wf(ts@, st.depth as nat),
    ensures
        views(r@) == tys_texts(st@, ts@),
    decreases ts, 0nat,
{
    let mut r: Vec<String> = Vec::new();
    let mut i: usize = 0;
    while i < ts.len()
        invariant
            i <= ts@.len(),
            tys_wf(ts@, st.depth as nat),
            views(r@) == texts_upto(st@, ts@, i as nat),
        decreases ts@.len() - i,
    {
        proof { vstd::std_specs::vec::axiom_vec_index_decreases(*ts, i as int); }
        let text = render_ty(st, &ts[i]);
        let ghost before = r@;
        r.push(text);
        assert(views(r@) =~= views(before).push(text@));
        assert(views(r@) =~= texts_upto(st@, ts@, (i + 1) as nat));
        i = i + 1;
    }
    r
}

/// Writes type `t` in the scope of `st`.
pub fn render_ty(st: &WriterState, t: &Ty) -> (r: String)
    requires
        ty_wf(*t, st.depth as nat),
    ensures
        r@ == ty_text(st@, *t),
    decreases t, 1nat,
{
    match t {
        Ty::BoundVar { debruijn, index } => {
            st.display_var(InvertedVar { level: st.depth - 1 - *debruijn, index: *index })
        },
        Ty::Apply { name, args } => {
            assert(tys_wf(args@, st.depth as nat));
            let parts = render_tys(st, args);
            let mut r = name.clone();
            r.append(generics_string(&parts).as_str());
            assert(r@ =~= ty_text(st@, *t));
            r
        },
        Ty::FnPtr { params } => {
            assert(tys_wf(params@, st.depth as nat));
            let parts = render_tys(st, params);
            proof {
                reveal_strlit("fn(");
                reveal_strlit(", ");
                reveal_strlit(")");
                assert(", "@ =~= comma_sep());
            }
            let mut r = String::from_str("fn(");
            r.append(join_with(&parts, ", ").as_str());
            r.append(")");
            assert(r@ =~= ty_text(st@, *t));
            r
        },
    }
}

/// The texts of the first `n` types are those types' texts.
pub proof fn lemma_texts_upto(sc: Scope, ts: Seq<Ty>, n: nat)
    requires
        n <= ts.len(),
    ensures
        texts_upto(sc, ts, n).len() == n,
        forall|i: int| 0 <= i < n ==> #[trigger] texts_upto(sc, ts, n)[i] == ty_text(sc, ts[i]),
    decreases n,
{
    if n > 0 {
        lemma_texts_upto(sc, ts, (n - 1) as nat);
    }
}

pub open spec fn interface_name(db: Program, trait_id: usize) -> Seq<char> {
    db.traits@[trait_id as int].name@
}

/// An interface's name with the texts of the given parameters as its generics.
pub open spec fn trait_with_generics(db: Program, sc: Scope, trait_id: usize, args: Seq<Ty>) -> Seq<char> {
    interface_name(db, trait_id) + generics_text(tys_texts(sc, args))
}

/// `forall<...> ` over the innermost binder of `sc`, whose parameters are of
/// the given kinds; nothing when it has none.
pub open spec fn forall_prefix(sc: Scope, kinds: Seq<VariableKind>) -> Seq<char> {
    if kinds.len() == 0 {
        Seq::empty()
    } else {
        seq!['f', 'o', 'r', 'a', 'l', 'l', '<'] + joined(sc.binder_names(kinds), comma_sep()) + seq!['>', ' ']
    }
}

/// The text of a where-clause: the implementing type, a colon, the interface.
pub open spec fn trait_ref_text(db: Program, sc: Scope, tr: TraitRef) -> Seq<char> {
    ty_text(sc, tr.params@[0]) + seq![':', ' '] + trait_with_generics(db, sc, tr.trait_id, tr.params@.skip(1))
}

/// A where-clause under its own binder.
pub open spec fn qwc_text(db: Program, sc: Scope, q: QuantifiedWhereClause) -> Seq<char> {
    let inner = sc.enter(None);
    forall_prefix(inner, q.binders@) + trait_ref_text(db, inner, q.trait_ref)
}

/// A where-clause read as a bound on the implicit self: the interface alone.
pub open spec fn qwc_bound_text(db: Program, sc: Scope, q: QuantifiedWhereClause) -> Seq<char> {
    let inner = sc.enter(None);
    forall_prefix(inner, q.binders@)
        + trait_with_generics(db, inner, q.trait_ref.trait_id, q.trait_ref.params@.skip(1))
}

pub open spec fn line_sep() -> Seq<char> {
    seq![',', '\n']
}

pub open spec fn plus_sep() -> Seq<char> {
    seq![' ', '+', ' ']
}

/// Where-clauses one per line, each indented, separated by commas.
pub open spec fn where_clauses_text(db: Program, sc: Scope, wcs: Seq<QuantifiedWhereClause>) -> Seq<char> {
    joined(Seq::new(wcs.len(), |i: int| indentation(sc.indent) + qwc_text(db, sc, wcs[i])), line_sep())
}

/// Bounds on the implicit self, joined by `+`.
pub open spec fn bounds_text(db: Program, sc: Scope, bounds: Seq<QuantifiedWhereClause>) -> Seq<char> {
    joined(Seq::new(bounds.len(), |i: int| qwc_bound_text(db, sc, bounds[i])), plus_sep())
}

/// What follows a declaration's header: a `where` block, one level further
/// in, when there are where-clauses; a single space when there are none.
pub open spec fn where_block(db: Program, sc: Scope, wcs: Seq<QuantifiedWhereClause>) -> Seq<char> {
    if wcs.len() == 0 {
        seq![' ']
    } else {
        seq!['\n', 'w', 'h', 'e', 'r', 'e', '\n'] + where_clauses_text(db, sc.indented(), wcs) + seq!['\n']
    }
}

/// The interface of a where-clause is known and its parameters, the
/// implementing type first, are in scope under one more binder.
pub open spec fn qwc_wf(db: Program, q: QuantifiedWhereClause, depth: nat) -> bool {
    &&& q.trait_ref.trait_id < db.traits@.len()
    &&& q.trait_ref.params@.len() >= 1
    &&& tys_wf(q.trait_ref.params@, depth + 1)
}

pub open spec fn qwcs_wf(db: Program, wcs: Seq<QuantifiedWhereClause>, depth: nat) -> bool {
    forall|i: int| 0 <= i < wcs.len() ==> qwc_wf(db, #[trigger] wcs[i], depth)
}

pub(crate) fn trait_with_generics_string(db: &Program, st: &WriterState, trait_id: usize, params: &Vec<Ty>, skip_self: bool) -> (r: String)
    requires
        trait_id < db.traits@.len(),
        tys_wf(params@, st.depth as nat),
        skip_self ==> params@.len() >= 1,
    ensures
        r@ == trait_with_generics(*db, st@, trait_id, if skip_self { params@.skip(1) } else { params@ }),
{
    let mut parts = render_tys(st, params);
    proof { lemma_texts_upto(st@, params@, params@.len()); }
    if skip_self {
        let ghost before = parts@;
        parts.remove(0);
        proof {
            let rest = params@.skip(1);
            lemma_texts_upto(st@, rest, rest.len());
            assert(parts@ =~= before.subrange(1, before.len() as int));
            assert forall|i: int| 0 <= i < rest.len() implies views(parts@)[i] == tys_texts(st@, rest)[i] by {
                assert(rest[i] == params@[i + 1]);
                assert(views(before)[i + 1] == before[i + 1]@);
            }
            assert(views(parts@) =~= tys_texts(st@, rest));
        }
    }
    let mut r = db.traits[trait_id].name.clone();
    r.append(generics_string(&parts).as_str());
    r
}

fn forall_prefix_string(st: &WriterState, kinds: &Vec<VariableKind>) -> (r: String)
    requires
        st.depth >= 1,
    ensures
        r@ == forall_prefix(st@, kinds@),
{
    if kinds.len() == 0 {
        String::new()
    } else {
        proof {
            reveal_strlit("forall<");
            reveal_strlit(", ");
            reveal_strlit("> ");
            assert(", "@ =~= comma_sep());
        }
        let names = st.binder_var_display(kinds);
        let mut r = String::from_str("forall<");
        r.append(join_with(&names, ", ").as_str());
        r.append("> ");
        assert(r@ =~= forall_prefix(st@, kinds@));
        r
    }
}

/// Writes a where-clause under its own binder.
pub fn render_qwc(db: &Program, st: &WriterState, q: &QuantifiedWhereClause) -> (r: String)
    requires
        st.depth < usize::MAX,
        qwc_wf(*db, *q, st.depth as nat),
    ensures
        r@ == qwc_text(*db, st@, *q),
{
    let inner = st.add_debruijn_index(None);
    let mut r = forall_prefix_string(&inner, &q.binders);
    proof { vstd::std_specs::vec::axiom_vec_index_decreases(q.trait_ref.params, 0); }
    r.append(render_ty(&inner, &q.trait_ref.params[0]).as_str());
    proof { reveal_strlit(": "); }
    r.append(": ");
    r.append(trait_with_generics_string(db, &inner, q.trait_ref.trait_id, &q.trait_ref.params, true).as_str());
    assert(r@ =~= qwc_text(*db, st@, *q));
    r
}

/// Writes a where-clause as a bound on the implicit self.
fn render_qwc_bound(db: &Program, st: &WriterState, q: &QuantifiedWhereClause) -> (r: String)
    requires
        st.depth < usize::MAX,
        qwc_wf(*db, *q, st.depth as nat),
    ensures
        r@ == qwc_bound_text(*db, st@, *q),
{
    let inner = st.add_debruijn_index(None);
    let mut r = forall_prefix_string(&inner, &q.binders);
    r.append(trait_with_generics_string(db, &inner, q.trait_ref.trait_id, &q.trait_ref.params, true).as_str());
    assert(r@ =~= qwc_bound_text(*db, st@, *q));
    r
}

/// Writes where-clauses one per line, each indented.
pub fn render_where_clauses(db: &Program, st: &WriterState, wcs: &Vec<QuantifiedWhereClause>) -> (r: String)
    requires
        st.depth < usize::MAX,
        qwcs_wf(*db, wcs@, st.depth as nat),
    ensures
        r@ == where_clauses_text(*db, st@, wcs@),
{
    let mut parts: Vec<String> = Vec::new();
    let mut i: usize = 0;
    while i < wcs.len()
        invariant
            i <= wcs@.len(),
            st.depth < usize::MAX,
            qwcs_wf(*db, wcs@, st.depth as nat),
            views(parts@) =~= Seq::new(i as nat, |j: int| indentation(st@.indent) + qwc_text(*db, st@, wcs@[j])),
        decreases wcs@.len() - i,
    {
        let mut line = st.indent_text();
        line.append(render_qwc(db, st, &wcs[i]).as_str());
        let ghost before = parts@;
        parts.push(line);
        assert(views(parts@) =~= views(before).push(line@));
        i = i + 1;
    }
    proof {
        reveal_strlit(",\n");
        assert(",\n"@ =~= line_sep());
    }
    join_with(&parts, ",\n")
}

/// Writes bounds on the implicit self joined by `+`.
pub fn render_bounds(db: &Program, st: &WriterState, bounds: &Vec<QuantifiedWhereClause>) -> (r: String)
    requires
        st.depth < usize::MAX,
        qwcs_wf(*db, bounds@, st.depth as nat),
    ensures
        r@ == bounds_text(*db, st@, bounds@),
{
    let mut parts: Vec<String> = Vec::new();
    let mut i: usize = 0;
    while i < bounds.len()
        invariant
            i <= bounds@.len(),
            st.depth < usize::MAX,
            qwcs_wf(*db, bounds@, st.depth as nat),
            views(parts@) =~= Seq::new(i as nat, |j: int| qwc_bound_text(*db, st@, bounds@[j])),
        decreases bounds@.len() - i,
    {
        let b = render_qwc_bound(db, st, &bounds[i]);
        let ghost before = parts@;
        parts.push(b);
        assert(views(parts@) =~= views(before).push(b@));
        i = i + 1;
    }
    proof {
        reveal_strlit(" + ");
        assert(" + "@ =~= plus_sep());
    }
    join_with(&parts, " + ")
}

/// Writes what follows a declaration's header: a `where` block or a space.
pub fn render_where_block(db: &Program, st: &WriterState, wcs: &Vec<QuantifiedWhereClause>) -> (r: String)
    requires
        st.depth < usize::MAX,
        st.indent < usize::MAX,
        qwcs_wf(*db, wcs@, st.depth as nat),
    ensures
        r@ == where_block(*db, st@, wcs@),
{
    if wcs.len() == 0 {
        proof { reveal_strlit(" "); }
        let r = String::from_str(" ");
        assert(r@ =~= seq![' ']);
        r
    } else {
        let inner = st.add_indent();
        proof {
            reveal_strlit("\nwhere\n");
            reveal_strlit("\n");
        }
        let mut r = String::from_str("\nwhere\n");
        r.append(render_where_clauses(db, &inner, wcs).as_str());
        r.append("\n");
        assert(r@ =~= where_block(*db, st@, wcs@));
        r
    }
}

} // verus!
