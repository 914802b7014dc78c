//! Rendering of the six kinds of declaration, and the driver that picks one.
use vstd::prelude::*;
use crate::ir::{
    VariableKind, AdtDatum, AssociatedTyDatum, AssociatedTyValue, ImplDatum, InlineBound,
    OpaqueTyDatum, Polarity, Program, TraitDatum, TraitFlags, ty_wf,
};
use crate::render::{
    generics_string, bounds_text, generics_text, plus_sep, qwcs_wf, render_bounds, render_ty,
    render_where_block, render_where_clauses, trait_with_generics, ty_text, tys_wf,
    where_block, where_clauses_text,
};
use crate::state::{Scope, WriterState, split_params, var_pairs};
use crate::text::{decimal, decimal_string, indentation, join_with, joined, views};

verus! {

/// Room for `n` more binders and `n` more indentation levels.
pub open spec fn room(sc: Scope, n: nat) -> bool {
    sc.depth + n <= usize::MAX && sc.indent + n <= usize::MAX
}

/// A newline, the parts joined by `sep`, a newline; nothing for no parts.
pub open spec fn body_text(parts: Seq<Seq<char>>, sep: Seq<char>) -> Seq<char> {
    if parts.len() == 0 {
        Seq::empty()
    } else {
        seq!['\n'] + joined(parts, sep) + seq!['\n']
    }
}

fn body_string(parts: &Vec<String>, sep: &str) -> (r: String)
    ensures
        r@ == body_text(views(parts@), sep@),
{
    if parts.len() == 0 {
        String::new()
    } else {
        proof { reveal_strlit("\n"); }
        let mut r = String::from_str("\n");
        r.append(join_with(parts, sep).as_str());
        r.append("\n");
        assert(r@ =~= body_text(views(parts@), sep@));
        r
    }
}

// ---------------------------------------------------------------- records

pub open spec fn adt_wf(db: Program, a: AdtDatum, depth: nat) -> bool {
    &&& tys_wf(a.fields@, depth + 1)
    &&& qwcs_wf(db, a.where_clauses@, depth + 1)
}

/// One field line: `field_<index>: <type>`, indented.
pub open spec fn field_text(sc: Scope, a: AdtDatum, i: int) -> Seq<char> {
    indentation(sc.indent) + seq!['f', 'i', 'e', 'l', 'd', '_'] + decimal(i as nat) + seq![':', ' ']
        + ty_text(sc, a.fields@[i])
}

/// The text of a record type declaration.
pub open spec fn adt_text(db: Program, sc: Scope, a: AdtDatum) -> Seq<char> {
    let s = sc.enter(None);
    let body = s.indented();
    seq!['s', 't', 'r', 'u', 'c', 't', ' '] + a.name@ + generics_text(s.binder_names(a.binders@))
        + where_block(db, s, a.where_clauses@) + seq!['{']
        + body_text(Seq::new(a.fields@.len(), |i: int| field_text(body, a, i)), seq![',', '\n'])
        + seq!['}']
}

/// Writes a record type declaration.
pub fn render_adt(db: &Program, st: &WriterState, a: &AdtDatum) -> (r: String)
    requires
        room(st@, 2),
        adt_wf(*db, *a, st.depth as nat),
    ensures
        r@ == adt_text(*db, st@, *a),
{
    let s = st.add_debruijn_index(None);
    proof { reveal_strlit("struct "); }
    let mut r = String::from_str("struct ");
    r.append(a.name.as_str());
    r.append(generics_string(&s.binder_var_display(&a.binders)).as_str());
    r.append(render_where_block(db, &s, &a.where_clauses).as_str());
    proof { reveal_strlit("{"); }
    r.append("{");
    let body = s.add_indent();
    let mut lines: Vec<String> = Vec::new();
    let mut i: usize = 0;
    while i < a.fields.len()
        invariant
            i <= a.fields@.len(),
            body@ == s@.indented(),
            s@ == st@.enter(None),
            adt_wf(*db, *a, st.depth as nat),
            views(lines@) =~= Seq::new(i as nat, |j: int| field_text(body@, *a, j)),
        decreases a.fields@.len() - i,
    {
        let mut line = body.indent_text();
        proof {
            reveal_strlit("field_");
            reveal_strlit(": ");
        }
        line.append("field_");
        line.append(decimal_string(i).as_str());
        line.append(": ");
        line.append(render_ty(&body, &a.fields[i]).as_str());
        assert(line@ =~= field_text(body@, *a, i as int));
        let ghost before = lines@;
        lines.push(line);
        assert(views(lines@) =~= views(before).push(line@));
        i = i + 1;
    }
    proof {
        reveal_strlit(",\n");
        reveal_strlit("}");
        assert(",\n"@ =~= seq![',', '\n']);
    }
    r.append(body_string(&lines, ",\n").as_str());
    r.append("}");
    assert(r@ =~= adt_text(*db, st@, *a));
    r
}

// ---------------------------------------------------------------- opaque types

pub open spec fn opaque_wf(db: Program, o: OpaqueTyDatum, depth: nat) -> bool {
    &&& qwcs_wf(db, o.bounds@, depth + 2)
    &&& ty_wf(o.hidden_ty, depth + 1)
}

/// The text of an opaque type declaration: its bounds stand in a scope with
/// the implicit self reintroduced.
pub open spec fn opaque_text(db: Program, sc: Scope, o: OpaqueTyDatum) -> Seq<char> {
    let s = sc.enter(None);
    seq!['o', 'p', 'a', 'q', 'u', 'e', ' ', 't', 'y', 'p', 'e', ' '] + o.name@
        + generics_text(s.binder_names(o.binders@)) + seq![':', ' ']
        + bounds_text(db, s.enter(Some(0)), o.bounds@) + seq![' ', '=', ' ']
        + ty_text(s, o.hidden_ty) + seq![';']
}

/// Writes an opaque type declaration.
pub fn render_opaque_ty(db: &Program, st: &WriterState, o: &OpaqueTyDatum) -> (r: String)
    requires
        room(st@, 3),
        opaque_wf(*db, *o, st.depth as nat),
    ensures
        r@ == opaque_text(*db, st@, *o),
{
    let s = st.add_debruijn_index(None);
    proof {
        reveal_strlit("opaque type ");
        reveal_strlit(": ");
        reveal_strlit(" = ");
        reveal_strlit(";");
    }
    let mut r = String::from_str("opaque type ");
    r.append(o.name.as_str());
    r.append(generics_string(&s.binder_var_display(&o.binders)).as_str());
    r.append(": ");
    let with_self = s.add_debruijn_index(Some(0));
    r.append(render_bounds(db, &with_self, &o.bounds).as_str());
    r.append(" = ");
    r.append(render_ty(&s, &o.hidden_ty).as_str());
    r.append(";");
    assert(r@ =~= opaque_text(*db, st@, *o));
    r
}

// ---------------------------------------------------------------- associated items

/// The scope of an associated item in scope `sc` of its owner, which has
/// `k` parameters: one binder deeper, with the item's first `k` parameters,
/// the copied ones, displaying as the owner's.
pub open spec fn assoc_scope(sc: Scope, n: nat, k: nat) -> Scope {
    let s = sc.enter(None);
    s.with_mapping(s.binder_vars(n).subrange(0, k as int), sc.binder_vars(k))
}

/// How an associated item's own parameters are listed; `kinds` are the
/// kinds of all its parameters.
pub open spec fn own_names(sc: Scope, kinds: Seq<VariableKind>, k: nat) -> Seq<Seq<char>> {
    assoc_scope(sc, kinds.len(), k).binder_names(kinds).subrange(k as int, kinds.len() as int)
}

/// Derives the scope of an associated item with parameters of the given
/// kinds, whose first `k` are a copy of its owner's, and the list of its
/// own parameters.
fn enter_assoc_scope(st: &WriterState, kinds: &Vec<VariableKind>, k: usize) -> (r: (WriterState, Vec<String>))
    requires
        room(st@, 1),
        st.depth >= 1,
        k <= kinds@.len(),
    ensures
        r.0@ == assoc_scope(st@, kinds@.len(), k as nat),
        views(r.1@) == own_names(st@, kinds@, k as nat),
{
    let n = kinds.len();
    let owner_params = st.binder_var_indices(k);
    let s = st.add_debruijn_index(None);
    let local = s.binder_var_indices(n);
    let (copied, _own) = split_params(local, k);
    proof {
        assert(var_pairs(copied@) =~= s@.binder_vars(n as nat).subrange(0, k as int));
    }
    let mapped = s.add_parameter_mapping(&copied, &owner_params);
    let names = mapped.binder_var_display(kinds);
    let ghost all = names@;
    let (_copied_names, own) = split_params(names, k);
    proof {
        assert(views(own@) =~= views(all).subrange(k as int, n as int));
    }
    (mapped, own)
}

pub open spec fn inline_bound_wf(db: Program, b: InlineBound, depth: nat) -> bool {
    &&& b.trait_id < db.traits@.len()
    &&& tys_wf(b.args_no_self@, depth)
}

pub open spec fn assoc_ty_wf(db: Program, a: AssociatedTyDatum, depth: nat) -> bool {
    &&& depth >= 1
    &&& a.trait_id < db.traits@.len()
    &&& db.traits@[a.trait_id as int].binders@.len() <= a.binders@.len()
    &&& forall|i: int| 0 <= i < a.bounds@.len() ==> inline_bound_wf(db, #[trigger] a.bounds@[i], depth + 1)
    &&& qwcs_wf(db, a.where_clauses@, depth + 1)
}

pub open spec fn inline_bound_text(db: Program, sc: Scope, b: InlineBound) -> Seq<char> {
    trait_with_generics(db, sc, b.trait_id, b.args_no_self@)
}

/// The text of an associated type declaration, in the scope of its interface.
pub open spec fn assoc_ty_text(db: Program, sc: Scope, a: AssociatedTyDatum) -> Seq<char> {
    let k = db.traits@[a.trait_id as int].binders@.len();
    let s = assoc_scope(sc, a.binders@.len(), k);
    seq!['t', 'y', 'p', 'e', ' '] + a.name@ + generics_text(own_names(sc, a.binders@, k))
        + (if a.bounds@.len() == 0 { Seq::empty() } else { seq![':', ' '] })
        + joined(Seq::new(a.bounds@.len(), |i: int| inline_bound_text(db, s, a.bounds@[i])), plus_sep())
        + (if a.where_clauses@.len() == 0 {
            Seq::empty()
        } else {
            seq!['\n'] + indentation(s.indent) + seq!['w', 'h', 'e', 'r', 'e', '\n']
                + where_clauses_text(db, s.indented(), a.where_clauses@)
        })
        + seq![';']
}

/// Writes an associated type declaration, in the scope of its interface.
pub fn render_assoc_ty(db: &Program, st: &WriterState, a: &AssociatedTyDatum) -> (r: String)
    requires
        room(st@, 2),
        assoc_ty_wf(*db, *a, st.depth as nat),
    ensures
        r@ == assoc_ty_text(*db, st@, *a),
{
    let k = db.traits[a.trait_id].binders.len();
    let (s, own) = enter_assoc_scope(st, &a.binders, k);
    proof {
        reveal_strlit("type ");
        reveal_strlit(": ");
        reveal_strlit(" + ");
        reveal_strlit("\n");
        reveal_strlit("where\n");
        reveal_strlit(";");
        assert(" + "@ =~= plus_sep());
    }
    let mut r = String::from_str("type ");
    r.append(a.name.as_str());
    r.append(generics_string(&own).as_str());
    if a.bounds.len() > 0 {
        r.append(": ");
    }
    let mut parts: Vec<String> = Vec::new();
    let mut i: usize = 0;
    while i < a.bounds.len()
        invariant
            i <= a.bounds@.len(),
            assoc_ty_wf(*db, *a, st.depth as nat),
            s.depth == st.depth + 1,
            views(parts@) =~= Seq::new(i as nat, |j: int| inline_bound_text(*db, s@, a.bounds@[j])),
        decreases a.bounds@.len() - i,
    {
        let b = &a.bounds[i];
        assert(inline_bound_wf(*db, *b, (st.depth + 1) as nat));
        let text = crate::render::trait_with_generics_string(db, &s, b.trait_id, &b.args_no_self, false);
        let ghost before = parts@;
        parts.push(text);
        assert(views(parts@) =~= views(before).push(text@));
        i = i + 1;
    }
    r.append(join_with(&parts, " + ").as_str());
    if a.where_clauses.len() > 0 {
        r.append("\n");
        r.append(s.indent_text().as_str());
        r.append("where\n");
        let inner = s.add_indent();
        r.append(render_where_clauses(db, &inner, &a.where_clauses).as_str());
    }
    r.append(";");
    assert(r@ =~= assoc_ty_text(*db, st@, *a));
    r
}

pub open spec fn assoc_value_wf(db: Program, v: AssociatedTyValue, depth: nat) -> bool {
    &&& depth >= 1
    &&& v.impl_id < db.impls@.len()
    &&& v.associated_ty_id < db.associated_tys@.len()
    &&& db.impls@[v.impl_id as int].binders@.len() <= v.binders@.len()
    &&& ty_wf(v.ty, depth + 1)
}

/// The text of an associated type value, indented, in the scope of its implementation.
pub open spec fn assoc_value_text(db: Program, sc: Scope, v: AssociatedTyValue) -> Seq<char> {
    let k = db.impls@[v.impl_id as int].binders@.len();
    let s = assoc_scope(sc, v.binders@.len(), k);
    indentation(s.indent) + seq!['t', 'y', 'p', 'e', ' ']
        + db.associated_tys@[v.associated_ty_id as int].name@
        + generics_text(own_names(sc, v.binders@, k)) + seq![' ', '=', ' ']
        + ty_text(s, v.ty) + seq![';']
}

/// Writes an associated type value, in the scope of its implementation.
pub fn render_assoc_value(db: &Program, st: &WriterState, v: &AssociatedTyValue) -> (r: String)
    requires
        room(st@, 2),
        assoc_value_wf(*db, *v, st.depth as nat),
    ensures
        r@ == assoc_value_text(*db, st@, *v),
{
    let k = db.impls[v.impl_id].binders.len();
    let (s, own) = enter_assoc_scope(st, &v.binders, k);
    proof {
        reveal_strlit("type ");
        reveal_strlit(" = ");
        reveal_strlit(";");
    }
    let mut r = s.indent_text();
    r.append("type ");
    r.append(db.associated_tys[v.associated_ty_id].name.as_str());
    r.append(generics_string(&own).as_str());
    r.append(" = ");
    r.append(render_ty(&s, &v.ty).as_str());
    r.append(";");
    assert(r@ =~= assoc_value_text(*db, st@, *v));
    r
}
// ---------------------------------------------------------------- interfaces

/// An attribute line: `#[name]` and a newline.
pub open spec fn attribute_line(name: Seq<char>) -> Seq<char> {
    seq!['#', '['] + name + seq![']', '\n']
}

pub open spec fn flag_text(set: bool, name: Seq<char>) -> Seq<char> {
    if set { attribute_line(name) } else { Seq::empty() }
}

/// One attribute line for each set flag, in the order auto, marker,
/// upstream, fundamental, non_enumerable, coinductive.
pub open spec fn flags_text(f: TraitFlags) -> Seq<char> {
    flag_text(f.auto, seq!['a', 'u', 't', 'o'])
        + flag_text(f.marker, seq!['m', 'a', 'r', 'k', 'e', 'r'])
        + flag_text(f.upstream, seq!['u', 'p', 's', 't', 'r', 'e', 'a', 'm'])
        + flag_text(f.fundamental, seq!['f', 'u', 'n', 'd', 'a', 'm', 'e', 'n', 't', 'a', 'l'])
        + flag_text(f.non_enumerable, seq!['n', 'o', 'n', '_', 'e', 'n', 'u', 'm', 'e', 'r', 'a', 'b', 'l', 'e'])
        + flag_text(f.coinductive, seq!['c', 'o', 'i', 'n', 'd', 'u', 'c', 't', 'i', 'v', 'e'])
}

fn flag_line(set: bool, line: &str) -> (r: String)
    ensures
        r@ == (if set { line@ } else { Seq::empty() }),
{
    if set { String::from_str(line) } else { String::new() }
}

/// Writes the attribute lines of an interface's flags.
pub fn render_flags(f: &TraitFlags) -> (r: String)
    ensures
        r@ == flags_text(*f),
{
    proof {
        reveal_strlit("#[auto]\n");
        reveal_strlit("#[marker]\n");
        reveal_strlit("#[upstream]\n");
        reveal_strlit("#[fundamental]\n");
        reveal_strlit("#[non_enumerable]\n");
        reveal_strlit("#[coinductive]\n");
    }
    assert("#[auto]\n"@ =~= attribute_line(seq!['a', 'u', 't', 'o']));
    assert("#[marker]\n"@ =~= attribute_line(seq!['m', 'a', 'r', 'k', 'e', 'r']));
    assert("#[upstream]\n"@ =~= attribute_line(seq!['u', 'p', 's', 't', 'r', 'e', 'a', 'm']));
    assert("#[fundamental]\n"@ =~= attribute_line(seq!['f', 'u', 'n', 'd', 'a', 'm', 'e', 'n', 't', 'a', 'l']));
    assert("#[non_enumerable]\n"@
        =~= attribute_line(seq!['n', 'o', 'n', '_', 'e', 'n', 'u', 'm', 'e', 'r', 'a', 'b', 'l', 'e']));
    assert("#[coinductive]\n"@ =~= attribute_line(seq!['c', 'o', 'i', 'n', 'd', 'u', 'c', 't', 'i', 'v', 'e']));
    let mut r = flag_line(f.auto, "#[auto]\n");
    r.append(flag_line(f.marker, "#[marker]\n").as_str());
    r.append(flag_line(f.upstream, "#[upstream]\n").as_str());
    r.append(flag_line(f.fundamental, "#[fundamental]\n").as_str());
    r.append(flag_line(f.non_enumerable, "#[non_enumerable]\n").as_str());
    r.append(flag_line(f.coinductive, "#[coinductive]\n").as_str());
    r
}

pub open spec fn trait_wf(db: Program, t: TraitDatum, depth: nat) -> bool {
    &&& t.binders@.len() >= 1
    &&& qwcs_wf(db, t.where_clauses@, depth + 1)
    &&& forall|i: int| 0 <= i < t.associated_ty_ids@.len() ==> {
        let id = #[trigger] t.associated_ty_ids@[i];
        &&& id < db.associated_tys@.len()
        &&& assoc_ty_wf(db, db.associated_tys@[id as int], depth + 1)
    }
}

/// One line of an interface's body: an associated type declaration, indented.
pub open spec fn trait_item_text(db: Program, body: Scope, t: TraitDatum, i: int) -> Seq<char> {
    indentation(body.indent) + assoc_ty_text(db, body, db.associated_tys@[t.associated_ty_ids@[i] as int])
}

/// The text of an interface declaration; its generics leave out the implicit self.
pub open spec fn trait_text(db: Program, sc: Scope, t: TraitDatum) -> Seq<char> {
    let s = sc.enter(Some(0));
    let body = s.indented();
    flags_text(t.flags) + seq!['t', 'r', 'a', 'i', 't', ' '] + t.name@
        + generics_text(s.binder_names(t.binders@).skip(1))
        + where_block(db, s, t.where_clauses@) + seq!['{']
        + body_text(Seq::new(t.associated_ty_ids@.len(), |i: int| trait_item_text(db, body, t, i)), seq!['\n'])
        + seq!['}']
}

/// Writes an interface declaration with its associated type declarations.
pub fn render_trait(db: &Program, st: &WriterState, t: &TraitDatum) -> (r: String)
    requires
        room(st@, 4),
        trait_wf(*db, *t, st.depth as nat),
    ensures
        r@ == trait_text(*db, st@, *t),
{
    let s = st.add_debruijn_index(Some(0));
    let mut r = render_flags(&t.flags);
    proof {
        reveal_strlit("trait ");
        reveal_strlit("{");
        reveal_strlit("\n");
        reveal_strlit("}");
    }
    r.append("trait ");
    r.append(t.name.as_str());
    let mut names = s.binder_var_display(&t.binders);
    let ghost all = names@;
    names.remove(0);
    assert(views(names@) =~= views(all).skip(1));
    r.append(generics_string(&names).as_str());
    r.append(render_where_block(db, &s, &t.where_clauses).as_str());
    r.append("{");
    let body = s.add_indent();
    let mut lines: Vec<String> = Vec::new();
    let mut i: usize = 0;
    while i < t.associated_ty_ids.len()
        invariant
            i <= t.associated_ty_ids@.len(),
            body@ == s@.indented(),
            s@ == st@.enter(Some(0)),
            room(st@, 4),
            trait_wf(*db, *t, st.depth as nat),
            views(lines@) =~= Seq::new(i as nat, |j: int| trait_item_text(*db, body@, *t, j)),
        decreases t.associated_ty_ids@.len() - i,
    {
        let id = t.associated_ty_ids[i];
        assert(assoc_ty_wf(*db, db.associated_tys@[id as int], (st.depth + 1) as nat));
        let mut line = body.indent_text();
        line.append(render_assoc_ty(db, &body, &db.associated_tys[id]).as_str());
        let ghost before = lines@;
        lines.push(line);
        assert(views(lines@) =~= views(before).push(line@));
        i = i + 1;
    }
    r.append(body_string(&lines, "\n").as_str());
    r.append("}");
    assert("\n"@ =~= seq!['\n']);
    assert(r@ =~= trait_text(*db, st@, *t));
    r
}

// ---------------------------------------------------------------- implementations

/// The polarity marker: `!` for a negative implementation, nothing otherwise.
pub open spec fn polarity_text(p: Polarity) -> Seq<char> {
    match p {
        Polarity::Positive => Seq::empty(),
        Polarity::Negative => seq!['!'],
    }
}

/// Writes the polarity marker.
pub fn render_polarity(p: &Polarity) -> (r: String)
    ensures
        r@ == polarity_text(*p),
{
    match p {
        Polarity::Positive => String::new(),
        Polarity::Negative => {
            proof { reveal_strlit("!"); }
            let r = String::from_str("!");
            assert(r@ =~= seq!['!']);
            r
        },
    }
}

pub open spec fn impl_wf(db: Program, im: ImplDatum, depth: nat) -> bool {
    &&& im.trait_ref.trait_id < db.traits@.len()
    &&& im.trait_ref.params@.len() >= 1
    &&& tys_wf(im.trait_ref.params@, depth + 1)
    &&& qwcs_wf(db, im.where_clauses@, depth + 1)
    &&& forall|i: int| 0 <= i < im.associated_ty_value_ids@.len() ==> {
        let id = #[trigger] im.associated_ty_value_ids@[i];
        &&& id < db.associated_ty_values@.len()
        &&& assoc_value_wf(db, db.associated_ty_values@[id as int], depth + 1)
    }
}

pub open spec fn impl_item_text(db: Program, body: Scope, im: ImplDatum, i: int) -> Seq<char> {
    assoc_value_text(db, body, db.associated_ty_values@[im.associated_ty_value_ids@[i] as int])
}

/// The text of an implementation: the interface's parameters but the first
/// after its name, the first as the implementing type after `for`.
pub open spec fn impl_text(db: Program, sc: Scope, im: ImplDatum) -> Seq<char> {
    let s = sc.enter(None);
    let body = s.indented();
    let tr = im.trait_ref;
    seq!['i', 'm', 'p', 'l'] + generics_text(s.binder_names(im.binders@)) + seq![' ']
        + polarity_text(im.polarity) + trait_with_generics(db, s, tr.trait_id, tr.params@.skip(1))
        + seq![' ', 'f', 'o', 'r', ' '] + ty_text(s, tr.params@[0])
        + where_block(db, s, im.where_clauses@) + seq!['{']
        + body_text(Seq::new(im.associated_ty_value_ids@.len(), |i: int| impl_item_text(db, body, im, i)), seq!['\n'])
        + seq!['}']
}

/// Writes an implementation with its associated type values.
pub fn render_impl(db: &Program, st: &WriterState, im: &ImplDatum) -> (r: String)
    requires
        room(st@, 4),
        impl_wf(*db, *im, st.depth as nat),
    ensures
        r@ == impl_text(*db, st@, *im),
{
    let s = st.add_debruijn_index(None);
    proof {
        reveal_strlit("impl");
        reveal_strlit(" ");
        reveal_strlit(" for ");
        reveal_strlit("{");
        reveal_strlit("\n");
        reveal_strlit("}");
    }
    let mut r = String::from_str("impl");
    r.append(generics_string(&s.binder_var_display(&im.binders)).as_str());
    r.append(" ");
    r.append(render_polarity(&im.polarity).as_str());
    r.append(crate::render::trait_with_generics_string(db, &s, im.trait_ref.trait_id, &im.trait_ref.params, true).as_str());
    r.append(" for ");
    proof { vstd::std_specs::vec::axiom_vec_index_decreases(im.trait_ref.params, 0); }
    r.append(render_ty(&s, &im.trait_ref.params[0]).as_str());
    r.append(render_where_block(db, &s, &im.where_clauses).as_str());
    r.append("{");
    let body = s.add_indent();
    let mut lines: Vec<String> = Vec::new();
    let mut i: usize = 0;
    while i < im.associated_ty_value_ids.len()
        invariant
            i <= im.associated_ty_value_ids@.len(),
            body@ == s@.indented(),
            s@ == st@.enter(None),
            room(st@, 4),
            impl_wf(*db, *im, st.depth as nat),
            views(lines@) =~= Seq::new(i as nat, |j: int| impl_item_text(*db, body@, *im, j)),
        decreases im.associated_ty_value_ids@.len() - i,
    {
        let id = im.associated_ty_value_ids[i];
        assert(assoc_value_wf(*db, db.associated_ty_values@[id as int], (st.depth + 1) as nat));
        let line = render_assoc_value(db, &body, &db.associated_ty_values[id]);
        let ghost before = lines@;
        lines.push(line);
        assert(views(lines@) =~= views(before).push(line@));
        i = i + 1;
    }
    r.append(body_string(&lines, "\n").as_str());
    r.append("}");
    assert("\n"@ =~= seq!['\n']);
    assert(r@ =~= impl_text(*db, st@, *im));
    r
}

} // verus!
