//! Properties of the rendered text that hold of every declaration.
use vstd::prelude::*;
use crate::decls::{
    adt_text, assoc_scope, attribute_line, body_text, field_text, flags_text, impl_item_text,
    impl_text, opaque_text, own_names, polarity_text, trait_item_text, trait_text,
};
use crate::ir::{
    AdtDatum, ImplDatum, OpaqueTyDatum, Polarity, Program, TraitDatum, TraitFlags, Ty, VariableKind,
};
use crate::render::{
    bounds_text, generics_text, interface_name, ty_text, tys_texts, where_block,
};
use crate::state::{Scope, remapped};

verus! {

pub open spec fn has_no_angle(s: Seq<char>) -> bool {
    forall|i: int| 0 <= i < s.len() ==> s[i] != '<'
}

/// A record without parameters has no generics list: its header is `struct`
/// and its name, followed at once by the space before its body or by the
/// newline that opens its `where` block.
pub proof fn lemma_record_without_generics(db: Program, sc: Scope, a: AdtDatum)
    requires
        a.binders@.len() == 0,
        has_no_angle(a.name@),
    ensures
        ({
            let t = adt_text(db, sc, a);
            let h = 7 + a.name@.len() as int;
            &&& h < t.len()
            &&& has_no_angle(t.subrange(0, h))
            &&& t[h] == ' ' || t[h] == '\n'
        }),
{
    let s = sc.enter(None);
    let head = seq!['s', 't', 'r', 'u', 'c', 't', ' '] + a.name@;
    let wb = where_block(db, s, a.where_clauses@);
    let rest = seq!['{'] + body_text(
        Seq::new(a.fields@.len(), |i: int| field_text(s.indented(), a, i)),
        seq![',', '\n'],
    ) + seq!['}'];
    assert(s.binder_names(a.binders@) =~= Seq::<Seq<char>>::empty());
    let t = adt_text(db, sc, a);
    assert(t =~= head + wb + rest);
    assert(t.subrange(0, head.len() as int) =~= head);
    assert(t[head.len() as int] == wb[0]);
}

/// An interface whose only parameter is its implicit self has no generics
/// list: after its attribute lines come `trait` and its name, followed at
/// once by the space before its body or the newline that opens its `where`
/// block.
pub proof fn lemma_interface_without_generics(db: Program, sc: Scope, t: TraitDatum)
    requires
        t.binders@.len() == 1,
        has_no_angle(t.name@),
    ensures
        ({
            let text = trait_text(db, sc, t);
            let f = flags_text(t.flags).len();
            let h = f + 6 + t.name@.len();
            &&& h < text.len()
            &&& has_no_angle(text.subrange(f as int, h as int))
            &&& text[h as int] == ' ' || text[h as int] == '\n'
        }),
{
    let s = sc.enter(Some(0));
    let flags = flags_text(t.flags);
    let head = seq!['t', 'r', 'a', 'i', 't', ' '] + t.name@;
    let wb = where_block(db, s, t.where_clauses@);
    let rest = seq!['{'] + body_text(
        Seq::new(t.associated_ty_ids@.len(), |i: int| trait_item_text(db, s.indented(), t, i)),
        seq!['\n'],
    ) + seq!['}'];
    assert(s.binder_names(t.binders@).skip(1) =~= Seq::<Seq<char>>::empty());
    let text = trait_text(db, sc, t);
    assert(text =~= flags + head + wb + rest);
    assert(text.subrange(flags.len() as int, (flags.len() + head.len()) as int) =~= head);
    assert(text[(flags.len() + head.len()) as int] == wb[0]);
}

/// An implementation without parameters has no generics list: `impl` is
/// followed at once by a space.
pub proof fn lemma_impl_without_generics(db: Program, sc: Scope, im: ImplDatum)
    requires
        im.binders@.len() == 0,
        im.trait_ref.params@.len() >= 1,
    ensures
        ({
            let t = impl_text(db, sc, im);
            &&& 4 < t.len()
            &&& has_no_angle(t.subrange(0, 4))
            &&& t[4] == ' '
        }),
{
    let s = sc.enter(None);
    assert(s.binder_names(im.binders@) =~= Seq::<Seq<char>>::empty());
    let t = impl_text(db, sc, im);
    assert(t[4] == ' ');
    assert(t.subrange(0, 4) =~= seq!['i', 'm', 'p', 'l']);
}

/// An opaque type without parameters has no generics list: its header is
/// `opaque type` and its name, followed at once by the colon before its bounds.
pub proof fn lemma_opaque_without_generics(db: Program, sc: Scope, o: OpaqueTyDatum)
    requires
        o.binders@.len() == 0,
        has_no_angle(o.name@),
    ensures
        ({
            let t = opaque_text(db, sc, o);
            let h = 12 + o.name@.len() as int;
            &&& h < t.len()
            &&& has_no_angle(t.subrange(0, h))
            &&& t[h] == ':'
        }),
{
    let s = sc.enter(None);
    let head = seq!['o', 'p', 'a', 'q', 'u', 'e', ' ', 't', 'y', 'p', 'e', ' '] + o.name@;
    let rest = seq![':', ' '] + bounds_text(db, s.enter(Some(0)), o.bounds@) + seq![' ', '=', ' ']
        + ty_text(s, o.hidden_ty) + seq![';'];
    assert(s.binder_names(o.binders@) =~= Seq::<Seq<char>>::empty());
    let t = opaque_text(db, sc, o);
    assert(t =~= head + rest);
    assert(t.subrange(0, head.len() as int) =~= head);
    assert(t[head.len() as int] == rest[0]);
}

/// With the flags auto and coinductive set and the others clear, an
/// interface's text opens with the line `#[auto]`, then the line
/// `#[coinductive]`, then its header.
pub proof fn lemma_flag_order(db: Program, sc: Scope, t: TraitDatum)
    requires
        t.flags == (TraitFlags {
            auto: true,
            marker: false,
            upstream: false,
            fundamental: false,
            non_enumerable: false,
            coinductive: true,
        }),
    ensures
        ({
            let lines = attribute_line(seq!['a', 'u', 't', 'o'])
                + attribute_line(seq!['c', 'o', 'i', 'n', 'd', 'u', 'c', 't', 'i', 'v', 'e'])
                + seq!['t', 'r', 'a', 'i', 't', ' '];
            trait_text(db, sc, t).subrange(0, lines.len() as int) == lines
        }),
{
    let lines = attribute_line(seq!['a', 'u', 't', 'o'])
        + attribute_line(seq!['c', 'o', 'i', 'n', 'd', 'u', 'c', 't', 'i', 'v', 'e']);
    assert(flags_text(t.flags) =~= lines);
    let text = trait_text(db, sc, t);
    let full = lines + seq!['t', 'r', 'a', 'i', 't', ' '];
    assert(text.subrange(0, full.len() as int) =~= full);
}

/// What an implementation's text holds before its polarity marker: `impl`,
/// its generics and a space.
pub open spec fn impl_head(sc: Scope, im: ImplDatum) -> Seq<char> {
    seq!['i', 'm', 'p', 'l'] + generics_text(sc.enter(None).binder_names(im.binders@)) + seq![' ']
}

/// A negative implementation writes `!` right before the interface's name,
/// with no space between them; a positive one writes the name right after
/// the space that ends its head, with no marker.
pub proof fn lemma_polarity_marker(db: Program, sc: Scope, im: ImplDatum)
    requires
        im.trait_ref.params@.len() >= 1,
    ensures
        ({
            let t = impl_text(db, sc, im);
            let h = impl_head(sc, im).len() as int;
            let name = interface_name(db, im.trait_ref.trait_id);
            &&& t[h - 1] == ' '
            &&& im.polarity == Polarity::Negative ==> t[h] == '!' && t.subrange(h + 1, h + 1 + name.len()) == name
            &&& im.polarity == Polarity::Positive ==> t.subrange(h, h + name.len()) == name
        }),
{
    let s = sc.enter(None);
    let tr = im.trait_ref;
    let head = impl_head(sc, im);
    let name = interface_name(db, tr.trait_id);
    let mark = polarity_text(im.polarity);
    let rest = generics_text(tys_texts(s, tr.params@.skip(1)))
        + seq![' ', 'f', 'o', 'r', ' '] + ty_text(s, tr.params@[0])
        + where_block(db, s, im.where_clauses@) + seq!['{']
        + body_text(
            Seq::new(im.associated_ty_value_ids@.len(), |i: int| impl_item_text(db, s.indented(), im, i)),
            seq!['\n'],
        ) + seq!['}'];
    let t = impl_text(db, sc, im);
    assert(t =~= head + mark + name + rest);
    let h = head.len() as int;
    assert(t[h - 1] == head[h - 1]);
    if im.polarity == Polarity::Negative {
        assert(t.subrange(h + 1, h + 1 + name.len()) =~= name);
    } else {
        assert(mark =~= Seq::<char>::empty());
        assert(t.subrange(h, h + name.len()) =~= name);
    }
}

proof fn lemma_remapped_at(m: Seq<((nat, nat), (nat, nat))>, v: (nat, nat), p: int)
    requires
        0 <= p < m.len(),
        m[p].0 == v,
        forall|q: int| p < q < m.len() ==> m[q].0 != v,
    ensures
        remapped(m, v) == m[p].1,
    decreases m.len(),
{
    if p < m.len() - 1 {
        lemma_remapped_at(m.drop_last(), v, p);
    }
}

/// Inside an associated item whose first `k` parameters copy its owner's,
/// a reference to the owner's parameter `index` is written with the name
/// that the owner's scope gives that parameter, provided that scope does not
/// rename it; and the item's own generics list holds only the parameters
/// after the first `k`.
pub proof fn lemma_owner_names_recovered(sc: Scope, kinds: Seq<VariableKind>, k: nat, index: usize)
    requires
        index < k <= kinds.len(),
        sc.depth >= 1,
        remapped(sc.remapping, ((sc.depth - 1) as nat, index as nat)) == ((sc.depth - 1) as nat, index as nat),
    ensures
        ty_text(assoc_scope(sc, kinds.len(), k), Ty::BoundVar { debruijn: 0, index })
            == sc.display_var(((sc.depth - 1) as nat, index as nat)),
        own_names(sc, kinds, k).len() == kinds.len() - k,
{
    let n = kinds.len();
    let s = sc.enter(None);
    let local = s.binder_vars(n).subrange(0, k as int);
    let origin = sc.binder_vars(k);
    let added = Seq::new(local.len(), |i: int| (local[i], origin[i]));
    let m = sc.remapping + added;
    let v = (sc.depth, index as nat);
    let p = sc.remapping.len() + index;
    assert(m[p] == added[index as int]);
    assert forall|q: int| p < q < m.len() implies m[q].0 != v by {
        assert(m[q] == added[q - sc.remapping.len()]);
    }
    lemma_remapped_at(m, v, p);
    assert(assoc_scope(sc, n, k).remapping == m);
    assert(sc.binder_vars(k)[index as int] == ((sc.depth - 1) as nat, index as nat));
}

} // verus!
