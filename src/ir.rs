//! The binder-indexed declarations that are rendered, and the read-only
//! program that resolves their identifiers.
use vstd::prelude::*;

verus! {

/// What a parameter of a binder stands for.
#[derive(Clone, Copy, Debug, PartialEq, Eq, Structural)]
pub enum VariableKind {
    Ty,
    Lifetime,
    Const,
}

/// A type. Bound variables count binder levels outward from the innermost
/// binder (`debruijn`) and name a parameter within that binder (`index`).
pub enum Ty {
    BoundVar { debruijn: usize, index: usize },
    /// A named type constructor (a record or an opaque type) applied to arguments.
    Apply { name: String, args: Vec<Ty> },
    /// A function pointer over the given parameter types.
    FnPtr { params: Vec<Ty> },
}

/// A reference to an interface with its substituted parameters; parameter 0
/// is the type that implements it.
pub struct TraitRef {
    pub trait_id: usize,
    pub params: Vec<Ty>,
}

/// A where-clause under its own binder, whose parameters are `binders`.
pub struct QuantifiedWhereClause {
    pub binders: Vec<VariableKind>,
    pub trait_ref: TraitRef,
}

/// A bound of an associated type: an interface and its parameters without self.
pub struct InlineBound {
    pub trait_id: usize,
    pub args_no_self: Vec<Ty>,
}

/// A record type over the parameters `binders`.
pub struct AdtDatum {
    pub name: String,
    pub binders: Vec<VariableKind>,
    pub fields: Vec<Ty>,
    pub where_clauses: Vec<QuantifiedWhereClause>,
}

/// The flags that an interface may carry.
#[derive(Clone, Copy, Debug)]
pub struct TraitFlags {
    pub auto: bool,
    pub marker: bool,
    pub upstream: bool,
    pub fundamental: bool,
    pub non_enumerable: bool,
    pub coinductive: bool,
}

/// An interface over the parameters `binders`, parameter 0 being its implicit self.
pub struct TraitDatum {
    pub name: String,
    pub flags: TraitFlags,
    pub binders: Vec<VariableKind>,
    pub where_clauses: Vec<QuantifiedWhereClause>,
    pub associated_ty_ids: Vec<usize>,
}

/// Whether an implementation states that an interface holds or that it does not.
#[derive(Clone, Copy, Debug, PartialEq, Eq)]
pub enum Polarity {
    Positive,
    Negative,
}

/// An implementation over the parameters `binders`.
pub struct ImplDatum {
    pub binders: Vec<VariableKind>,
    pub trait_ref: TraitRef,
    pub where_clauses: Vec<QuantifiedWhereClause>,
    pub polarity: Polarity,
    pub associated_ty_value_ids: Vec<usize>,
}

/// An existential type over the parameters `binders`: its bounds stand under an
/// inner binder of one parameter, the implicit self; `hidden_ty` is its witness.
pub struct OpaqueTyDatum {
    pub name: String,
    pub binders: Vec<VariableKind>,
    pub bounds: Vec<QuantifiedWhereClause>,
    pub hidden_ty: Ty,
}

/// An associated type of interface `trait_id`. Its parameters, `binders`, are a
/// copy of the interface's parameters followed by its own.
pub struct AssociatedTyDatum {
    pub trait_id: usize,
    pub name: String,
    pub binders: Vec<VariableKind>,
    pub bounds: Vec<InlineBound>,
    pub where_clauses: Vec<QuantifiedWhereClause>,
}

/// The value of associated type `associated_ty_id` in implementation
/// `impl_id`. Its parameters, `binders`, are a copy of the implementation's
/// parameters followed by its own.
pub struct AssociatedTyValue {
    pub impl_id: usize,
    pub associated_ty_id: usize,
    pub binders: Vec<VariableKind>,
    pub ty: Ty,
}

/// The read-only program that identifiers are resolved against: an
/// identifier is a position in the list of its kind.
pub struct Program {
    pub adts: Vec<AdtDatum>,
    pub traits: Vec<TraitDatum>,
    pub impls: Vec<ImplDatum>,
    pub associated_tys: Vec<AssociatedTyDatum>,
    pub associated_ty_values: Vec<AssociatedTyValue>,
    pub opaque_tys: Vec<OpaqueTyDatum>,
}

/// A declaration of the program, by kind and identifier.
#[derive(Clone, Copy, Debug, PartialEq, Eq)]
pub enum DeclId {
    Adt(usize),
    Trait(usize),
    Impl(usize),
    OpaqueTy(usize),
    AssociatedTy(usize),
    AssociatedTyValue(usize),
}

/// Every bound variable of `t` refers to one of `depth` enclosing binders.
pub open spec fn ty_wf(t: Ty, depth: nat) -> bool
    decreases t,
{
    match t {
        Ty::BoundVar { debruijn, index } => debruijn < depth,
        Ty::Apply { name, args } => forall|i: int| 0 <= i < args.len() ==> ty_wf(#[trigger] args@[i], depth),
        Ty::FnPtr { params } => forall|i: int| 0 <= i < params.len() ==> ty_wf(#[trigger] params@[i], depth),
    }
}

} // verus!
