//! Scope bookkeeping: the nested binders in force, the names that their
//! parameters display as, and the indentation level.
use vstd::prelude::*;
use crate::ir::VariableKind;
use crate::text::{decimal, decimal_string};

verus! {

/// A parameter named by the level of its binder (0 for the outermost) and
/// its position within that binder.
#[derive(Clone, Copy, Debug, PartialEq, Eq, Structural)]
pub struct InvertedVar {
    pub level: usize,
    pub index: usize,
}

/// The mathematical model of a writer state.
pub struct Scope {
    /// How many binders are in force.
    pub depth: nat,
    pub indent: nat,
    /// The parameter that displays as `Self`, if any.
    pub self_var: Option<(nat, nat)>,
    /// Parameters that display under another parameter's name; the latest entry wins.
    pub remapping: Seq<((nat, nat), (nat, nat))>,
}

pub open spec fn var_pair(v: InvertedVar) -> (nat, nat) {
    (v.level as nat, v.index as nat)
}

pub open spec fn var_pairs(vs: Seq<InvertedVar>) -> Seq<(nat, nat)> {
    vs.map_values(|v: InvertedVar| var_pair(v))
}

pub open spec fn remap_pairs(m: Seq<(InvertedVar, InvertedVar)>) -> Seq<((nat, nat), (nat, nat))> {
    m.map_values(|e: (InvertedVar, InvertedVar)| (var_pair(e.0), var_pair(e.1)))
}

/// The name that a parameter is written with when nothing renames it.
pub open spec fn var_name(v: (nat, nat)) -> Seq<char> {
    seq!['_'] + decimal(v.0) + seq!['_'] + decimal(v.1)
}

/// What a parameter's name is preceded by in a parameter list: nothing for
/// a type, an apostrophe for a lifetime, `const ` for a constant.
pub open spec fn kind_prefix(k: VariableKind) -> Seq<char> {
    match k {
        VariableKind::Ty => Seq::empty(),
        VariableKind::Lifetime => seq!['\''],
        VariableKind::Const => seq!['c', 'o', 'n', 's', 't', ' '],
    }
}

/// Where `v` leads through the remapping entries, the latest first.
pub open spec fn remapped(m: Seq<((nat, nat), (nat, nat))>, v: (nat, nat)) -> (nat, nat)
    decreases m.len(),
{
    if m.len() == 0 {
        v
    } else if m.last().0 == v {
        m.last().1
    } else {
        remapped(m.drop_last(), v)
    }
}

impl Scope {
    /// One binder deeper; `self_binding` names the new binder's parameter that
    /// displays as `Self`.
    pub open spec fn enter(self, self_binding: Option<nat>) -> Scope {
        Scope {
            depth: self.depth + 1,
            indent: self.indent,
            self_var: match self_binding {
                Some(i) => Some((self.depth, i)),
                None => self.self_var,
            },
            remapping: self.remapping,
        }
    }

    pub open spec fn indented(self) -> Scope {
        Scope { indent: self.indent + 1, ..self }
    }

    /// Each `local[i]` displays as `origin[i]`.
    pub open spec fn with_mapping(self, local: Seq<(nat, nat)>, origin: Seq<(nat, nat)>) -> Scope {
        Scope {
            remapping: self.remapping + Seq::new(local.len(), |i: int| (local[i], origin[i])),
            ..self
        }
    }

    /// The display name of parameter `v`.
    pub open spec fn display_var(self, v: (nat, nat)) -> Seq<char> {
        let w = remapped(self.remapping, v);
        if self.self_var == Some(w) {
            seq!['S', 'e', 'l', 'f']
        } else {
            var_name(w)
        }
    }

    /// The display name of a bound variable, `debruijn` binders out from the innermost.
    pub open spec fn display_bound(self, debruijn: nat, index: nat) -> Seq<char> {
        self.display_var(((self.depth - 1 - debruijn) as nat, index))
    }

    /// The parameters of the innermost binder, when it has `n` of them.
    pub open spec fn binder_vars(self, n: nat) -> Seq<(nat, nat)> {
        Seq::new(n, |i: int| ((self.depth - 1) as nat, i as nat))
    }

    /// How the innermost binder's parameters, of the given kinds, are listed.
    pub open spec fn binder_names(self, kinds: Seq<VariableKind>) -> Seq<Seq<char>> {
        Seq::new(kinds.len(), |i: int| kind_prefix(kinds[i]) + self.display_var(((self.depth - 1) as nat, i as nat)))
    }
}

/// Splits a parameter list after its first `k` entries: the owner's copied
/// parameters, then the item's own.
pub fn split_params<T>(v: Vec<T>, k: usize) -> (r: (Vec<T>, Vec<T>))
    requires
        k <= v.len(),
    ensures
        r.0@ == v@.subrange(0, k as int),
        r.1@ == v@.subrange(k as int, v.len() as int),
        r.0@ + r.1@ == v@,
{
    let mut prefix = v;
    let suffix = prefix.split_off(k);
    proof { assert(prefix@ + suffix@ =~= v@); }
    (prefix, suffix)
}

/// The scope and indentation that rendering is in.
pub struct WriterState {
    pub depth: usize,
    pub indent: usize,
    pub self_var: Option<InvertedVar>,
    pub remapping: Vec<(InvertedVar, InvertedVar)>,
}

impl View for WriterState {
    type V = Scope;

    open spec fn view(&self) -> Scope {
        Scope {
            depth: self.depth as nat,
            indent: self.indent as nat,
            self_var: match self.self_var {
                Some(v) => Some(var_pair(v)),
                None => None,
            },
            remapping: remap_pairs(self.remapping@),
        }
    }
}

impl WriterState {
    /// The state at the top of a program: no binder, no indentation.
    pub fn new() -> (r: WriterState)
        ensures
            r@ == (Scope { depth: 0, indent: 0, self_var: None, remapping: Seq::empty() }),
    {
        let r = WriterState { depth: 0, indent: 0, self_var: None, remapping: Vec::new() };
        assert(r@.remapping =~= Seq::<((nat, nat), (nat, nat))>::empty());
        r
    }

    fn copy_remapping(&self) -> (r: Vec<(InvertedVar, InvertedVar)>)
        ensures
            r@ == self.remapping@,
    {
        let mut r: Vec<(InvertedVar, InvertedVar)> = Vec::new();
        let mut i: usize = 0;
        while i < self.remapping.len()
            invariant
                i <= self.remapping@.len(),
                r@ == self.remapping@.subrange(0, i as int),
            decreases self.remapping@.len() - i,
        {
            r.push(self.remapping[i]);
            assert(r@ =~= self.remapping@.subrange(0, i + 1));
            i = i + 1;
        }
        assert(r@ =~= self.remapping@);
        r
    }

    /// A new state one binder deeper.
    pub fn add_debruijn_index(&self, self_binding: Option<usize>) -> (r: WriterState)
        requires
            self.depth < usize::MAX,
        ensures
            r@ == self@.enter(match self_binding { Some(i) => Some(i as nat), None => None }),
    {
        let self_var = match self_binding {
            Some(i) => Some(InvertedVar { level: self.depth, index: i }),
            None => self.self_var,
        };
        let r = WriterState {
            depth: self.depth + 1,
            indent: self.indent,
            self_var,
            remapping: self.copy_remapping(),
        };
        assert(r@.remapping =~= self@.remapping);
        r
    }

    /// A new state one indentation level further in.
    pub fn add_indent(&self) -> (r: WriterState)
        requires
            self.indent < usize::MAX,
        ensures
            r@ == self@.indented(),
    {
        let r = WriterState {
            depth: self.depth,
            indent: self.indent + 1,
            self_var: self.self_var,
            remapping: self.copy_remapping(),
        };
        assert(r@.remapping =~= self@.remapping);
        r
    }

    /// A new state in which each `local[i]` displays as `origin[i]`.
    pub fn add_parameter_mapping(&self, local: &Vec<InvertedVar>, origin: &Vec<InvertedVar>) -> (r: WriterState)
        requires
            local.len() == origin.len(),
        ensures
            r@ == self@.with_mapping(var_pairs(local@), var_pairs(origin@)),
    {
        let mut m = self.copy_remapping();
        let ghost m0 = self@.remapping;
        let ghost added = Seq::new(local@.len(), |i: int| (var_pair(local@[i]), var_pair(origin@[i])));
        let mut i: usize = 0;
        while i < local.len()
            invariant
                i <= local@.len(),
                local@.len() == origin@.len(),
                m0 == self@.remapping,
                added == Seq::new(local@.len(), |j: int| (var_pair(local@[j]), var_pair(origin@[j]))),
                remap_pairs(m@) == m0 + added.subrange(0, i as int),
            decreases local@.len() - i,
        {
            let ghost before = m@;
            m.push((local[i], origin[i]));
            assert(m@ == before.push((local@[i as int], origin@[i as int])));
            assert(remap_pairs(m@) =~= remap_pairs(before).push(added[i as int]));
            assert(added.subrange(0, i + 1) =~= added.subrange(0, i as int).push(added[i as int]));
            assert(remap_pairs(m@) =~= m0 + added.subrange(0, i + 1));
            i = i + 1;
        }
        let r = WriterState { depth: self.depth, indent: self.indent, self_var: self.self_var, remapping: m };
        assert(added.subrange(0, local@.len() as int) =~= added);
        assert(r@.remapping =~= self@.with_mapping(var_pairs(local@), var_pairs(origin@)).remapping);
        r
    }

    fn remapped_var(&self, v: InvertedVar) -> (r: InvertedVar)
        ensures
            var_pair(r) == remapped(self@.remapping, var_pair(v)),
    {
        let mut i: usize = self.remapping.len();
        assert(self@.remapping.subrange(0, i as int) =~= self@.remapping);
        while i > 0
            invariant
                i <= self.remapping@.len(),
                remapped(self@.remapping, var_pair(v))
                    == remapped(self@.remapping.subrange(0, i as int), var_pair(v)),
            decreases i,
        {
            let e = self.remapping[i - 1];
            let ghost sub = self@.remapping.subrange(0, i as int);
            assert(sub.drop_last() =~= self@.remapping.subrange(0, i - 1));
            if e.0 == v {
                return e.1;
            }
            i = i - 1;
        }
        v
    }

    /// The display name of parameter `v`.
    pub fn display_var(&self, v: InvertedVar) -> (r: String)
        ensures
            r@ == self@.display_var(var_pair(v)),
    {
        let w = self.remapped_var(v);
        let is_self = match self.self_var {
            Some(s) => s == w,
            None => false,
        };
        if is_self {
            proof { reveal_strlit("Self"); }
            let r = String::from_str("Self");
            assert(r@ =~= seq!['S', 'e', 'l', 'f']);
            r
        } else {
            proof { reveal_strlit("_"); }
            let mut r = String::from_str("_");
            r.append(decimal_string(w.level).as_str());
            r.append("_");
            r.append(decimal_string(w.index).as_str());
            assert(r@ =~= var_name(var_pair(w)));
            r
        }
    }

    /// The parameters of the innermost binder, when it has `n` of them.
    pub fn binder_var_indices(&self, n: usize) -> (r: Vec<InvertedVar>)
        requires
            self.depth >= 1,
        ensures
            var_pairs(r@) == self@.binder_vars(n as nat),
            r@.len() == n,
    {
        let mut r: Vec<InvertedVar> = Vec::new();
        let mut i: usize = 0;
        while i < n
            invariant
                i <= n,
                self.depth >= 1,
                var_pairs(r@) == self@.binder_vars(i as nat),
                r@.len() == i,
            decreases n - i,
        {
            let ghost before = r@;
            r.push(InvertedVar { level: self.depth - 1, index: i });
            assert(r@ == before.push(InvertedVar { level: (self.depth - 1) as usize, index: i }));
            assert(var_pairs(r@) =~= var_pairs(before).push(((self.depth - 1) as nat, i as nat)));
            assert(var_pairs(r@) =~= self@.binder_vars((i + 1) as nat));
            i = i + 1;
        }
        r
    }

    /// Lists the innermost binder's parameters, of the given kinds.
    pub fn binder_var_display(&self, kinds: &Vec<VariableKind>) -> (r: Vec<String>)
        requires
            self.depth >= 1,
        ensures
            crate::text::views(r@) == self@.binder_names(kinds@),
            r@.len() == kinds@.len(),
    {
        let n = kinds.len();
        let mut r: Vec<String> = Vec::new();
        let mut i: usize = 0;
        while i < n
            invariant
                i <= n,
                self.depth >= 1,
                n == kinds@.len(),
                crate::text::views(r@) == self@.binder_names(kinds@.subrange(0, i as int)),
                r@.len() == i,
            decreases n - i,
        {
            let mut name = match kinds[i] {
                VariableKind::Ty => String::new(),
                VariableKind::Lifetime => {
                    proof { reveal_strlit("'"); }
                    String::from_str("'")
                },
                VariableKind::Const => {
                    proof { reveal_strlit("const "); }
                    String::from_str("const ")
                },
            };
            assert(name@ =~= kind_prefix(kinds@[i as int]));
            name.append(self.display_var(InvertedVar { level: self.depth - 1, index: i }).as_str());
            let ghost before = r@;
            r.push(name);
            assert(r@ == before.push(name));
            assert(crate::text::views(r@) =~= crate::text::views(before).push(name@));
            assert(crate::text::views(r@) =~= self@.binder_names(kinds@.subrange(0, i + 1)));
            i = i + 1;
        }
        assert(kinds@.subrange(0, n as int) =~= kinds@);
        r
    }

    /// Writes the current indentation.
    pub fn indent_text(&self) -> (r: String)
        ensures
            r@ == crate::text::indentation(self.indent as nat),
    {
        crate::text::indentation_string(self.indent)
    }
}

} // verus!
