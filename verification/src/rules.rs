//! The type-wrapping rules table.
//!
//! A rule maps an associated-type name to its boundary-safe substitute type
//! and the conversion metadata the transforms need: an optional static
//! variant, lifetime bounds, extra trait bounds, custom conversion
//! expressions, and flags for temporary return storage and shared-context
//! access.  The table is built once per interface and only looked up
//! afterwards.
//!
//! [`wrap_type`] walks a type tree and replaces the first mention of
//! `Self::X` (or bare `Self`) for which the table holds a rule.

use vstd::prelude::*;

verus! {

use crate::strutil::{opt_str_view, str_is};
use crate::ty::{
    args_view, clone_args_suffix, clone_lt_opt, clone_seg, clone_segs_suffix, clone_ty,
    clone_tys_suffix, count_args, count_segs, count_tys, lemma_args_view_len,
    lemma_count_args_elem, lemma_count_segs_elem, lemma_count_tys_elem, lemma_segs_view_len,
    lemma_tys_view_len, lt_opt_view, segs_view, ty_count, tys_view, tyv, ArgV, GenArg,
    LifetimeName, PathSegment, SegV, Ty, TyV,
};

/// The boundary substitute for one associated type, with its conversion
/// metadata.
pub struct WrappedType {
    pub ty: Ty,
    pub ty_static: Option<Ty>,
    pub lifetime_bound: Option<LifetimeName>,
    pub lifetime_type_bound: Option<LifetimeName>,
    pub other_bounds: Option<String>,
    pub other_bounds_simple: Option<String>,
    pub return_conv: Option<String>,
    pub impl_return_conv: Option<String>,
    pub inject_ret_tmp: bool,
    pub unbounded_hrtb: bool,
    pub needs_ctx: bool,
}

/// Spec-level mirror of [`WrappedType`].
#[verifier::ext_equal]
pub struct WrappedTypeV {
    pub ty: TyV,
    pub ty_static: Option<TyV>,
    pub lifetime_bound: Option<Seq<char>>,
    pub lifetime_type_bound: Option<Seq<char>>,
    pub other_bounds: Option<Seq<char>>,
    pub other_bounds_simple: Option<Seq<char>>,
    pub return_conv: Option<Seq<char>>,
    pub impl_return_conv: Option<Seq<char>>,
    pub inject_ret_tmp: bool,
    pub unbounded_hrtb: bool,
    pub needs_ctx: bool,
}

pub open spec fn opt_ty_view(o: Option<Ty>) -> Option<TyV> {
    match o {
        Option::Some(t) => Option::Some(tyv(t)),
        Option::None => Option::None,
    }
}

impl View for WrappedType {
    type V = WrappedTypeV;

    open spec fn view(&self) -> WrappedTypeV {
        WrappedTypeV {
            ty: tyv(self.ty),
            ty_static: opt_ty_view(self.ty_static),
            lifetime_bound: lt_opt_view(self.lifetime_bound),
            lifetime_type_bound: lt_opt_view(self.lifetime_type_bound),
            other_bounds: opt_str_view(self.other_bounds),
            other_bounds_simple: opt_str_view(self.other_bounds_simple),
            return_conv: opt_str_view(self.return_conv),
            impl_return_conv: opt_str_view(self.impl_return_conv),
            inject_ret_tmp: self.inject_ret_tmp,
            unbounded_hrtb: self.unbounded_hrtb,
            needs_ctx: self.needs_ctx,
        }
    }
}

/// One named entry of the rules table.
pub struct WrapRule {
    pub name: String,
    pub rule: WrappedType,
}

/// Spec-level mirror of [`WrapRule`].
#[verifier::ext_equal]
pub struct WrapRuleV {
    pub name: Seq<char>,
    pub rule: WrappedTypeV,
}

impl View for WrapRule {
    type V = WrapRuleV;

    open spec fn view(&self) -> WrapRuleV {
        WrapRuleV { name: self.name@, rule: self.rule@ }
    }
}

/// The rules table: associated-type name to wrapping rule, looked up by the
/// first entry with a matching name.
pub struct WrapRules {
    pub entries: Vec<WrapRule>,
}

pub open spec fn rules_view(s: Seq<WrapRule>) -> Seq<WrapRuleV>
    decreases s,
{
    if s.len() == 0 {
        Seq::empty()
    } else {
        seq![s[0]@] + rules_view(s.drop_first())
    }
}

impl View for WrapRules {
    type V = Seq<WrapRuleV>;

    open spec fn view(&self) -> Seq<WrapRuleV> {
        rules_view(self.entries@)
    }
}

pub proof fn lemma_rules_view_len(s: Seq<WrapRule>)
    ensures
        rules_view(s).len() == s.len(),
        forall|i: int| 0 <= i < s.len() ==> rules_view(s)[i] == (#[trigger] s[i])@,
    decreases s,
{
    if s.len() > 0 {
        lemma_rules_view_len(s.drop_first());
        assert forall|i: int| 0 <= i < s.len() implies rules_view(s)[i] == (#[trigger] s[i])@ by {
            if i > 0 {
                assert(s.drop_first()[i - 1] == s[i]);
            }
        }
    }
}

/// Index of the first rule named `name`, when one exists.
pub open spec fn spec_lookup(rules: Seq<WrapRuleV>, name: Seq<char>) -> Option<int>
    decreases rules,
{
    if rules.len() == 0 {
        Option::None
    } else if rules[0].name == name {
        Option::Some(0int)
    } else {
        match spec_lookup(rules.drop_first(), name) {
            Option::Some(i) => Option::Some(i + 1),
            Option::None => Option::None,
        }
    }
}

pub proof fn lemma_rules_view_push(s: Seq<WrapRule>, e: WrapRule)
    ensures
        rules_view(s.push(e)) =~= rules_view(s).push(e@),
{
    lemma_rules_view_len(s);
    lemma_rules_view_len(s.push(e));
    assert forall|i: int| 0 <= i < s.len() + 1 implies rules_view(s.push(e))[i] == rules_view(
        s,
    ).push(e@)[i] by {
        if i < s.len() {
            assert(s.push(e)[i] == s[i]);
        } else {
            assert(s.push(e)[i] == e);
        }
    }
}

pub proof fn lemma_lookup(rules: Seq<WrapRuleV>, name: Seq<char>)
    ensures
        (match spec_lookup(rules, name) {
            Option::Some(i) => 0 <= i < rules.len() && rules[i].name == name,
            Option::None => forall|j: int| 0 <= j < rules.len() ==> (#[trigger] rules[j]).name
                != name,
        }),
    decreases rules,
{
    if rules.len() > 0 && rules[0].name != name {
        lemma_lookup(rules.drop_first(), name);
        match spec_lookup(rules.drop_first(), name) {
            Option::Some(i) => {
                assert(rules.drop_first()[i] == rules[i + 1]);
            },
            Option::None => {
                assert forall|j: int| 0 <= j < rules.len() implies (#[trigger] rules[j]).name
                    != name by {
                    if j > 0 {
                        assert(rules.drop_first()[j - 1] == rules[j]);
                    }
                }
            },
        }
    }
}

impl WrapRules {
    /// An empty rules table.
    pub fn new() -> (r: WrapRules)
        ensures
            r@ == Seq::<WrapRuleV>::empty(),
    {
        WrapRules { entries: Vec::new() }
    }

    /// Adds a rule at the end of the table.
    pub fn push(&mut self, name: String, rule: WrappedType)
        ensures
            final(self)@ =~= old(self)@.push(WrapRuleV { name: name@, rule: rule@ }),
    {
        let ghost prev = self.entries@;
        let entry = WrapRule { name, rule };
        let ghost entryv = entry;
        self.entries.push(entry);
        proof {
            lemma_rules_view_push(prev, entryv);
        }
    }

    /// Index of the first rule named `name`, per [`spec_lookup`].
    pub fn lookup(&self, name: &String) -> (r: Option<usize>)
        ensures
            (match r {
                Option::Some(i) => spec_lookup(self@, name@) == Option::Some(i as int) && i
                    < self.entries@.len(),
                Option::None => spec_lookup(self@, name@) == Option::<int>::None,
            }),
    {
        proof {
            lemma_rules_view_len(self.entries@);
            assert(self@.subrange(0, self@.len() as int) =~= self@);
        }
        let mut i: usize = 0;
        while i < self.entries.len()
            invariant
                i <= self.entries@.len(),
                self@.len() == self.entries@.len(),
                forall|j: int| 0 <= j < self.entries@.len() ==> self@[j] == (
                #[trigger] self.entries@[j])@,
                forall|j: int| 0 <= j < i ==> (#[trigger] self@[j]).name != name@,
                spec_lookup(self@, name@) == (match spec_lookup(
                    self@.subrange(i as int, self@.len() as int),
                    name@,
                ) {
                    Option::Some(x) => Option::Some(x + i),
                    Option::None => Option::<int>::None,
                }),
            decreases self.entries@.len() - i,
        {
            if str_is(&self.entries[i].name, name.as_str()) {
                proof {
                    assert(self@.subrange(i as int, self@.len() as int)[0] == self@[i as int]);
                }
                return Option::Some(i);
            }
            proof {
                assert(self@.subrange(i as int, self@.len() as int)[0] == self@[i as int]);
                assert(self@.subrange(i as int, self@.len() as int).drop_first() =~= self@.subrange(
                    i as int + 1,
                    self@.len() as int,
                ));
            }
            i = i + 1;
        }
        proof {
            assert(self@.subrange(i as int, self@.len() as int).len() == 0);
        }
        Option::None
    }
}

} // verus!

verus! {

// ---------------------------------------------------------------------------
// Associated-type substitution: find the first `Self::X` (or bare `Self`)
// with a rule and replace it by the rule's boundary type.
// ---------------------------------------------------------------------------

/// Spec-level record of a performed substitution: the replaced subtree and
/// the associated-type name whose rule was applied.
#[verifier::ext_equal]
pub struct FoundV {
    pub old_ty: TyV,
    pub ident: Seq<char>,
}

/// What [`wrap_type`] reports when it substitutes: the replaced subtree,
/// the associated-type name, and the index of the applied rule.
pub struct WrapFound {
    pub old_ty: Ty,
    pub ident: String,
    pub rule_idx: usize,
}

/// Substitution over a type tree: the rewritten tree, the substitution
/// performed (if any), and whether the walk stayed inside its domain (a
/// bare `Self` return with no `Self` rule leaves it).
pub open spec fn spec_wrap_ty(t: TyV, rules: Seq<WrapRuleV>) -> (TyV, Option<FoundV>, bool)
    decreases t, 0int,
{
    match t {
        TyV::Reference { mutable, lifetime, elem } => {
            let r = spec_wrap_ty(*elem, rules);
            (TyV::Reference { mutable, lifetime, elem: Box::new(r.0) }, r.1, r.2)
        },
        TyV::Slice(elem) => {
            let r = spec_wrap_ty(*elem, rules);
            (TyV::Slice(Box::new(r.0)), r.1, r.2)
        },
        TyV::Ptr { mutable, elem } => {
            let r = spec_wrap_ty(*elem, rules);
            (TyV::Ptr { mutable, elem: Box::new(r.0) }, r.1, r.2)
        },
        TyV::Tuple(elems) => {
            let r = spec_wrap_tys(elems, 0, rules);
            (TyV::Tuple(r.0), r.1, r.2)
        },
        TyV::Path { leading_colon, segments } => {
            if !leading_colon && segments.len() >= 2 && segments[0].ident == "Self"@ {
                match spec_lookup(rules, segments[1].ident) {
                    Option::Some(i) => (
                        rules[i].rule.ty,
                        Option::Some(FoundV { old_ty: t, ident: segments[1].ident }),
                        true,
                    ),
                    Option::None => {
                        let r = spec_wrap_segs(segments, 0, rules);
                        (TyV::Path { leading_colon, segments: r.0 }, r.1, r.2)
                    },
                }
            } else if !leading_colon && segments.len() == 1 && segments[0].ident == "Self"@ {
                match spec_lookup(rules, "Self"@) {
                    Option::Some(i) => (
                        rules[i].rule.ty,
                        Option::Some(FoundV { old_ty: t, ident: "Self"@ }),
                        true,
                    ),
                    Option::None => (t, Option::None, false),
                }
            } else {
                let r = spec_wrap_segs(segments, 0, rules);
                (TyV::Path { leading_colon, segments: r.0 }, r.1, r.2)
            }
        },
    }
}

/// Substitution over the tail of a segment list, starting at `i`.
pub open spec fn spec_wrap_segs(s: Seq<SegV>, i: int, rules: Seq<WrapRuleV>) -> (
    Seq<SegV>,
    Option<FoundV>,
    bool,
)
    decreases s, s.len() - i,
{
    if i < 0 || i >= s.len() {
        (Seq::empty(), Option::None, true)
    } else {
        let r0 = spec_wrap_args(s[i].args, 0, rules);
        let head = SegV { ident: s[i].ident, args: r0.0 };
        if r0.1 is Some || !r0.2 {
            (seq![head] + s.subrange(i + 1, s.len() as int), r0.1, r0.2)
        } else {
            let rest = spec_wrap_segs(s, i + 1, rules);
            (seq![head] + rest.0, rest.1, rest.2)
        }
    }
}

/// Substitution over the tail of a generic-argument list, starting at `i`.
pub open spec fn spec_wrap_args(s: Seq<ArgV>, i: int, rules: Seq<WrapRuleV>) -> (
    Seq<ArgV>,
    Option<FoundV>,
    bool,
)
    decreases s, s.len() - i,
{
    if i < 0 || i >= s.len() {
        (Seq::empty(), Option::None, true)
    } else {
        match s[i] {
            ArgV::Lifetime(n) => {
                let rest = spec_wrap_args(s, i + 1, rules);
                (seq![ArgV::Lifetime(n)] + rest.0, rest.1, rest.2)
            },
            ArgV::Ty(t) => {
                let r0 = spec_wrap_ty(t, rules);
                if r0.1 is Some || !r0.2 {
                    (seq![ArgV::Ty(r0.0)] + s.subrange(i + 1, s.len() as int), r0.1, r0.2)
                } else {
                    let rest = spec_wrap_args(s, i + 1, rules);
                    (seq![ArgV::Ty(r0.0)] + rest.0, rest.1, rest.2)
                }
            },
        }
    }
}

/// Substitution over the tail of a type list, starting at `i`.
pub open spec fn spec_wrap_tys(s: Seq<TyV>, i: int, rules: Seq<WrapRuleV>) -> (
    Seq<TyV>,
    Option<FoundV>,
    bool,
)
    decreases s, s.len() - i,
{
    if i < 0 || i >= s.len() {
        (Seq::empty(), Option::None, true)
    } else {
        let r0 = spec_wrap_ty(s[i], rules);
        if r0.1 is Some || !r0.2 {
            (seq![r0.0] + s.subrange(i + 1, s.len() as int), r0.1, r0.2)
        } else {
            let rest = spec_wrap_tys(s, i + 1, rules);
            (seq![r0.0] + rest.0, rest.1, rest.2)
        }
    }
}

/// Relates an exec substitution report to its spec counterpart.
pub open spec fn found_matches(f: Option<WrapFound>, w: Option<FoundV>, rules: WrapRules) -> bool {
    match (f, w) {
        (Option::None, Option::None) => true,
        (Option::Some(ff), Option::Some(wv)) => ff.old_ty@ == wv.old_ty && ff.ident@ == wv.ident
            && (ff.rule_idx as int) < rules@.len() && spec_lookup(rules@, wv.ident)
            == Option::Some(ff.rule_idx as int),
        _ => false,
    }
}

/// Replaces the first `Self::X` (or bare `Self`) mention that has a rule by
/// the rule's boundary type, per [`spec_wrap_ty`].
pub fn wrap_type(t: &Ty, rules: &WrapRules) -> (res: (Ty, Option<WrapFound>))
    requires
        spec_wrap_ty(t@, rules@).2,
    ensures
        res.0@ == spec_wrap_ty(t@, rules@).0,
        found_matches(res.1, spec_wrap_ty(t@, rules@).1, *rules),
    decreases ty_count(*t), 0int,
{
    match t {
        Ty::Reference { mutable, lifetime, elem } => {
            let (e2, f) = wrap_type(elem, rules);
            (
                Ty::Reference {
                    mutable: *mutable,
                    lifetime: clone_lt_opt(lifetime),
                    elem: Box::new(e2),
                },
                f,
            )
        },
        Ty::Slice(elem) => {
            let (e2, f) = wrap_type(elem, rules);
            (Ty::Slice(Box::new(e2)), f)
        },
        Ty::Ptr { mutable, elem } => {
            let (e2, f) = wrap_type(elem, rules);
            (Ty::Ptr { mutable: *mutable, elem: Box::new(e2) }, f)
        },
        Ty::Tuple(elems) => {
            proof {
                lemma_tys_view_len(elems@);
            }
            let (out, f) = wrap_tys(elems, 0, rules);
            (Ty::Tuple(out), f)
        },
        Ty::Path { leading_colon, segments } => {
            proof {
                lemma_segs_view_len(segments@);
            }
            if !*leading_colon && segments.len() >= 2 && str_is(&segments[0].ident, "Self") {
                match rules.lookup(&segments[1].ident) {
                    Option::Some(idx) => {
                        proof {
                            lemma_rules_view_len(rules.entries@);
                        }
                        let new_ty = clone_ty(&rules.entries[idx].rule.ty);
                        let old_ty = clone_ty(t);
                        let ident = segments[1].ident.clone();
                        (new_ty, Option::Some(WrapFound { old_ty, ident, rule_idx: idx }))
                    },
                    Option::None => {
                        let (out, f) = wrap_segs(segments, 0, rules);
                        (Ty::Path { leading_colon: *leading_colon, segments: out }, f)
                    },
                }
            } else if !*leading_colon && segments.len() == 1 && str_is(&segments[0].ident, "Self") {
                let self_name = String::from_str("Self");
                match rules.lookup(&self_name) {
                    Option::Some(idx) => {
                        proof {
                            lemma_rules_view_len(rules.entries@);
                        }
                        let new_ty = clone_ty(&rules.entries[idx].rule.ty);
                        let old_ty = clone_ty(t);
                        (
                            new_ty,
                            Option::Some(
                                WrapFound { old_ty, ident: self_name, rule_idx: idx },
                            ),
                        )
                    },
                    Option::None => {
                        proof {
                            assert(false);
                        }
                        (clone_ty(t), Option::None)
                    },
                }
            } else {
                let (out, f) = wrap_segs(segments, 0, rules);
                (Ty::Path { leading_colon: *leading_colon, segments: out }, f)
            }
        },
    }
}

fn wrap_segs(s: &Vec<PathSegment>, i: usize, rules: &WrapRules) -> (res: (
    Vec<PathSegment>,
    Option<WrapFound>,
))
    requires
        i <= s@.len(),
        spec_wrap_segs(segs_view(s@), i as int, rules@).2,
    ensures
        segs_view(res.0@) == spec_wrap_segs(segs_view(s@), i as int, rules@).0,
        found_matches(res.1, spec_wrap_segs(segs_view(s@), i as int, rules@).1, *rules),
    decreases count_segs(s@), s@.len() - i,
{
    proof {
        lemma_segs_view_len(s@);
    }
    if i >= s.len() {
        let r: Vec<PathSegment> = Vec::new();
        (r, Option::None)
    } else {
        proof {
            lemma_count_segs_elem(s@, i as int);
            lemma_args_view_len(s[i as int].args@);
        }
        let (nargs, f) = wrap_args(&s[i].args, 0, rules);
        let seg = PathSegment { ident: s[i].ident.clone(), args: nargs };
        let ghost segv = seg@;
        if f.is_some() {
            let mut rest = clone_segs_suffix(s, i + 1);
            let ghost restv = segs_view(rest@);
            let ghost rawprev = rest@;
            rest.insert(0, seg);
            proof {
                assert(rest@.drop_first() =~= rawprev);
                lemma_seg_insert_front(rest@, segv, restv);
            }
            (rest, f)
        } else {
            let (mut rest, f2) = wrap_segs(s, i + 1, rules);
            let ghost restv = segs_view(rest@);
            let ghost rawprev = rest@;
            rest.insert(0, seg);
            proof {
                assert(rest@.drop_first() =~= rawprev);
                lemma_seg_insert_front(rest@, segv, restv);
            }
            (rest, f2)
        }
    }
}

fn wrap_args(s: &Vec<GenArg>, i: usize, rules: &WrapRules) -> (res: (
    Vec<GenArg>,
    Option<WrapFound>,
))
    requires
        i <= s@.len(),
        spec_wrap_args(args_view(s@), i as int, rules@).2,
    ensures
        args_view(res.0@) == spec_wrap_args(args_view(s@), i as int, rules@).0,
        found_matches(res.1, spec_wrap_args(args_view(s@), i as int, rules@).1, *rules),
    decreases count_args(s@), s@.len() - i,
{
    proof {
        lemma_args_view_len(s@);
    }
    if i >= s.len() {
        let r: Vec<GenArg> = Vec::new();
        (r, Option::None)
    } else {
        proof {
            lemma_count_args_elem(s@, i as int);
        }
        match &s[i] {
            GenArg::Lifetime(l) => {
                let (mut rest, f2) = wrap_args(s, i + 1, rules);
                let ghost restv = args_view(rest@);
                let ghost rawprev = rest@;
                let na = GenArg::Lifetime(LifetimeName { name: l.name.clone() });
                let ghost nav = na@;
                rest.insert(0, na);
                proof {
                    assert(rest@.drop_first() =~= rawprev);
                    lemma_arg_insert_front(rest@, nav, restv);
                }
                (rest, f2)
            },
            GenArg::Ty(t) => {
                let (t2, f) = wrap_type(t, rules);
                let na = GenArg::Ty(t2);
                let ghost nav = na@;
                if f.is_some() {
                    let mut rest = clone_args_suffix(s, i + 1);
                    let ghost restv = args_view(rest@);
                    let ghost rawprev = rest@;
                    rest.insert(0, na);
                    proof {
                        assert(rest@.drop_first() =~= rawprev);
                        lemma_arg_insert_front(rest@, nav, restv);
                    }
                    (rest, f)
                } else {
                    let (mut rest, f2) = wrap_args(s, i + 1, rules);
                    let ghost restv = args_view(rest@);
                    let ghost rawprev = rest@;
                    rest.insert(0, na);
                    proof {
                        assert(rest@.drop_first() =~= rawprev);
                        lemma_arg_insert_front(rest@, nav, restv);
                    }
                    (rest, f2)
                }
            },
        }
    }
}

fn wrap_tys(s: &Vec<Ty>, i: usize, rules: &WrapRules) -> (res: (Vec<Ty>, Option<WrapFound>))
    requires
        i <= s@.len(),
        spec_wrap_tys(tys_view(s@), i as int, rules@).2,
    ensures
        tys_view(res.0@) == spec_wrap_tys(tys_view(s@), i as int, rules@).0,
        found_matches(res.1, spec_wrap_tys(tys_view(s@), i as int, rules@).1, *rules),
    decreases count_tys(s@), s@.len() - i,
{
    proof {
        lemma_tys_view_len(s@);
    }
    if i >= s.len() {
        let r: Vec<Ty> = Vec::new();
        (r, Option::None)
    } else {
        proof {
            lemma_count_tys_elem(s@, i as int);
        }
        let (t2, f) = wrap_type(&s[i], rules);
        let ghost t2v = t2@;
        if f.is_some() {
            let mut rest = clone_tys_suffix(s, i + 1);
            let ghost restv = tys_view(rest@);
            let ghost rawprev = rest@;
            rest.insert(0, t2);
            proof {
                assert(rest@.drop_first() =~= rawprev);
                lemma_ty_insert_front(rest@, t2v, restv);
            }
            (rest, f)
        } else {
            let (mut rest, f2) = wrap_tys(s, i + 1, rules);
            let ghost restv = tys_view(rest@);
            let ghost rawprev = rest@;
            rest.insert(0, t2);
            proof {
                assert(rest@.drop_first() =~= rawprev);
                lemma_ty_insert_front(rest@, t2v, restv);
            }
            (rest, f2)
        }
    }
}

/// After inserting an element in front, the element-wise view is the
/// element's view followed by the previous view.
pub proof fn lemma_seg_insert_front(s: Seq<PathSegment>, headv: SegV, tailv: Seq<SegV>)
    requires
        s.len() >= 1,
        s[0]@ == headv,
        segs_view(s.drop_first()) == tailv,
    ensures
        segs_view(s) == seq![headv] + tailv,
{
}

pub proof fn lemma_arg_insert_front(s: Seq<GenArg>, headv: ArgV, tailv: Seq<ArgV>)
    requires
        s.len() >= 1,
        s[0]@ == headv,
        args_view(s.drop_first()) == tailv,
    ensures
        args_view(s) == seq![headv] + tailv,
{
}

pub proof fn lemma_ty_insert_front(s: Seq<Ty>, headv: TyV, tailv: Seq<TyV>)
    requires
        s.len() >= 1,
        tyv(s[0]) == headv,
        tys_view(s.drop_first()) == tailv,
    ensures
        tys_view(s) == seq![headv] + tailv,
{
}

} // verus!
