//! The library's model of types as they appear in interface signatures.
//!
//! Interface declarations reach the transform engine as trees of `Ty` nodes.
//! Every operation of the engine is a pure function over these trees, so each
//! exec operation in this module is pinned to a spec-level mirror over the
//! view types (`TyV` and friends), whose fields are mathematical sequences.

use vstd::prelude::*;

verus! {

/// A lifetime parameter, identified by its name (without the leading tick).
pub struct LifetimeName {
    pub name: String,
}

/// One segment of a type path, such as `Option` in `core::option::Option<T>`.
pub struct PathSegment {
    pub ident: String,
    pub args: Vec<GenArg>,
}

/// A generic argument: either a lifetime or a type.
pub enum GenArg {
    Lifetime(LifetimeName),
    Ty(Ty),
}

/// A type as it appears in an interface signature.
pub enum Ty {
    Reference { mutable: bool, lifetime: Option<LifetimeName>, elem: Box<Ty> },
    Slice(Box<Ty>),
    Ptr { mutable: bool, elem: Box<Ty> },
    Tuple(Vec<Ty>),
    Path { leading_colon: bool, segments: Vec<PathSegment> },
}

/// Spec-level mirror of a path segment.
#[verifier::ext_equal]
pub struct SegV {
    pub ident: Seq<char>,
    pub args: Seq<ArgV>,
}

/// Spec-level mirror of a generic argument.
#[verifier::ext_equal]
pub enum ArgV {
    Lifetime(Seq<char>),
    Ty(TyV),
}

/// Spec-level mirror of a type tree.
#[verifier::ext_equal]
pub enum TyV {
    Reference { mutable: bool, lifetime: Option<Seq<char>>, elem: Box<TyV> },
    Slice(Box<TyV>),
    Ptr { mutable: bool, elem: Box<TyV> },
    Tuple(Seq<TyV>),
    Path { leading_colon: bool, segments: Seq<SegV> },
}

pub open spec fn lt_opt_view(o: Option<LifetimeName>) -> Option<Seq<char>> {
    match o {
        Option::Some(l) => Option::Some(l.name@),
        Option::None => Option::None,
    }
}

pub open spec fn tyv(t: Ty) -> TyV
    decreases t,
{
    match t {
        Ty::Reference { mutable, lifetime, elem } => TyV::Reference {
            mutable,
            lifetime: lt_opt_view(lifetime),
            elem: Box::new(tyv(*elem)),
        },
        Ty::Slice(elem) => TyV::Slice(Box::new(tyv(*elem))),
        Ty::Ptr { mutable, elem } => TyV::Ptr { mutable, elem: Box::new(tyv(*elem)) },
        Ty::Tuple(elems) => TyV::Tuple(tys_view(elems@)),
        Ty::Path { leading_colon, segments } => TyV::Path {
            leading_colon,
            segments: segs_view(segments@),
        },
    }
}

pub open spec fn tys_view(s: Seq<Ty>) -> Seq<TyV>
    decreases s,
{
    if s.len() == 0 {
        Seq::empty()
    } else {
        seq![tyv(s[0])] + tys_view(s.drop_first())
    }
}

pub open spec fn segs_view(s: Seq<PathSegment>) -> Seq<SegV>
    decreases s,
{
    if s.len() == 0 {
        Seq::empty()
    } else {
        seq![
            (SegV { ident: s[0].ident@, args: args_view(s[0].args@) }),
        ] + segs_view(s.drop_first())
    }
}

pub open spec fn args_view(s: Seq<GenArg>) -> Seq<ArgV>
    decreases s,
{
    if s.len() == 0 {
        Seq::empty()
    } else {
        seq![
            (match s[0] {
                GenArg::Lifetime(l) => ArgV::Lifetime(l.name@),
                GenArg::Ty(t) => ArgV::Ty(tyv(t)),
            }),
        ] + args_view(s.drop_first())
    }
}

impl View for Ty {
    type V = TyV;

    open spec fn view(&self) -> TyV {
        tyv(*self)
    }
}

impl View for PathSegment {
    type V = SegV;

    open spec fn view(&self) -> SegV {
        SegV { ident: self.ident@, args: args_view(self.args@) }
    }
}

impl View for GenArg {
    type V = ArgV;

    open spec fn view(&self) -> ArgV {
        match *self {
            GenArg::Lifetime(ref l) => ArgV::Lifetime(l.name@),
            GenArg::Ty(ref t) => ArgV::Ty(tyv(*t)),
        }
    }
}

/// Facts relating the element-wise views to indexing, used throughout.
pub proof fn lemma_tys_view_len(s: Seq<Ty>)
    ensures
        tys_view(s).len() == s.len(),
        forall|i: int| 0 <= i < s.len() ==> tys_view(s)[i] == tyv(#[trigger] s[i]),
    decreases s,
{
    if s.len() > 0 {
        lemma_tys_view_len(s.drop_first());
        assert forall|i: int| 0 <= i < s.len() implies tys_view(s)[i] == tyv(#[trigger] s[i]) by {
            if i > 0 {
                assert(s.drop_first()[i - 1] == s[i]);
            }
        }
    }
}

pub proof fn lemma_segs_view_len(s: Seq<PathSegment>)
    ensures
        segs_view(s).len() == s.len(),
        forall|i: int| 0 <= i < s.len() ==> segs_view(s)[i] == (#[trigger] s[i])@,
    decreases s,
{
    if s.len() > 0 {
        lemma_segs_view_len(s.drop_first());
        assert forall|i: int| 0 <= i < s.len() implies segs_view(s)[i] == (#[trigger] s[i])@ by {
            if i > 0 {
                assert(s.drop_first()[i - 1] == s[i]);
            }
        }
    }
}

pub proof fn lemma_args_view_len(s: Seq<GenArg>)
    ensures
        args_view(s).len() == s.len(),
        forall|i: int| 0 <= i < s.len() ==> args_view(s)[i] == (#[trigger] s[i])@,
    decreases s,
{
    if s.len() > 0 {
        lemma_args_view_len(s.drop_first());
        assert forall|i: int| 0 <= i < s.len() implies args_view(s)[i] == (#[trigger] s[i])@ by {
            if i > 0 {
                assert(s.drop_first()[i - 1] == s[i]);
            }
        }
    }
}

// ---------------------------------------------------------------------------
// Structural measure, for termination of the consuming transforms.
// ---------------------------------------------------------------------------

/// Number of nodes in the tree, used as a structural measure.
pub open spec fn ty_count(t: Ty) -> nat
    decreases t,
{
    match t {
        Ty::Reference { elem, .. } => 1 + ty_count(*elem),
        Ty::Slice(elem) => 1 + ty_count(*elem),
        Ty::Ptr { elem, .. } => 1 + ty_count(*elem),
        Ty::Tuple(elems) => 1 + count_tys(elems@),
        Ty::Path { segments, .. } => 1 + count_segs(segments@),
    }
}

pub open spec fn count_tys(s: Seq<Ty>) -> nat
    decreases s,
{
    if s.len() == 0 {
        0
    } else {
        1 + ty_count(s[0]) + count_tys(s.drop_first())
    }
}

pub open spec fn count_segs(s: Seq<PathSegment>) -> nat
    decreases s,
{
    if s.len() == 0 {
        0
    } else {
        1 + count_args(s[0].args@) + count_segs(s.drop_first())
    }
}

pub open spec fn count_args(s: Seq<GenArg>) -> nat
    decreases s,
{
    if s.len() == 0 {
        0
    } else {
        1 + (match s[0] {
            GenArg::Ty(t) => ty_count(t),
            GenArg::Lifetime(_) => 0,
        }) + count_args(s.drop_first())
    }
}

} // verus!

verus! {

// ---------------------------------------------------------------------------
// Rendering a type tree back into source text.
// ---------------------------------------------------------------------------

pub open spec fn spec_render_lt_opt(l: Option<Seq<char>>) -> Seq<char> {
    match l {
        Option::Some(n) => "'"@ + n + " "@,
        Option::None => ""@,
    }
}

pub open spec fn spec_render_ty(t: TyV) -> Seq<char>
    decreases t,
{
    match t {
        TyV::Reference { mutable, lifetime, elem } => "&"@ + spec_render_lt_opt(lifetime) + (
        if mutable {
            "mut "@
        } else {
            ""@
        }) + spec_render_ty(*elem),
        TyV::Slice(elem) => "["@ + spec_render_ty(*elem) + "]"@,
        TyV::Ptr { mutable, elem } => (if mutable {
            "*mut "@
        } else {
            "*const "@
        }) + spec_render_ty(*elem),
        TyV::Tuple(elems) => "("@ + spec_render_tys(elems, 0) + ")"@,
        TyV::Path { leading_colon, segments } => (if leading_colon {
            "::"@
        } else {
            ""@
        }) + spec_render_segs(segments, 0),
    }
}

pub open spec fn spec_render_tys(s: Seq<TyV>, i: int) -> Seq<char>
    decreases s, s.len() - i,
{
    if i < 0 || i >= s.len() {
        ""@
    } else if i == s.len() - 1 {
        spec_render_ty(s[i])
    } else {
        spec_render_ty(s[i]) + ", "@ + spec_render_tys(s, i + 1)
    }
}

pub open spec fn spec_render_segs(s: Seq<SegV>, i: int) -> Seq<char>
    decreases s, s.len() - i,
{
    if i < 0 || i >= s.len() {
        ""@
    } else if i == s.len() - 1 {
        spec_render_seg(s[i])
    } else {
        spec_render_seg(s[i]) + "::"@ + spec_render_segs(s, i + 1)
    }
}

pub open spec fn spec_render_seg(s: SegV) -> Seq<char>
    decreases s,
{
    if s.args.len() == 0 {
        s.ident
    } else {
        s.ident + "<"@ + spec_render_args(s.args, 0) + ">"@
    }
}

pub open spec fn spec_render_args(s: Seq<ArgV>, i: int) -> Seq<char>
    decreases s, s.len() - i,
{
    if i < 0 || i >= s.len() {
        ""@
    } else if i == s.len() - 1 {
        spec_render_arg(s[i])
    } else {
        spec_render_arg(s[i]) + ", "@ + spec_render_args(s, i + 1)
    }
}

pub open spec fn spec_render_arg(a: ArgV) -> Seq<char>
    decreases a,
{
    match a {
        ArgV::Lifetime(n) => "'"@ + n,
        ArgV::Ty(t) => spec_render_ty(t),
    }
}

/// Renders a type tree as source text.
pub fn render_ty(t: &Ty, out: &mut String)
    ensures
        final(out)@ == old(out)@ + spec_render_ty(t@),
    decreases ty_count(*t), 0int,
{
    proof {
        reveal_strlit("");
    }
    match t {
        Ty::Reference { mutable, lifetime, elem } => {
            out.append("&");
            match lifetime {
                Option::Some(l) => {
                    out.append("'");
                    out.append(l.name.as_str());
                    out.append(" ");
                },
                Option::None => {},
            }
            if *mutable {
                out.append("mut ");
            }
            render_ty(elem, out);
        },
        Ty::Slice(elem) => {
            out.append("[");
            render_ty(elem, out);
            out.append("]");
        },
        Ty::Ptr { mutable, elem } => {
            if *mutable {
                out.append("*mut ");
            } else {
                out.append("*const ");
            }
            render_ty(elem, out);
        },
        Ty::Tuple(elems) => {
            out.append("(");
            proof {
                lemma_tys_view_len(elems@);
            }
            render_tys(elems, 0, out);
            out.append(")");
        },
        Ty::Path { leading_colon, segments } => {
            if *leading_colon {
                out.append("::");
            }
            proof {
                lemma_segs_view_len(segments@);
            }
            render_segs(segments, 0, out);
        },
    }
    proof {
        assert(out@ =~= old(out)@ + spec_render_ty(tyv(*t)));
    }
}

fn render_tys(s: &Vec<Ty>, i: usize, out: &mut String)
    requires
        i <= s@.len(),
    ensures
        final(out)@ == old(out)@ + spec_render_tys(tys_view(s@), i as int),
    decreases count_tys(s@), s@.len() - i,
{
    proof {
        reveal_strlit("");
        lemma_tys_view_len(s@);
    }
    if i < s.len() {
        proof {
            lemma_count_tys_elem(s@, i as int);
        }
        render_ty(&s[i], out);
        if i != s.len() - 1 {
            out.append(", ");
            render_tys(s, i + 1, out);
        }
    }
    proof {
        assert(out@ =~= old(out)@ + spec_render_tys(tys_view(s@), i as int));
    }
}

fn render_segs(s: &Vec<PathSegment>, i: usize, out: &mut String)
    requires
        i <= s@.len(),
    ensures
        final(out)@ == old(out)@ + spec_render_segs(segs_view(s@), i as int),
    decreases count_segs(s@), s@.len() - i,
{
    proof {
        reveal_strlit("");
        lemma_segs_view_len(s@);
    }
    if i < s.len() {
        proof {
            lemma_count_segs_elem(s@, i as int);
        }
        render_seg(&s[i], out);
        if i != s.len() - 1 {
            out.append("::");
            render_segs(s, i + 1, out);
        }
    }
    proof {
        assert(out@ =~= old(out)@ + spec_render_segs(segs_view(s@), i as int));
    }
}

fn render_seg(s: &PathSegment, out: &mut String)
    ensures
        final(out)@ == old(out)@ + spec_render_seg(s@),
    decreases count_args(s.args@), s.args@.len() + 1,
{
    out.append(s.ident.as_str());
    if s.args.len() > 0 {
        out.append("<");
        proof {
            lemma_args_view_len(s.args@);
        }
        render_args(&s.args, 0, out);
        out.append(">");
    }
    proof {
        assert(out@ =~= old(out)@ + spec_render_seg(s@));
    }
}

fn render_args(s: &Vec<GenArg>, i: usize, out: &mut String)
    requires
        i <= s@.len(),
    ensures
        final(out)@ == old(out)@ + spec_render_args(args_view(s@), i as int),
    decreases count_args(s@), s@.len() - i,
{
    proof {
        reveal_strlit("");
        lemma_args_view_len(s@);
    }
    if i < s.len() {
        proof {
            lemma_count_args_elem(s@, i as int);
        }
        render_arg(&s[i], out);
        if i != s.len() - 1 {
            out.append(", ");
            render_args(s, i + 1, out);
        }
    }
    proof {
        assert(out@ =~= old(out)@ + spec_render_args(args_view(s@), i as int));
    }
}

fn render_arg(a: &GenArg, out: &mut String)
    ensures
        final(out)@ == old(out)@ + spec_render_arg(a@),
    decreases arg_measure(*a), 0int,
{
    match a {
        GenArg::Lifetime(l) => {
            out.append("'");
            out.append(l.name.as_str());
        },
        GenArg::Ty(t) => {
            render_ty(t, out);
        },
    }
    proof {
        assert(out@ =~= old(out)@ + spec_render_arg(a@));
    }
}

/// Element counts are bounded by the count of the whole sequence.
pub proof fn lemma_count_tys_elem(s: Seq<Ty>, i: int)
    requires
        0 <= i < s.len(),
    ensures
        ty_count(s[i]) < count_tys(s),
    decreases s,
{
    if i > 0 {
        lemma_count_tys_elem(s.drop_first(), i - 1);
        assert(s.drop_first()[i - 1] == s[i]);
    }
}

pub proof fn lemma_count_segs_elem(s: Seq<PathSegment>, i: int)
    requires
        0 <= i < s.len(),
    ensures
        count_args(s[i].args@) < count_segs(s),
    decreases s,
{
    if i > 0 {
        lemma_count_segs_elem(s.drop_first(), i - 1);
        assert(s.drop_first()[i - 1] == s[i]);
    }
}

/// Per-argument contribution to the structural measure.
pub open spec fn arg_measure(a: GenArg) -> nat {
    match a {
        GenArg::Ty(t) => 1 + ty_count(t),
        GenArg::Lifetime(_) => 1,
    }
}

pub proof fn lemma_count_args_elem(s: Seq<GenArg>, i: int)
    requires
        0 <= i < s.len(),
    ensures
        count_args(s.subrange(i, s.len() as int)) <= count_args(s),
        arg_measure(s[i]) <= count_args(s),
        forall|t: Ty| s[i] == GenArg::Ty(t) ==> ty_count(t) < count_args(s),
    decreases s,
{
    if i > 0 {
        lemma_count_args_elem(s.drop_first(), i - 1);
        assert(s.drop_first()[i - 1] == s[i]);
        assert(s.drop_first().subrange(i - 1, s.drop_first().len() as int) =~= s.subrange(
            i,
            s.len() as int,
        ));
    } else {
        assert(s.subrange(0, s.len() as int) =~= s);
    }
}

} // verus!

verus! {

// ---------------------------------------------------------------------------
// View-preserving copies.
// ---------------------------------------------------------------------------

/// Copies a type tree; the copy has the same view as the original.
pub fn clone_ty(t: &Ty) -> (r: Ty)
    ensures
        r@ == t@,
    decreases ty_count(*t), 0int,
{
    let r = match t {
        Ty::Reference { mutable, lifetime, elem } => Ty::Reference {
            mutable: *mutable,
            lifetime: clone_lt_opt(lifetime),
            elem: Box::new(clone_ty(elem)),
        },
        Ty::Slice(elem) => Ty::Slice(Box::new(clone_ty(elem))),
        Ty::Ptr { mutable, elem } => Ty::Ptr { mutable: *mutable, elem: Box::new(clone_ty(elem)) },
        Ty::Tuple(elems) => Ty::Tuple(clone_tys(elems)),
        Ty::Path { leading_colon, segments } => Ty::Path {
            leading_colon: *leading_colon,
            segments: clone_segs(segments),
        },
    };
    proof {
        assert(tyv(r) =~= tyv(*t));
    }
    r
}

pub fn clone_lt_opt(l: &Option<LifetimeName>) -> (r: Option<LifetimeName>)
    ensures
        lt_opt_view(r) == lt_opt_view(*l),
{
    match l {
        Option::Some(x) => Option::Some(LifetimeName { name: x.name.clone() }),
        Option::None => Option::None,
    }
}

pub fn clone_tys(s: &Vec<Ty>) -> (r: Vec<Ty>)
    ensures
        tys_view(r@) == tys_view(s@),
    decreases count_tys(s@), 0int,
{
    let mut r: Vec<Ty> = Vec::new();
    let mut i: usize = 0;
    proof {
        lemma_tys_view_len(s@);
    }
    while i < s.len()
        invariant
            i <= s@.len(),
            tys_view(r@) =~= tys_view(s@).subrange(0, i as int),
            tys_view(r@).len() == i,
            tys_view(s@).len() == s@.len(),
            forall|j: int| 0 <= j < s@.len() ==> tys_view(s@)[j] == tyv(#[trigger] s@[j]),
        decreases s@.len() - i,
    {
        proof {
            lemma_count_tys_elem(s@, i as int);
        }
        let e = clone_ty(&s[i]);
        let ghost prev = r@;
        r.push(e);
        proof {
            lemma_tys_view_push(prev, e);
        }
        i = i + 1;
        proof {
            assert(tys_view(r@) =~= tys_view(s@).subrange(0, i as int));
        }
    }
    proof {
        assert(tys_view(s@).subrange(0, s@.len() as int) =~= tys_view(s@));
    }
    r
}

/// Appending one element extends the element-wise view by its view.
pub proof fn lemma_tys_view_push(s: Seq<Ty>, e: Ty)
    ensures
        tys_view(s.push(e)) =~= tys_view(s).push(tyv(e)),
    decreases s,
{
    lemma_tys_view_len(s);
    lemma_tys_view_len(s.push(e));
    assert forall|i: int| 0 <= i < s.len() + 1 implies tys_view(s.push(e))[i] == tys_view(s).push(
        tyv(e),
    )[i] by {
        if i < s.len() {
            assert(s.push(e)[i] == s[i]);
        } else {
            assert(s.push(e)[i] == e);
        }
    }
}

pub proof fn lemma_segs_view_push(s: Seq<PathSegment>, e: PathSegment)
    ensures
        segs_view(s.push(e)) =~= segs_view(s).push(e@),
{
    lemma_segs_view_len(s);
    lemma_segs_view_len(s.push(e));
    assert forall|i: int| 0 <= i < s.len() + 1 implies segs_view(s.push(e))[i] == segs_view(
        s,
    ).push(e@)[i] by {
        if i < s.len() {
            assert(s.push(e)[i] == s[i]);
        } else {
            assert(s.push(e)[i] == e);
        }
    }
}

pub proof fn lemma_args_view_push(s: Seq<GenArg>, e: GenArg)
    ensures
        args_view(s.push(e)) =~= args_view(s).push(e@),
{
    lemma_args_view_len(s);
    lemma_args_view_len(s.push(e));
    assert forall|i: int| 0 <= i < s.len() + 1 implies args_view(s.push(e))[i] == args_view(
        s,
    ).push(e@)[i] by {
        if i < s.len() {
            assert(s.push(e)[i] == s[i]);
        } else {
            assert(s.push(e)[i] == e);
        }
    }
}

pub fn clone_segs(s: &Vec<PathSegment>) -> (r: Vec<PathSegment>)
    ensures
        segs_view(r@) == segs_view(s@),
    decreases count_segs(s@), 0int,
{
    let mut r: Vec<PathSegment> = Vec::new();
    let mut i: usize = 0;
    proof {
        lemma_segs_view_len(s@);
    }
    while i < s.len()
        invariant
            i <= s@.len(),
            segs_view(r@) =~= segs_view(s@).subrange(0, i as int),
            segs_view(r@).len() == i,
            segs_view(s@).len() == s@.len(),
            forall|j: int| 0 <= j < s@.len() ==> segs_view(s@)[j] == (#[trigger] s@[j])@,
        decreases s@.len() - i,
    {
        proof {
            lemma_count_segs_elem(s@, i as int);
        }
        let e = clone_seg(&s[i]);
        let ghost prev = r@;
        r.push(e);
        proof {
            lemma_segs_view_push(prev, e);
        }
        i = i + 1;
        proof {
            assert(segs_view(r@) =~= segs_view(s@).subrange(0, i as int));
        }
    }
    proof {
        assert(segs_view(s@).subrange(0, s@.len() as int) =~= segs_view(s@));
    }
    r
}

pub fn clone_seg(s: &PathSegment) -> (r: PathSegment)
    ensures
        r@ == s@,
    decreases count_args(s.args@), 2int,
{
    let r = PathSegment { ident: s.ident.clone(), args: clone_args(&s.args) };
    proof {
        assert(r@ =~= s@);
    }
    r
}

pub fn clone_args(s: &Vec<GenArg>) -> (r: Vec<GenArg>)
    ensures
        args_view(r@) == args_view(s@),
    decreases count_args(s@), 1int,
{
    let mut r: Vec<GenArg> = Vec::new();
    let mut i: usize = 0;
    proof {
        lemma_args_view_len(s@);
    }
    while i < s.len()
        invariant
            i <= s@.len(),
            args_view(r@) =~= args_view(s@).subrange(0, i as int),
            args_view(r@).len() == i,
            args_view(s@).len() == s@.len(),
            forall|j: int| 0 <= j < s@.len() ==> args_view(s@)[j] == (#[trigger] s@[j])@,
        decreases s@.len() - i,
    {
        proof {
            lemma_count_args_elem(s@, i as int);
        }
        let e = clone_arg(&s[i]);
        let ghost prev = r@;
        r.push(e);
        proof {
            lemma_args_view_push(prev, e);
        }
        i = i + 1;
        proof {
            assert(args_view(r@) =~= args_view(s@).subrange(0, i as int));
        }
    }
    proof {
        assert(args_view(s@).subrange(0, s@.len() as int) =~= args_view(s@));
    }
    r
}

pub fn clone_arg(a: &GenArg) -> (r: GenArg)
    ensures
        r@ == a@,
    decreases arg_measure(*a), 0int,
{
    match a {
        GenArg::Lifetime(l) => GenArg::Lifetime(LifetimeName { name: l.name.clone() }),
        GenArg::Ty(t) => GenArg::Ty(clone_ty(t)),
    }
}

} // verus!

verus! {

use crate::strutil::str_is;

// ---------------------------------------------------------------------------
// Shape predicates.
// ---------------------------------------------------------------------------

/// Whether a type already admits the null-pointer layout optimization, so an
/// optional of it needs no tagged boundary representation: references and
/// known non-null pointer wrappers qualify.
pub open spec fn spec_npo(t: TyV) -> bool {
    match t {
        TyV::Reference { .. } => true,
        TyV::Path { segments, .. } => segments.len() > 0 && segments.last().ident == "NonNull"@,
        _ => false,
    }
}

/// Decides [`spec_npo`] on a type tree.
pub fn is_null_pointer_optimizable(t: &Ty) -> (r: bool)
    ensures
        r == spec_npo(t@),
{
    match t {
        Ty::Reference { .. } => true,
        Ty::Path { segments, .. } => {
            proof {
                lemma_segs_view_len(segments@);
            }
            if segments.len() > 0 {
                str_is(&segments[segments.len() - 1].ident, "NonNull")
            } else {
                false
            }
        },
        _ => false,
    }
}

// ---------------------------------------------------------------------------
// Lifetime rewriting: every lifetime argument mentioned in a path, except
// `'static`, is renamed to one target lifetime, recursively through the
// type arguments of the path.
// ---------------------------------------------------------------------------

pub open spec fn spec_wl_ty(t: TyV, target: Seq<char>) -> TyV
    decreases t,
{
    match t {
        TyV::Path { leading_colon, segments } => TyV::Path {
            leading_colon,
            segments: spec_wl_segs(segments, target),
        },
        _ => t,
    }
}

pub open spec fn spec_wl_segs(s: Seq<SegV>, target: Seq<char>) -> Seq<SegV>
    decreases s,
{
    if s.len() == 0 {
        Seq::empty()
    } else {
        seq![
            (SegV { ident: s[0].ident, args: spec_wl_args(s[0].args, target) }),
        ] + spec_wl_segs(s.drop_first(), target)
    }
}

pub open spec fn spec_wl_args(s: Seq<ArgV>, target: Seq<char>) -> Seq<ArgV>
    decreases s,
{
    if s.len() == 0 {
        Seq::empty()
    } else {
        seq![
            (match s[0] {
                ArgV::Lifetime(n) => if n == "static"@ {
                    ArgV::Lifetime(n)
                } else {
                    ArgV::Lifetime(target)
                },
                ArgV::Ty(t) => ArgV::Ty(spec_wl_ty(t, target)),
            }),
        ] + spec_wl_args(s.drop_first(), target)
    }
}

pub proof fn lemma_wl_segs_len(s: Seq<SegV>, target: Seq<char>)
    ensures
        spec_wl_segs(s, target).len() == s.len(),
        forall|i: int|
            0 <= i < s.len() ==> spec_wl_segs(s, target)[i] == (SegV {
                ident: (#[trigger] s[i]).ident,
                args: spec_wl_args(s[i].args, target),
            }),
    decreases s,
{
    if s.len() > 0 {
        lemma_wl_segs_len(s.drop_first(), target);
        assert forall|i: int|
            0 <= i < s.len() implies spec_wl_segs(s, target)[i] == (SegV {
            ident: (#[trigger] s[i]).ident,
            args: spec_wl_args(s[i].args, target),
        }) by {
            if i > 0 {
                assert(s.drop_first()[i - 1] == s[i]);
            }
        }
    }
}

pub proof fn lemma_wl_args_len(s: Seq<ArgV>, target: Seq<char>)
    ensures
        spec_wl_args(s, target).len() == s.len(),
        forall|i: int|
            0 <= i < s.len() ==> spec_wl_args(s, target)[i] == (match #[trigger] s[i] {
                ArgV::Lifetime(n) => if n == "static"@ {
                    ArgV::Lifetime(n)
                } else {
                    ArgV::Lifetime(target)
                },
                ArgV::Ty(t) => ArgV::Ty(spec_wl_ty(t, target)),
            }),
    decreases s,
{
    if s.len() > 0 {
        lemma_wl_args_len(s.drop_first(), target);
        assert forall|i: int|
            0 <= i < s.len() implies spec_wl_args(s, target)[i] == (match #[trigger] s[i] {
            ArgV::Lifetime(n) => if n == "static"@ {
                ArgV::Lifetime(n)
            } else {
                ArgV::Lifetime(target)
            },
            ArgV::Ty(t) => ArgV::Ty(spec_wl_ty(t, target)),
        }) by {
            if i > 0 {
                assert(s.drop_first()[i - 1] == s[i]);
            }
        }
    }
}

/// Renames the lifetimes of a type tree to `target`, per [`spec_wl_ty`].
pub fn wrapped_lifetime(t: &Ty, target: &LifetimeName) -> (r: Ty)
    ensures
        r@ == spec_wl_ty(t@, target.name@),
    decreases ty_count(*t), 1int,
{
    match t {
        Ty::Path { leading_colon, segments } => {
            let ghost orig = segs_view(segments@);
            proof {
                lemma_segs_view_len(segments@);
                lemma_wl_segs_len(orig, target.name@);
            }
            let mut out: Vec<PathSegment> = Vec::new();
            let mut i: usize = 0;
            while i < segments.len()
                invariant
                    i <= segments@.len(),
                    orig == segs_view(segments@),
                    orig.len() == segments@.len(),
                    segs_view(out@) =~= spec_wl_segs(orig, target.name@).subrange(0, i as int),
                    segs_view(out@).len() == i,
                    spec_wl_segs(orig, target.name@).len() == orig.len(),
                    forall|j: int| 0 <= j < segments@.len() ==> orig[j] == (
                    #[trigger] segments@[j])@,
                    forall|j: int|
                        0 <= j < orig.len() ==> spec_wl_segs(orig, target.name@)[j] == (SegV {
                            ident: (#[trigger] orig[j]).ident,
                            args: spec_wl_args(orig[j].args, target.name@),
                        }),
                    ty_count(*t) == 1 + count_segs(segments@),
                decreases segments@.len() - i,
            {
                proof {
                    lemma_count_segs_elem(segments@, i as int);
                }
                let new_args = wl_args(&segments[i].args, target);
                let ghost prev = out@;
                let new_seg = PathSegment { ident: segments[i].ident.clone(), args: new_args };
                out.push(new_seg);
                proof {
                    lemma_segs_view_push(prev, new_seg);
                }
                i = i + 1;
                proof {
                    assert(segs_view(out@) =~= spec_wl_segs(orig, target.name@).subrange(
                        0,
                        i as int,
                    ));
                }
            }
            proof {
                assert(spec_wl_segs(orig, target.name@).subrange(
                    0,
                    orig.len() as int,
                ) =~= spec_wl_segs(orig, target.name@));
            }
            Ty::Path { leading_colon: *leading_colon, segments: out }
        },
        _ => {
            let r = clone_ty(t);
            proof {
                assert(spec_wl_ty(t@, target.name@) == t@);
            }
            r
        },
    }
}

fn wl_args(s: &Vec<GenArg>, target: &LifetimeName) -> (r: Vec<GenArg>)
    ensures
        args_view(r@) == spec_wl_args(args_view(s@), target.name@),
    decreases count_args(s@), 0int,
{
    let ghost orig = args_view(s@);
    proof {
        lemma_args_view_len(s@);
        lemma_wl_args_len(orig, target.name@);
    }
    let mut out: Vec<GenArg> = Vec::new();
    let mut i: usize = 0;
    while i < s.len()
        invariant
            i <= s@.len(),
            orig == args_view(s@),
            orig.len() == s@.len(),
            args_view(out@) =~= spec_wl_args(orig, target.name@).subrange(0, i as int),
            args_view(out@).len() == i,
            spec_wl_args(orig, target.name@).len() == orig.len(),
            forall|j: int| 0 <= j < s@.len() ==> orig[j] == (#[trigger] s@[j])@,
            forall|j: int|
                0 <= j < orig.len() ==> spec_wl_args(orig, target.name@)[j] == (
                match #[trigger] orig[j] {
                    ArgV::Lifetime(n) => if n == "static"@ {
                        ArgV::Lifetime(n)
                    } else {
                        ArgV::Lifetime(target.name@)
                    },
                    ArgV::Ty(t) => ArgV::Ty(spec_wl_ty(t, target.name@)),
                }),
        decreases s@.len() - i,
    {
        proof {
            lemma_count_args_elem(s@, i as int);
        }
        let na = match &s[i] {
            GenArg::Lifetime(l) => {
                if str_is(&l.name, "static") {
                    GenArg::Lifetime(LifetimeName { name: l.name.clone() })
                } else {
                    GenArg::Lifetime(LifetimeName { name: target.name.clone() })
                }
            },
            GenArg::Ty(t) => GenArg::Ty(wrapped_lifetime(t, target)),
        };
        let ghost prev = out@;
        let ghost nav = na;
        out.push(na);
        proof {
            lemma_args_view_push(prev, nav);
        }
        i = i + 1;
        proof {
            assert(args_view(out@) =~= spec_wl_args(orig, target.name@).subrange(0, i as int));
        }
    }
    proof {
        assert(spec_wl_args(orig, target.name@).subrange(0, orig.len() as int) =~= spec_wl_args(
            orig,
            target.name@,
        ));
    }
    out
}

// ---------------------------------------------------------------------------
// Path replacement that keeps the final generic arguments: the whole path is
// replaced by a new one, but the last new segment inherits the generic
// arguments of the last old segment.
// ---------------------------------------------------------------------------

pub open spec fn spec_replace_path(t: TyV, new_lc: bool, new_segs: Seq<SegV>) -> TyV {
    match t {
        TyV::Path { leading_colon, segments } => {
            if segments.len() > 0 && new_segs.len() > 0 {
                TyV::Path {
                    leading_colon: new_lc,
                    segments: new_segs.update(
                        new_segs.len() - 1,
                        (SegV { ident: new_segs.last().ident, args: segments.last().args }),
                    ),
                }
            } else {
                TyV::Path { leading_colon: new_lc, segments: new_segs }
            }
        },
        _ => t,
    }
}

/// Replaces a path type by `new_segs`, keeping the last old segment's
/// generic arguments, per [`spec_replace_path`].
pub fn replace_path_keep_final_args(t: Ty, new_lc: bool, new_segs: &Vec<PathSegment>) -> (r: Ty)
    ensures
        r@ == spec_replace_path(t@, new_lc, segs_view(new_segs@)),
{
    match t {
        Ty::Path { leading_colon, segments } => {
            let ghost oldsegs = segs_view(segments@);
            let ghost newsegs = segs_view(new_segs@);
            proof {
                lemma_segs_view_len(segments@);
                lemma_segs_view_len(new_segs@);
            }
            let mut ns = clone_segs(new_segs);
            let ghost clonedv = ns@;
            proof {
                lemma_segs_view_len(ns@);
            }
            let mut segments = segments;
            if segments.len() > 0 && ns.len() > 0 {
                let old_last = segments.pop().unwrap();
                let new_last = ns.pop().unwrap();
                proof {
                    assert(old_last@ == oldsegs.last());
                    assert(new_last@ == newsegs.last());
                }
                let ghost prev = ns@;
                let patched = PathSegment { ident: new_last.ident, args: old_last.args };
                let ghost patchedv = patched;
                ns.push(patched);
                proof {
                    lemma_segs_view_push(prev, patchedv);
                    lemma_segs_view_len(prev);
                    lemma_segs_view_len(ns@);
                    assert(ns@ == prev.push(patchedv));
                    assert(segs_view(ns@) =~= segs_view(prev).push(patchedv@));
                    assert(patchedv@.ident == newsegs.last().ident);
                    assert(patchedv@.args == oldsegs.last().args);
                    assert(segs_view(prev).len() == newsegs.len() - 1);
                    assert forall|j: int|
                        0 <= j < newsegs.len() - 1 implies segs_view(prev)[j] == newsegs[j] by {
                        lemma_segs_view_len(clonedv);
                        assert(prev == clonedv.drop_last());
                        assert(prev[j] == clonedv[j]);
                        assert(segs_view(prev)[j] == prev[j]@);
                        assert(segs_view(clonedv)[j] == clonedv[j]@);
                    }
                    assert(segs_view(ns@) =~= newsegs.update(
                        newsegs.len() - 1,
                        (SegV { ident: newsegs.last().ident, args: oldsegs.last().args }),
                    ));
                }
            }
            Ty::Path { leading_colon: new_lc, segments: ns }
        },
        _ => t,
    }
}

} // verus!

verus! {

/// Copies the tail of a segment list starting at `i`.
pub fn clone_segs_suffix(s: &Vec<PathSegment>, i: usize) -> (r: Vec<PathSegment>)
    requires
        i <= s@.len(),
    ensures
        segs_view(r@) == segs_view(s@).subrange(i as int, s@.len() as int),
{
    proof {
        lemma_segs_view_len(s@);
    }
    let mut r: Vec<PathSegment> = Vec::new();
    let mut j: usize = i;
    while j < s.len()
        invariant
            i <= j <= s@.len(),
            segs_view(r@) =~= segs_view(s@).subrange(i as int, j as int),
            segs_view(r@).len() == j - i,
            segs_view(s@).len() == s@.len(),
            forall|k: int| 0 <= k < s@.len() ==> segs_view(s@)[k] == (#[trigger] s@[k])@,
        decreases s@.len() - j,
    {
        proof {
            lemma_count_segs_elem(s@, j as int);
        }
        let e = clone_seg(&s[j]);
        let ghost prev = r@;
        r.push(e);
        proof {
            lemma_segs_view_push(prev, r@.last());
        }
        j = j + 1;
        proof {
            assert(segs_view(r@) =~= segs_view(s@).subrange(i as int, j as int));
        }
    }
    r
}

/// Copies the tail of an argument list starting at `i`.
pub fn clone_args_suffix(s: &Vec<GenArg>, i: usize) -> (r: Vec<GenArg>)
    requires
        i <= s@.len(),
    ensures
        args_view(r@) == args_view(s@).subrange(i as int, s@.len() as int),
{
    proof {
        lemma_args_view_len(s@);
    }
    let mut r: Vec<GenArg> = Vec::new();
    let mut j: usize = i;
    while j < s.len()
        invariant
            i <= j <= s@.len(),
            args_view(r@) =~= args_view(s@).subrange(i as int, j as int),
            args_view(r@).len() == j - i,
            args_view(s@).len() == s@.len(),
            forall|k: int| 0 <= k < s@.len() ==> args_view(s@)[k] == (#[trigger] s@[k])@,
        decreases s@.len() - j,
    {
        proof {
            lemma_count_args_elem(s@, j as int);
        }
        let e = clone_arg(&s[j]);
        let ghost prev = r@;
        r.push(e);
        proof {
            lemma_args_view_push(prev, r@.last());
        }
        j = j + 1;
        proof {
            assert(args_view(r@) =~= args_view(s@).subrange(i as int, j as int));
        }
    }
    r
}

/// Copies the tail of a type list starting at `i`.
pub fn clone_tys_suffix(s: &Vec<Ty>, i: usize) -> (r: Vec<Ty>)
    requires
        i <= s@.len(),
    ensures
        tys_view(r@) == tys_view(s@).subrange(i as int, s@.len() as int),
{
    proof {
        lemma_tys_view_len(s@);
    }
    let mut r: Vec<Ty> = Vec::new();
    let mut j: usize = i;
    while j < s.len()
        invariant
            i <= j <= s@.len(),
            tys_view(r@) =~= tys_view(s@).subrange(i as int, j as int),
            tys_view(r@).len() == j - i,
            tys_view(s@).len() == s@.len(),
            forall|k: int| 0 <= k < s@.len() ==> tys_view(s@)[k] == tyv(#[trigger] s@[k]),
        decreases s@.len() - j,
    {
        proof {
            lemma_count_tys_elem(s@, j as int);
        }
        let e = clone_ty(&s[j]);
        let ghost prev = r@;
        r.push(e);
        proof {
            lemma_tys_view_push(prev, r@.last());
        }
        j = j + 1;
        proof {
            assert(tys_view(r@) =~= tys_view(s@).subrange(i as int, j as int));
        }
    }
    r
}

} // verus!

verus! {

/// The view constructor mirrors the tree constructor.
pub proof fn lemma_tyv_shape(t: Ty)
    ensures
        (tyv(t) is Reference) == (t is Reference),
        (tyv(t) is Slice) == (t is Slice),
        (tyv(t) is Ptr) == (t is Ptr),
        (tyv(t) is Tuple) == (t is Tuple),
        (tyv(t) is Path) == (t is Path),
{
    match t {
        Ty::Reference { .. } => {},
        Ty::Slice(_) => {},
        Ty::Ptr { .. } => {},
        Ty::Tuple(_) => {},
        Ty::Path { .. } => {},
    }
}

} // verus!
