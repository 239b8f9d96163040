//! The argument transform.
//!
//! Per parameter, decides the boundary representation and derives the five
//! code fragments used at the call sites: the trait-side binding code, the
//! boundary call arguments, the boundary parameter declaration (in two
//! lifetime variants), and the trait-call argument.  A parameter whose
//! representation does not change is marked trivial.

use vstd::prelude::*;

verus! {

use crate::rules::{spec_wrap_ty, wrap_type, WrapRules};
use crate::strutil::{empty_string, str_is};
use crate::ty::{
    clone_lt_opt, lemma_tyv_shape, lt_opt_view, render_ty, spec_npo, spec_render_lt_opt,
    spec_render_ty, tyv, is_null_pointer_optimizable, lemma_args_view_len, lemma_segs_view_len,
    ArgV, GenArg, LifetimeName, SegV, Ty, TyV,
};

/// The receiver of a method: by value, by reference, or by mutable
/// reference, with an optional explicit lifetime.
pub struct Receiver {
    pub reference: bool,
    pub mutability: bool,
    pub lifetime: Option<LifetimeName>,
}

/// Spec-level mirror of [`Receiver`].
#[verifier::ext_equal]
pub struct ReceiverV {
    pub reference: bool,
    pub mutability: bool,
    pub lifetime: Option<Seq<char>>,
}

impl View for Receiver {
    type V = ReceiverV;

    open spec fn view(&self) -> ReceiverV {
        ReceiverV {
            reference: self.reference,
            mutability: self.mutability,
            lifetime: lt_opt_view(self.lifetime),
        }
    }
}

/// One declared parameter: the receiver, or a named, typed parameter.
pub enum FnArg {
    Receiver(Receiver),
    Typed { name: String, ty: Ty },
}

/// Spec-level mirror of [`FnArg`].
#[verifier::ext_equal]
pub enum FnArgV {
    Receiver(ReceiverV),
    Typed { name: Seq<char>, ty: TyV },
}

impl View for FnArg {
    type V = FnArgV;

    open spec fn view(&self) -> FnArgV {
        match *self {
            FnArg::Receiver(ref r) => FnArgV::Receiver(r@),
            FnArg::Typed { ref name, ref ty } => FnArgV::Typed { name: name@, ty: tyv(*ty) },
        }
    }
}

/// One parameter's derived boundary fragments.
pub struct TraitArg {
    /// The parameter as the boundary sees it (associated types substituted).
    pub arg: FnArg,
    /// Trait-impl side bindings that prepare the boundary call.
    pub to_c_args: String,
    /// Arguments inside the call to the boundary function.
    pub call_c_args: String,
    /// Boundary function parameter declaration.
    pub c_args: String,
    /// Boundary parameter declaration with the recast lifetime.
    pub c_cast_args: String,
    /// Argument inside the call to the trait function.
    pub to_trait_arg: String,
    /// True when the representation does not change.
    pub trivial: bool,
}

/// Spec-level mirror of [`TraitArg`].
#[verifier::ext_equal]
pub struct TraitArgV {
    pub arg: FnArgV,
    pub to_c_args: Seq<char>,
    pub call_c_args: Seq<char>,
    pub c_args: Seq<char>,
    pub c_cast_args: Seq<char>,
    pub to_trait_arg: Seq<char>,
    pub trivial: bool,
}

impl View for TraitArg {
    type V = TraitArgV;

    open spec fn view(&self) -> TraitArgV {
        TraitArgV {
            arg: self.arg@,
            to_c_args: self.to_c_args@,
            call_c_args: self.call_c_args@,
            c_args: self.c_args@,
            c_cast_args: self.c_cast_args@,
            to_trait_arg: self.to_trait_arg@,
            trivial: self.trivial,
        }
    }
}

// ---------------------------------------------------------------------------
// Shape tests used by the transform.
// ---------------------------------------------------------------------------

/// A path of exactly one plain segment with the given name.
pub open spec fn spec_path_is_ident(t: TyV, name: Seq<char>) -> bool {
    match t {
        TyV::Path { leading_colon, segments } => !leading_colon && segments.len() == 1
            && segments[0].ident == name && segments[0].args.len() == 0,
        _ => false,
    }
}

// ---------------------------------------------------------------------------
// Fragment texts.
// ---------------------------------------------------------------------------

/// Boundary declaration of a reference receiver parameter.
pub open spec fn spec_recv_decl(mutable: bool, lt: Option<Seq<char>>) -> Seq<char> {
    "thisptr: &"@ + spec_render_lt_opt(lt) + (if mutable {
        "mut "@
    } else {
        ""@
    }) + "CGlueF,"@
}

/// The boundary slice type standing in for a slice or string reference.
pub open spec fn spec_slice_ty(crate_path: Seq<char>, mutable: bool, elem: Seq<char>) -> Seq<
    char,
> {
    crate_path + "::slice::"@ + (if mutable {
        "CSliceMut<"@
    } else {
        "CSliceRef<"@
    }) + elem + ">"@
}

/// The chosen receiver lifetime: the injected one, else the receiver's own.
pub open spec fn spec_recv_lt(inject: Option<Seq<char>>, r: ReceiverV) -> Option<Seq<char>> {
    if inject is Some {
        inject
    } else {
        r.lifetime
    }
}

/// Fragments of a typed parameter, derived from its (already substituted)
/// type: slice and string references become boundary slice pairs, optionals
/// without the null-pointer optimization become tagged optionals, two-case
/// sum types become tagged unions, and the rest passes through unchanged.
pub open spec fn spec_typed_fragments(name: Seq<char>, w: TyV, crate_path: Seq<char>) -> (
    Seq<char>,
    Seq<char>,
    Seq<char>,
    Seq<char>,
    bool,
) {
    match w {
        TyV::Reference { mutable, lifetime, elem } => {
            match *elem {
                TyV::Slice(se) => {
                    let slty = spec_slice_ty(crate_path, mutable, spec_render_ty(*se));
                    (""@, name + ".into(),"@, name + ": "@ + slty + ","@, name + ".into(),"@, false)
                },
                _ => {
                    if spec_path_is_ident(*elem, "str"@) {
                        let slty = spec_slice_ty(crate_path, mutable, "u8"@);
                        (
                            ""@,
                            name + ".into(),"@,
                            name + ": "@ + slty + ","@,
                            name + ".into(),"@,
                            false,
                        )
                    } else {
                        spec_trivial_fragments(name, w)
                    }
                },
            }
        },
        TyV::Path { leading_colon, segments } => {
            if segments.len() > 0 && segments.last().ident == "Option"@ && segments.last().args.len()
                >= 1 && segments.last().args[0] is Ty && !spec_npo(
                segments.last().args[0]->Ty_0,
            ) {
                let a = spec_render_ty(segments.last().args[0]->Ty_0);
                (
                    "let "@ + name + " = "@ + name + ".into();"@,
                    name + ","@,
                    name + ": "@ + crate_path + "::option::COption<"@ + a + ">,"@,
                    name + ".into(),"@,
                    false,
                )
            } else if segments.len() > 0 && segments.last().ident == "Result"@
                && segments.last().args.len() == 2 && segments.last().args[0] is Ty
                && segments.last().args[1] is Ty {
                let a = spec_render_ty(segments.last().args[0]->Ty_0);
                let b = spec_render_ty(segments.last().args[1]->Ty_0);
                (
                    "let "@ + name + " = "@ + name + ".into();"@,
                    name + ","@,
                    name + ": "@ + crate_path + "::result::CResult<"@ + a + ", "@ + b + ">,"@,
                    name + ".into(),"@,
                    false,
                )
            } else {
                spec_trivial_fragments(name, w)
            }
        },
        _ => spec_trivial_fragments(name, w),
    }
}

/// Fragments of a parameter that passes through unchanged.
pub open spec fn spec_trivial_fragments(name: Seq<char>, w: TyV) -> (
    Seq<char>,
    Seq<char>,
    Seq<char>,
    Seq<char>,
    bool,
) {
    (
        "let "@ + name + " = "@ + name + ";"@,
        name + ","@,
        name + ": "@ + spec_render_ty(w) + ","@,
        name + ","@,
        true,
    )
}

/// The full argument transform over one parameter.
pub open spec fn spec_trait_arg(
    arg: FnArgV,
    rules: Seq<crate::rules::WrapRuleV>,
    crate_path: Seq<char>,
    lt: Option<Seq<char>>,
    lt_cast: Option<Seq<char>>,
) -> TraitArgV {
    match arg {
        FnArgV::Receiver(r) => {
            let lifetime = spec_recv_lt(lt, r);
            let lifetime_cast = spec_recv_lt(lt_cast, r);
            if !r.reference {
                TraitArgV {
                    arg: FnArgV::Receiver(r),
                    to_c_args: "let thisobj = self.cobj_owned();"@,
                    call_c_args: "thisobj,"@,
                    c_args: "thisobj: CGlueT,"@,
                    c_cast_args: "thisobj: CGlueT,"@,
                    to_trait_arg: ""@,
                    trivial: false,
                }
            } else if r.mutability {
                TraitArgV {
                    arg: FnArgV::Receiver(r),
                    to_c_args: "let (thisptr, ret_tmp, cglue_ctx) = self.cobj_mut();"@,
                    call_c_args: "thisptr,"@,
                    c_args: spec_recv_decl(true, lifetime),
                    c_cast_args: spec_recv_decl(true, lifetime_cast),
                    to_trait_arg: ""@,
                    trivial: true,
                }
            } else {
                TraitArgV {
                    arg: FnArgV::Receiver(r),
                    to_c_args: "let (thisptr, ret_tmp, cglue_ctx) = self.cobj_ref();"@,
                    call_c_args: "thisptr,"@,
                    c_args: spec_recv_decl(false, lifetime),
                    c_cast_args: spec_recv_decl(false, lifetime_cast),
                    to_trait_arg: ""@,
                    trivial: true,
                }
            }
        },
        FnArgV::Typed { name, ty } => {
            let w = spec_wrap_ty(ty, rules).0;
            let f = spec_typed_fragments(name, w, crate_path);
            TraitArgV {
                arg: FnArgV::Typed { name, ty: w },
                to_c_args: f.0,
                call_c_args: f.1,
                c_args: f.2,
                c_cast_args: f.2,
                to_trait_arg: f.3,
                trivial: f.4,
            }
        },
    }
}

impl TraitArg {
    /// Derives one parameter's boundary fragments, per [`spec_trait_arg`].
    pub fn new(
        arg: FnArg,
        rules: &WrapRules,
        crate_path: &String,
        inject_lifetime: Option<&LifetimeName>,
        inject_lifetime_cast: Option<&LifetimeName>,
    ) -> (r: TraitArg)
        requires
            (match arg@ {
                FnArgV::Typed { ty, .. } => spec_wrap_ty(ty, rules@).2,
                _ => true,
            }),
        ensures
            r@ == spec_trait_arg(
                arg@,
                rules@,
                crate_path@,
                (match inject_lifetime {
                    Option::Some(l) => Option::Some(l.name@),
                    Option::None => Option::None,
                }),
                (match inject_lifetime_cast {
                    Option::Some(l) => Option::Some(l.name@),
                    Option::None => Option::None,
                }),
            ),
    {
        match arg {
            FnArg::Receiver(rcv) => {
                let lifetime = pick_lt(inject_lifetime, &rcv.lifetime);
                let lifetime_cast = pick_lt(inject_lifetime_cast, &rcv.lifetime);
                if !rcv.reference {
                    TraitArg {
                        arg: FnArg::Receiver(rcv),
                        to_c_args: String::from_str("let thisobj = self.cobj_owned();"),
                        call_c_args: String::from_str("thisobj,"),
                        c_args: String::from_str("thisobj: CGlueT,"),
                        c_cast_args: String::from_str("thisobj: CGlueT,"),
                        to_trait_arg: empty_string(),
                        trivial: false,
                    }
                } else if rcv.mutability {
                    TraitArg {
                        arg: FnArg::Receiver(rcv),
                        to_c_args: String::from_str(
                            "let (thisptr, ret_tmp, cglue_ctx) = self.cobj_mut();",
                        ),
                        call_c_args: String::from_str("thisptr,"),
                        c_args: recv_decl(true, &lifetime),
                        c_cast_args: recv_decl(true, &lifetime_cast),
                        to_trait_arg: empty_string(),
                        trivial: true,
                    }
                } else {
                    TraitArg {
                        arg: FnArg::Receiver(rcv),
                        to_c_args: String::from_str(
                            "let (thisptr, ret_tmp, cglue_ctx) = self.cobj_ref();",
                        ),
                        call_c_args: String::from_str("thisptr,"),
                        c_args: recv_decl(false, &lifetime),
                        c_cast_args: recv_decl(false, &lifetime_cast),
                        to_trait_arg: empty_string(),
                        trivial: true,
                    }
                }
            },
            FnArg::Typed { name, ty } => {
                let (w, _f) = wrap_type(&ty, rules);
                let (to_c, call_c, c_args, to_trait, trivial) = typed_fragments(
                    &name,
                    &w,
                    crate_path,
                );
                let c_cast_args = c_args.clone();
                TraitArg {
                    arg: FnArg::Typed { name, ty: w },
                    to_c_args: to_c,
                    call_c_args: call_c,
                    c_args,
                    c_cast_args,
                    to_trait_arg: to_trait,
                    trivial,
                }
            },
        }
    }
}

/// The injected lifetime when present, else the receiver's own.
fn pick_lt(inject: Option<&LifetimeName>, own: &Option<LifetimeName>) -> (r: Option<LifetimeName>)
    ensures
        lt_opt_view(r) == spec_recv_lt(
            (match inject {
                Option::Some(l) => Option::Some(l.name@),
                Option::None => Option::None,
            }),
            (ReceiverV { reference: false, mutability: false, lifetime: lt_opt_view(*own) }),
        ),
{
    match inject {
        Option::Some(l) => Option::Some(LifetimeName { name: l.name.clone() }),
        Option::None => clone_lt_opt(own),
    }
}

fn recv_decl(mutable: bool, lt: &Option<LifetimeName>) -> (r: String)
    ensures
        r@ == spec_recv_decl(mutable, lt_opt_view(*lt)),
{
    let mut s = String::new();
    proof {
        reveal_strlit("");
    }
    s.append("thisptr: &");
    match lt {
        Option::Some(l) => {
            s.append("'");
            s.append(l.name.as_str());
            s.append(" ");
        },
        Option::None => {},
    }
    if mutable {
        s.append("mut ");
    }
    s.append("CGlueF,");
    proof {
        assert(s@ =~= spec_recv_decl(mutable, lt_opt_view(*lt)));
    }
    s
}

/// Builds the fragments of a typed parameter, per [`spec_typed_fragments`].
fn typed_fragments(name: &String, w: &Ty, crate_path: &String) -> (r: (
    String,
    String,
    String,
    String,
    bool,
))
    ensures
        ({
            let f = spec_typed_fragments(name@, w@, crate_path@);
            r.0@ == f.0 && r.1@ == f.1 && r.2@ == f.2 && r.3@ == f.3 && r.4 == f.4
        }),
{
    proof {
        reveal_strlit("");
        reveal_strlit("Option");
        reveal_strlit("Result");
        assert("Option"@[0] != "Result"@[0]);
        assert("Option"@ != "Result"@);
    }
    match w {
        Ty::Reference { mutable, lifetime, elem } => {
            match &**elem {
                Ty::Slice(se) => {
                    let mut elem_txt = String::new();
                    render_ty(se, &mut elem_txt);
                    let r = slice_fragments(name, crate_path, *mutable, &elem_txt);
                    proof {
                        assert(tyv(**elem) is Slice);
                    }
                    r
                },
                other => {
                    proof {
                        lemma_tyv_shape(**elem);
                    }
                    if path_is_ident(other, "str") {
                        let u8_txt = String::from_str("u8");
                        let r = slice_fragments(name, crate_path, *mutable, &u8_txt);
                        proof {
                            let f = spec_typed_fragments(name@, w@, crate_path@);
                            assert(spec_path_is_ident(tyv(**elem), "str"@));
                            assert(r.4 == f.4);
                            assert(r.0@ == f.0);
                            assert(r.1@ == f.1);
                            assert(r.2@ == f.2);
                            assert(r.3@ == f.3);
                        }
                        r
                    } else {
                        checked_trivial(name, w, crate_path)
                    }
                },
            }
        },
        Ty::Path { leading_colon, segments } => {
            proof {
                lemma_segs_view_len(segments@);
            }
            if segments.len() > 0 {
                let last = &segments[segments.len() - 1];
                proof {
                    lemma_args_view_len(last.args@);
                }
                if str_is(&last.ident, "Option") && last.args.len() >= 1 {
                    match &last.args[0] {
                        GenArg::Ty(a) => {
                            if !is_null_pointer_optimizable(a) {
                                let mut a_txt = String::new();
                                render_ty(a, &mut a_txt);
                                let mut c_args = String::new();
                                c_args.append(name.as_str());
                                c_args.append(": ");
                                c_args.append(crate_path.as_str());
                                c_args.append("::option::COption<");
                                c_args.append(a_txt.as_str());
                                c_args.append(">,");
                                let r = (
                                    into_binding(name),
                                    name_comma(name),
                                    c_args,
                                    into_comma(name),
                                    false,
                                );
                                proof {
                                    let f = spec_typed_fragments(name@, w@, crate_path@);
                                    assert(r.0@ == f.0);
                                    assert(r.1@ == f.1);
                                    assert(r.2@ =~= f.2);
                                    assert(r.3@ == f.3);
                                }
                                r
                            } else {
                                checked_trivial(name, w, crate_path)
                            }
                        },
                        _ => checked_trivial(name, w, crate_path),
                    }
                } else if str_is(&last.ident, "Result") && last.args.len() == 2 {
                    match (&last.args[0], &last.args[1]) {
                        (GenArg::Ty(a), GenArg::Ty(b)) => {
                            let mut a_txt = String::new();
                            render_ty(a, &mut a_txt);
                            let mut b_txt = String::new();
                            render_ty(b, &mut b_txt);
                            let mut c_args = String::new();
                            c_args.append(name.as_str());
                            c_args.append(": ");
                            c_args.append(crate_path.as_str());
                            c_args.append("::result::CResult<");
                            c_args.append(a_txt.as_str());
                            c_args.append(", ");
                            c_args.append(b_txt.as_str());
                            c_args.append(">,");
                            let r = (
                                into_binding(name),
                                name_comma(name),
                                c_args,
                                into_comma(name),
                                false,
                            );
                            proof {
                                let f = spec_typed_fragments(name@, w@, crate_path@);
                                assert(r.0@ == f.0);
                                assert(r.1@ == f.1);
                                assert(r.2@ =~= f.2);
                                assert(r.3@ == f.3);
                            }
                            r
                        },
                        _ => checked_trivial(name, w, crate_path),
                    }
                } else {
                    checked_trivial(name, w, crate_path)
                }
            } else {
                checked_trivial(name, w, crate_path)
            }
        },
        _ => {
            proof {
                lemma_tyv_shape(*w);
            }
            checked_trivial(name, w, crate_path)
        },
    }
}

/// Decides [`spec_path_is_ident`].
fn path_is_ident(t: &Ty, name: &str) -> (r: bool)
    ensures
        r == spec_path_is_ident(t@, name@),
{
    match t {
        Ty::Path { leading_colon, segments } => {
            proof {
                lemma_segs_view_len(segments@);
            }
            if !*leading_colon && segments.len() == 1 {
                proof {
                    lemma_args_view_len(segments@[0].args@);
                }
                segments[0].args.len() == 0 && str_is(&segments[0].ident, name)
            } else {
                false
            }
        },
        _ => false,
    }
}

fn slice_fragments(name: &String, crate_path: &String, mutable: bool, elem_txt: &String) -> (r: (
    String,
    String,
    String,
    String,
    bool,
))
    ensures
        r.0@ == ""@,
        r.1@ == name@ + ".into(),"@,
        r.2@ == name@ + ": "@ + spec_slice_ty(crate_path@, mutable, elem_txt@) + ","@,
        r.3@ == name@ + ".into(),"@,
        r.4 == false,
{
    proof {
        reveal_strlit("");
    }
    let mut c_args = String::new();
    c_args.append(name.as_str());
    c_args.append(": ");
    c_args.append(crate_path.as_str());
    c_args.append("::slice::");
    if mutable {
        c_args.append("CSliceMut<");
    } else {
        c_args.append("CSliceRef<");
    }
    c_args.append(elem_txt.as_str());
    c_args.append(">");
    c_args.append(",");
    proof {
        assert(c_args@ =~= name@ + ": "@ + spec_slice_ty(crate_path@, mutable, elem_txt@) + ","@);
    }
    (empty_string(), into_comma(name), c_args, into_comma(name), false)
}

/// The trivial fragments, checked against the full dispatch: used at every
/// site where the type shape selects no boundary rewrite.
fn checked_trivial(name: &String, w: &Ty, crate_path: &String) -> (r: (
    String,
    String,
    String,
    String,
    bool,
))
    requires
        spec_typed_fragments(name@, w@, crate_path@) == spec_trivial_fragments(name@, w@),
    ensures
        ({
            let f = spec_typed_fragments(name@, w@, crate_path@);
            r.0@ == f.0 && r.1@ == f.1 && r.2@ == f.2 && r.3@ == f.3 && r.4 == f.4
        }),
{
    trivial_fragments(name, w)
}

fn trivial_fragments(name: &String, w: &Ty) -> (r: (String, String, String, String, bool))
    ensures
        ({
            let f = spec_trivial_fragments(name@, w@);
            r.0@ == f.0 && r.1@ == f.1 && r.2@ == f.2 && r.3@ == f.3 && r.4 == f.4
        }),
{
    let mut to_c = String::new();
    to_c.append("let ");
    to_c.append(name.as_str());
    to_c.append(" = ");
    to_c.append(name.as_str());
    to_c.append(";");
    let mut c_args = String::new();
    c_args.append(name.as_str());
    c_args.append(": ");
    render_ty(w, &mut c_args);
    c_args.append(",");
    proof {
        assert(to_c@ =~= spec_trivial_fragments(name@, w@).0);
        assert(c_args@ =~= spec_trivial_fragments(name@, w@).2);
    }
    (to_c, name_comma(name), c_args, name_comma(name), true)
}

fn name_comma(name: &String) -> (r: String)
    ensures
        r@ == name@ + ","@,
{
    let mut s = String::new();
    s.append(name.as_str());
    s.append(",");
    proof {
        assert(s@ =~= name@ + ","@);
    }
    s
}

fn into_comma(name: &String) -> (r: String)
    ensures
        r@ == name@ + ".into(),"@,
{
    let mut s = String::new();
    s.append(name.as_str());
    s.append(".into(),");
    proof {
        assert(s@ =~= name@ + ".into(),"@);
    }
    s
}

fn into_binding(name: &String) -> (r: String)
    ensures
        r@ == "let "@ + name@ + " = "@ + name@ + ".into();"@,
{
    let mut s = String::new();
    s.append("let ");
    s.append(name.as_str());
    s.append(" = ");
    s.append(name.as_str());
    s.append(".into();");
    proof {
        assert(s@ =~= "let "@ + name@ + " = "@ + name@ + ".into();"@);
    }
    s
}

} // verus!
