//! The return transform.
//!
//! This is the hardest logic in the system.  Step one substitutes a wrapped
//! associated type mentioned in the return type, resolves the boundary
//! lifetime (explicit, bound fallback, or a fresh unification lifetime) and,
//! when that fallback is used, also derives a lifetime-recast variant of the
//! boundary signature.  It reserves a temporary return-storage slot when the
//! rule asks for one and records whether the shared context must travel with
//! it.  Step two flattens sum types: optionals become tagged optionals,
//! two-case results become tagged unions, and in integer-result mode a
//! result collapses to a signed status code with an optional out-parameter.

use vstd::prelude::*;

verus! {

use crate::arg::ReceiverV;
use crate::generics::ParsedGenericsV;
use crate::rules::{spec_lookup, spec_wrap_ty, WrapRuleV, WrappedTypeV};
use crate::strutil::opt_str_view;
use crate::ty::{
    lt_opt_view, spec_npo, spec_render_ty, spec_replace_path, spec_wl_ty, tyv, ArgV,
    LifetimeName, SegV, Ty, TyV,
};

/// The derived boundary return information of one method.
pub struct ParsedReturnType {
    /// The declared return type, before any rewriting (`None`: unit).
    pub ty: Option<Ty>,
    /// Boundary return clause (`-> T`).
    pub c_out: String,
    /// Boundary return clause with the recast lifetime.
    pub c_cast_out: String,
    /// Bounds the boundary wrapper needs.
    pub c_where_bounds: String,
    /// Bounds for the recast variant.
    pub c_where_bounds_cast: String,
    /// Extra trailing boundary parameters (temp storage, context, out slot).
    pub c_ret_params: String,
    /// Trait-impl side bindings made before the boundary call.
    pub c_ret_precall_def: String,
    /// Extra trailing arguments of the boundary call.
    pub c_call_ret_args: String,
    /// Wrapper-side bindings made before invoking the trait method.
    pub c_pre_call: Option<String>,
    /// Wrapper-side conversion of the returned value.
    pub c_ret: String,
    /// Trait-impl side conversion of the returned value.
    pub impl_func_ret: String,
    /// Type of the reserved temp-storage slot, when one is needed.
    pub injected_ret_tmp: Option<Ty>,
    /// Static-lifetime variant of the slot type.
    pub injected_ret_tmp_static: Option<Ty>,
    /// Whether the vtable entry needs a universally-quantified lifetime.
    pub use_hrtb: bool,
    /// The resolved boundary lifetime.
    pub lifetime: Option<LifetimeName>,
    /// The recast lifetime, when the fallback lifetime was used.
    pub lifetime_cast: Option<LifetimeName>,
    /// Whether no explicit lifetime bound restrains the quantification.
    pub unbounded_hrtb: bool,
    /// Whether the method returns `Self`.
    pub return_self: bool,
    /// Whether the forwarding impl wraps the returned value.
    pub use_wrap: bool,
    /// Whether the shared context must travel across the boundary.
    pub needs_ctx: bool,
}

/// Spec-level mirror of [`ParsedReturnType`].
#[verifier::ext_equal]
pub struct ParsedReturnTypeV {
    pub ty: Option<TyV>,
    pub c_out: Seq<char>,
    pub c_cast_out: Seq<char>,
    pub c_where_bounds: Seq<char>,
    pub c_where_bounds_cast: Seq<char>,
    pub c_ret_params: Seq<char>,
    pub c_ret_precall_def: Seq<char>,
    pub c_call_ret_args: Seq<char>,
    pub c_pre_call: Option<Seq<char>>,
    pub c_ret: Seq<char>,
    pub impl_func_ret: Seq<char>,
    pub injected_ret_tmp: Option<TyV>,
    pub injected_ret_tmp_static: Option<TyV>,
    pub use_hrtb: bool,
    pub lifetime: Option<Seq<char>>,
    pub lifetime_cast: Option<Seq<char>>,
    pub unbounded_hrtb: bool,
    pub return_self: bool,
    pub use_wrap: bool,
    pub needs_ctx: bool,
}

pub open spec fn ret_opt_ty_view(o: Option<Ty>) -> Option<TyV> {
    match o {
        Option::Some(t) => Option::Some(tyv(t)),
        Option::None => Option::None,
    }
}

impl View for ParsedReturnType {
    type V = ParsedReturnTypeV;

    open spec fn view(&self) -> ParsedReturnTypeV {
        ParsedReturnTypeV {
            ty: ret_opt_ty_view(self.ty),
            c_out: self.c_out@,
            c_cast_out: self.c_cast_out@,
            c_where_bounds: self.c_where_bounds@,
            c_where_bounds_cast: self.c_where_bounds_cast@,
            c_ret_params: self.c_ret_params@,
            c_ret_precall_def: self.c_ret_precall_def@,
            c_call_ret_args: self.c_call_ret_args@,
            c_pre_call: opt_str_view(self.c_pre_call),
            c_ret: self.c_ret@,
            impl_func_ret: self.impl_func_ret@,
            injected_ret_tmp: ret_opt_ty_view(self.injected_ret_tmp),
            injected_ret_tmp_static: ret_opt_ty_view(self.injected_ret_tmp_static),
            use_hrtb: self.use_hrtb,
            lifetime: lt_opt_view(self.lifetime),
            lifetime_cast: lt_opt_view(self.lifetime_cast),
            unbounded_hrtb: self.unbounded_hrtb,
            return_self: self.return_self,
            use_wrap: self.use_wrap,
            needs_ctx: self.needs_ctx,
        }
    }
}

// ---------------------------------------------------------------------------
// Step one: associated-type substitution and lifetime resolution.
// ---------------------------------------------------------------------------

/// The state handed from step one to step two: the derived record, the
/// current (possibly rewritten, possibly restored) return type that sum-type
/// flattening inspects, and the recast variant of it.
#[verifier::ext_equal]
pub struct RetStep1V {
    pub ret: ParsedReturnTypeV,
    pub cur_ty: Option<TyV>,
    pub ty_cast: Option<TyV>,
}

/// The untouched record of a method with no substitution performed.
pub open spec fn spec_ret_plain(t: Option<TyV>) -> ParsedReturnTypeV {
    ParsedReturnTypeV {
        ty: t,
        c_out: (match t {
            Option::Some(ty0) => "-> "@ + spec_render_ty(ty0),
            Option::None => ""@,
        }),
        c_cast_out: (match t {
            Option::Some(ty0) => "-> "@ + spec_render_ty(ty0),
            Option::None => ""@,
        }),
        c_where_bounds: ""@,
        c_where_bounds_cast: ""@,
        c_ret_params: ""@,
        c_ret_precall_def: ""@,
        c_call_ret_args: ""@,
        c_pre_call: Option::None,
        c_ret: "ret"@,
        impl_func_ret: "ret"@,
        injected_ret_tmp: Option::None,
        injected_ret_tmp_static: Option::None,
        use_hrtb: false,
        lifetime: Option::None,
        lifetime_cast: Option::None,
        unbounded_hrtb: false,
        return_self: false,
        use_wrap: false,
        needs_ctx: false,
    }
}

/// The `'static` bound pair demanded when the substituted associated type
/// must outlive every borrow: the wrapper variant and the recast variant.
pub open spec fn spec_static_bounds(
    is_static: bool,
    g: ParsedGenericsV,
    trait_name: Seq<char>,
    trait_ty: Seq<char>,
) -> (Seq<char>, Seq<char>) {
    if !is_static {
        (""@, ""@)
    } else if g.life_use.len() == 0 {
        let b = "for<'cglue_b> <CGlueF as "@ + trait_name + "<"@ + g.gen_use + ">>::"@ + trait_ty
            + ": 'static,"@;
        (b, b)
    } else {
        (
            "for<'cglue_b> <CGlueF as "@ + trait_name + "<'cglue_b, "@ + g.gen_use + ">>::"@
                + trait_ty + ": 'static,"@,
            "<CGlueF as "@ + trait_name + "<'cglue_a, "@ + g.gen_use + ">>::"@ + trait_ty
                + ": 'static,"@,
        )
    }
}

pub open spec fn opt_or_empty(o: Option<Seq<char>>) -> Seq<char> {
    match o {
        Option::Some(s) => s,
        Option::None => ""@,
    }
}

/// Step one of the return transform, on a return type whose substitution
/// was found: every decision follows the rule looked up for the mentioned
/// associated type.
pub open spec fn spec_ret_wrapped(
    ty0: TyV,
    wty: TyV,
    old_ty: TyV,
    trait_ty: Seq<char>,
    rule: WrappedTypeV,
    rcv: ReceiverV,
    func_name: Seq<char>,
    trait_name: Seq<char>,
    g: ParsedGenericsV,
) -> RetStep1V {
    let picked = (if rule.inject_ret_tmp {
        match wty {
            TyV::Reference { mutable, lifetime, .. } => (mutable, lifetime),
            _ => (false, Option::None),
        }
    } else {
        (false, Option::<Seq<char>>::None)
    });
    let mutable = picked.0;
    let lifetime0 = picked.1;
    let unbounded_hrtb = lifetime0 is None && rule.lifetime_type_bound is None;
    let lifetime1 = (if lifetime0 is Some {
        lifetime0
    } else if rule.lifetime_bound is Some {
        rule.lifetime_bound
    } else {
        Option::Some("cglue_a"@)
    });
    let is_cglue_a = lifetime1 == Option::Some("cglue_a"@);
    let ty_cast0 = (if is_cglue_a {
        Option::Some(wty)
    } else {
        Option::<TyV>::None
    });
    let lifetime_cast = (if is_cglue_a {
        Option::Some("cglue_b"@)
    } else {
        Option::<Seq<char>>::None
    });
    let wty2 = spec_wl_ty(wty, opt_or_empty(lifetime1));
    let ltb = (match rule.lifetime_type_bound {
        Option::Some(l) => Option::Some(
            if l != "static"@ {
                "cglue_b"@
            } else {
                l
            },
        ),
        Option::None => Option::<Seq<char>>::None,
    });
    let ret_wrap = (match rule.return_conv {
        Option::Some(conv) => "let mut conv = "@ + conv + "; conv(ret)"@,
        Option::None => "ret.into()"@,
    });
    let is_static = ltb == Option::Some("static"@);
    let bounds = spec_static_bounds(is_static, g, trait_name, trait_ty);
    let where_bound = bounds.0 + opt_or_empty(rule.other_bounds);
    let where_bound_simple = bounds.1 + opt_or_empty(rule.other_bounds_simple);
    let wty3 = (if rule.inject_ret_tmp {
        match wty2 {
            TyV::Reference { mutable: m2, elem, .. } => TyV::Reference {
                mutable: m2,
                lifetime: lifetime1,
                elem,
            },
            other => other,
        }
    } else {
        wty2
    });
    let ty_cast1 = (if rule.inject_ret_tmp {
        match ty_cast0 {
            Option::Some(TyV::Reference { mutable: m3, elem, .. }) => Option::Some(
                TyV::Reference { mutable: m3, lifetime: lifetime_cast, elem },
            ),
            other => other,
        }
    } else {
        ty_cast0
    });
    let injected = (if rule.inject_ret_tmp {
        Option::Some(rule.ty)
    } else {
        Option::<TyV>::None
    });
    let tmp_type_def = (if rule.inject_ret_tmp {
        "ret_tmp: &mut ::core::mem::MaybeUninit<"@ + spec_render_ty(rule.ty) + ">,"@
    } else {
        ""@
    });
    let tmp_impl_def = (if rule.inject_ret_tmp {
        "let ret_tmp = ret_tmp."@ + func_name + "();"@
    } else {
        ""@
    });
    let tmp_call_def = (if rule.inject_ret_tmp {
        "ret_tmp,"@
    } else {
        ""@
    });
    let with_ctx = rule.needs_ctx && rcv.reference;
    let tmp_type_def2 = (if with_ctx {
        tmp_type_def + "cglue_ctx: &CGlueC,"@
    } else {
        tmp_type_def
    });
    let c_pre_call = (if with_ctx {
        Option::Some(tmp_impl_def + "let cglue_ctx = cglue_ctx.clone();"@)
    } else {
        Option::<Seq<char>>::None
    });
    let tmp_call_def2 = (if with_ctx {
        tmp_call_def + "cglue_ctx,"@
    } else {
        tmp_call_def
    });
    let impl_return_conv = (match rule.impl_return_conv {
        Option::Some(s) => s,
        Option::None => "ret"@,
    });
    let return_self = trait_ty == "Self"@;
    RetStep1V {
        ret: ParsedReturnTypeV {
            ty: Option::Some(ty0),
            c_out: "-> "@ + spec_render_ty(wty3),
            c_cast_out: "-> "@ + (match ty_cast1 {
                Option::Some(tc) => spec_render_ty(tc),
                Option::None => ""@,
            }),
            c_where_bounds: where_bound,
            c_where_bounds_cast: where_bound_simple,
            c_ret_params: tmp_type_def2,
            c_ret_precall_def: tmp_impl_def,
            c_call_ret_args: tmp_call_def2,
            c_pre_call,
            c_ret: ret_wrap,
            impl_func_ret: impl_return_conv,
            injected_ret_tmp: injected,
            injected_ret_tmp_static: rule.ty_static,
            use_hrtb: true,
            lifetime: lifetime1,
            lifetime_cast,
            unbounded_hrtb,
            return_self,
            use_wrap: true,
            needs_ctx: rule.needs_ctx,
        },
        cur_ty: Option::Some(
            if return_self {
                old_ty
            } else {
                wty3
            },
        ),
        ty_cast: ty_cast1,
    }
}

/// Step one over an optional return type: with no substitution the record
/// stays plain; with one, [`spec_ret_wrapped`] applies.
pub open spec fn spec_ret_step1(
    t: Option<TyV>,
    rules: Seq<WrapRuleV>,
    rcv: ReceiverV,
    func_name: Seq<char>,
    trait_name: Seq<char>,
    g: ParsedGenericsV,
) -> RetStep1V {
    match t {
        Option::None => RetStep1V {
            ret: spec_ret_plain(t),
            cur_ty: Option::None,
            ty_cast: Option::None,
        },
        Option::Some(ty0) => {
            let w = spec_wrap_ty(ty0, rules);
            match w.1 {
                Option::None => RetStep1V {
                    ret: spec_ret_plain(t),
                    cur_ty: Option::Some(w.0),
                    ty_cast: Option::None,
                },
                Option::Some(f) => {
                    match spec_lookup(rules, f.ident) {
                        Option::Some(i) => spec_ret_wrapped(
                            ty0,
                            w.0,
                            f.old_ty,
                            f.ident,
                            rules[i].rule,
                            rcv,
                            func_name,
                            trait_name,
                            g,
                        ),
                        Option::None => RetStep1V {
                            ret: spec_ret_plain(t),
                            cur_ty: Option::Some(w.0),
                            ty_cast: Option::None,
                        },
                    }
                },
            }
        },
    }
}

/// The inputs on which step one does not abort: the substitution walk stays
/// in its domain, and a rule that reserves temp storage is only mentioned
/// in a reference return.
pub open spec fn spec_ret_ok(t: Option<TyV>, rules: Seq<WrapRuleV>) -> bool {
    match t {
        Option::None => true,
        Option::Some(ty0) => {
            let w = spec_wrap_ty(ty0, rules);
            w.2 && (match w.1 {
                Option::Some(f) => (match spec_lookup(rules, f.ident) {
                    Option::Some(i) => rules[i].rule.inject_ret_tmp ==> w.0 is Reference,
                    Option::None => true,
                }),
                Option::None => true,
            })
        },
    }
}

} // verus!

verus! {

// ---------------------------------------------------------------------------
// Step two: sum-type flattening.
// ---------------------------------------------------------------------------

/// The path segments of a boundary substitute type rooted at the crate.
pub open spec fn spec_crate_path_segs(crate_path: Seq<char>, module: Seq<char>, name: Seq<char>)
    -> Seq<SegV> {
    seq![
        (SegV { ident: crate_path, args: Seq::empty() }),
        (SegV { ident: module, args: Seq::empty() }),
        (SegV { ident: name, args: Seq::empty() }),
    ]
}

pub open spec fn spec_arrow_opt(t: Option<TyV>) -> Seq<char> {
    "-> "@ + (match t {
        Option::Some(ty) => spec_render_ty(ty),
        Option::None => ""@,
    })
}

/// The wrapper-side conversion mapped over the success value.
pub open spec fn spec_mapped_ret(c_ret: Seq<char>) -> Seq<char> {
    "let ret = ret.map(|ret| { "@ + c_ret + " });"@
}

/// Step two of the return transform: sum-type flattening over the possibly
/// already-rewritten type.
pub open spec fn spec_ret_step2(
    s: RetStep1V,
    result_ident: Seq<char>,
    int_result: bool,
    safe: bool,
    crate_path: Seq<char>,
) -> ParsedReturnTypeV {
    let r = s.ret;
    match s.cur_ty {
        Option::None => r,
        Option::Some(ct) => {
            match ct {
                TyV::Path { leading_colon, segments } => {
                    if segments.len() > 0 && segments.last().args.len() > 0 {
                        let last = segments.last();
                        if last.ident == "Option"@ {
                            if last.args[0] is Ty && !spec_npo(last.args[0]->Ty_0) {
                                let new_ct = spec_replace_path(
                                    ct,
                                    false,
                                    spec_crate_path_segs(crate_path, "option"@, "COption"@),
                                );
                                let new_cast = (match s.ty_cast {
                                    Option::Some(tc) => Option::Some(
                                        spec_replace_path(
                                            tc,
                                            false,
                                            spec_crate_path_segs(
                                                crate_path,
                                                "option"@,
                                                "COption"@,
                                            ),
                                        ),
                                    ),
                                    Option::None => Option::<TyV>::None,
                                });
                                ParsedReturnTypeV {
                                    c_out: "-> "@ + spec_render_ty(new_ct),
                                    c_cast_out: spec_arrow_opt(new_cast),
                                    c_ret: r.c_ret + ".into()"@,
                                    impl_func_ret: r.impl_func_ret + ".into()"@,
                                    ..r
                                }
                            } else {
                                r
                            }
                        } else if last.ident == result_ident {
                            if int_result && last.args.len() <= 2 && last.args[0] is Ty {
                                let a = last.args[0]->Ty_0;
                                let mapped = spec_mapped_ret(r.c_ret);
                                if a == TyV::Tuple(Seq::empty()) {
                                    ParsedReturnTypeV {
                                        c_out: "-> i32"@,
                                        c_cast_out: "-> i32"@,
                                        c_ret: mapped + " "@ + crate_path
                                            + "::result::into_int_result(ret)"@,
                                        impl_func_ret: crate_path
                                            + "::result::from_int_result_empty("@
                                            + r.impl_func_ret + ")"@,
                                        ..r
                                    }
                                } else {
                                    ParsedReturnTypeV {
                                        c_out: "-> i32"@,
                                        c_cast_out: "-> i32"@,
                                        c_ret_params: r.c_ret_params
                                            + "ok_out: &mut ::core::mem::MaybeUninit<"@
                                            + spec_render_ty(a) + ">,"@,
                                        c_ret_precall_def: r.c_ret_precall_def
                                            + "let mut ok_out = ::core::mem::MaybeUninit::uninit();"@,
                                        c_call_ret_args: r.c_call_ret_args + "&mut ok_out,"@,
                                        c_ret: mapped + " "@ + crate_path
                                            + "::result::into_int_out_result(ret, ok_out)"@,
                                        impl_func_ret: (if safe {
                                            "unsafe "@
                                        } else {
                                            ""@
                                        }) + "{ "@ + crate_path + "::result::from_int_result("@
                                            + r.impl_func_ret + ", ok_out) }"@,
                                        ..r
                                    }
                                }
                            } else if last.args.len() == 2 && last.args[0] is Ty && last.args[1]
                                is Ty {
                                let new_ct = spec_replace_path(
                                    ct,
                                    false,
                                    spec_crate_path_segs(crate_path, "result"@, "CResult"@),
                                );
                                let new_cast = (match s.ty_cast {
                                    Option::Some(tc) => Option::Some(
                                        spec_replace_path(
                                            tc,
                                            false,
                                            spec_crate_path_segs(
                                                crate_path,
                                                "result"@,
                                                "CResult"@,
                                            ),
                                        ),
                                    ),
                                    Option::None => Option::<TyV>::None,
                                });
                                ParsedReturnTypeV {
                                    c_out: "-> "@ + spec_render_ty(new_ct),
                                    c_cast_out: spec_arrow_opt(new_cast),
                                    c_ret: spec_mapped_ret(r.c_ret) + " ret.into()"@,
                                    impl_func_ret: r.impl_func_ret + ".into()"@,
                                    ..r
                                }
                            } else {
                                r
                            }
                        } else {
                            r
                        }
                    } else {
                        r
                    }
                },
                _ => r,
            }
        },
    }
}

/// The full return transform.
pub open spec fn spec_parsed_ret(
    t: Option<TyV>,
    rules: Seq<WrapRuleV>,
    result_ident: Seq<char>,
    int_result: bool,
    safe: bool,
    rcv: ReceiverV,
    func_name: Seq<char>,
    crate_path: Seq<char>,
    trait_name: Seq<char>,
    g: ParsedGenericsV,
) -> ParsedReturnTypeV {
    spec_ret_step2(
        spec_ret_step1(t, rules, rcv, func_name, trait_name, g),
        result_ident,
        int_result,
        safe,
        crate_path,
    )
}

} // verus!

verus! {

use crate::arg::Receiver;
use crate::generics::ParsedGenerics;
use crate::rules::{found_matches, lemma_rules_view_len, wrap_type, WrapRules, WrappedType};
use crate::strutil::{empty_string, str_is};
use crate::ty::{
    clone_ty, is_null_pointer_optimizable, lemma_args_view_len, lemma_segs_view_len,
    lemma_tyv_shape, render_ty, replace_path_keep_final_args, wrapped_lifetime, GenArg,
    PathSegment,
};

/// Builds the untouched record, per [`spec_ret_plain`].
fn plain_ret(t: Option<Ty>) -> (r: ParsedReturnType)
    ensures
        r@ == spec_ret_plain(ret_opt_ty_view(t)),
        r.ty == t,
{
    proof {
        reveal_strlit("");
    }
    let mut c_out = String::new();
    match &t {
        Option::Some(ty0) => {
            c_out.append("-> ");
            render_ty(ty0, &mut c_out);
        },
        Option::None => {},
    }
    let c_cast_out = c_out.clone();
    let r = ParsedReturnType {
        ty: t,
        c_out,
        c_cast_out,
        c_where_bounds: empty_string(),
        c_where_bounds_cast: empty_string(),
        c_ret_params: empty_string(),
        c_ret_precall_def: empty_string(),
        c_call_ret_args: empty_string(),
        c_pre_call: Option::None,
        c_ret: String::from_str("ret"),
        impl_func_ret: String::from_str("ret"),
        injected_ret_tmp: Option::None,
        injected_ret_tmp_static: Option::None,
        use_hrtb: false,
        lifetime: Option::None,
        lifetime_cast: Option::None,
        unbounded_hrtb: false,
        return_self: false,
        use_wrap: false,
        needs_ctx: false,
    };
    proof {
        assert(r.c_out@ =~= spec_ret_plain(ret_opt_ty_view(r.ty)).c_out);
        assert(r@ =~= spec_ret_plain(ret_opt_ty_view(r.ty)));
    }
    r
}

/// Builds the `'static` bound pair, per [`spec_static_bounds`].
fn static_bounds(is_static: bool, g: &ParsedGenerics, trait_name: &String, trait_ty: &String)
    -> (r: (String, String))
    ensures
        ({
            let b = spec_static_bounds(is_static, g@, trait_name@, trait_ty@);
            r.0@ == b.0 && r.1@ == b.1
        }),
{
    proof {
        reveal_strlit("");
    }
    if !is_static {
        (empty_string(), empty_string())
    } else if g.life_use.as_str().is_empty() {
        let mut b = String::new();
        b.append("for<'cglue_b> <CGlueF as ");
        b.append(trait_name.as_str());
        b.append("<");
        b.append(g.gen_use.as_str());
        b.append(">>::");
        b.append(trait_ty.as_str());
        b.append(": 'static,");
        let b2 = b.clone();
        proof {
            assert(b@ =~= spec_static_bounds(is_static, g@, trait_name@, trait_ty@).0);
        }
        (b, b2)
    } else {
        let mut b = String::new();
        b.append("for<'cglue_b> <CGlueF as ");
        b.append(trait_name.as_str());
        b.append("<'cglue_b, ");
        b.append(g.gen_use.as_str());
        b.append(">>::");
        b.append(trait_ty.as_str());
        b.append(": 'static,");
        let mut b2 = String::new();
        b2.append("<CGlueF as ");
        b2.append(trait_name.as_str());
        b2.append("<'cglue_a, ");
        b2.append(g.gen_use.as_str());
        b2.append(">>::");
        b2.append(trait_ty.as_str());
        b2.append(": 'static,");
        proof {
            assert(b@ =~= spec_static_bounds(is_static, g@, trait_name@, trait_ty@).0);
            assert(b2@ =~= spec_static_bounds(is_static, g@, trait_name@, trait_ty@).1);
        }
        (b, b2)
    }
}

/// A copy of an optional bound, or the empty text.
fn opt_bound_or_empty(o: &Option<String>) -> (r: String)
    ensures
        r@ == opt_or_empty(opt_str_view(*o)),
{
    proof {
        reveal_strlit("");
    }
    match o {
        Option::Some(s) => s.clone(),
        Option::None => empty_string(),
    }
}

/// The path segments of a boundary substitute type, per
/// [`spec_crate_path_segs`].
fn crate_path_segs(crate_path: &String, module: &str, name: &str) -> (r: Vec<PathSegment>)
    ensures
        crate::ty::segs_view(r@) == spec_crate_path_segs(crate_path@, module@, name@),
{
    let mut r: Vec<PathSegment> = Vec::new();
    let a0: Vec<GenArg> = Vec::new();
    r.push(PathSegment { ident: crate_path.clone(), args: a0 });
    let a1: Vec<GenArg> = Vec::new();
    r.push(PathSegment { ident: String::from_str(module), args: a1 });
    let a2: Vec<GenArg> = Vec::new();
    r.push(PathSegment { ident: String::from_str(name), args: a2 });
    proof {
        lemma_segs_view_len(r@);
        assert(crate::ty::args_view(Seq::<GenArg>::empty()) =~= Seq::<ArgV>::empty());
        assert(r@.len() == 3);
        assert(crate::ty::segs_view(r@)[0] == r@[0]@);
        assert(r@[0]@ == (SegV { ident: crate_path@, args: Seq::empty() }));
        assert(r@[1]@ == (SegV { ident: module@, args: Seq::empty() }));
        assert(r@[2]@ == (SegV { ident: name@, args: Seq::empty() }));
        assert(crate::ty::segs_view(r@) =~= spec_crate_path_segs(crate_path@, module@, name@));
    }
    r
}

} // verus!

verus! {

/// Step one when a substitution was found, per [`spec_ret_wrapped`].
#[verifier::rlimit(30)]
fn ret_wrapped(
    ty0: Ty,
    wty: Ty,
    old_ty: Ty,
    trait_ty: &String,
    rule: &WrappedType,
    receiver: &Receiver,
    func_name: &String,
    trait_name: &String,
    g: &ParsedGenerics,
) -> (r: (ParsedReturnType, Option<Ty>, Option<Ty>))
    requires
        rule.inject_ret_tmp ==> wty@ is Reference,
    ensures
        ({
            let s = spec_ret_wrapped(
                ty0@,
                wty@,
                old_ty@,
                trait_ty@,
                rule@,
                receiver@,
                func_name@,
                trait_name@,
                g@,
            );
            r.0@ == s.ret && ret_opt_ty_view(r.1) == s.cur_ty && ret_opt_ty_view(r.2) == s.ty_cast
        }),
{
    proof {
        reveal_strlit("");
        lemma_tyv_shape(wty);
    }
    let (mutable, lifetime0) = (if rule.inject_ret_tmp {
        match &wty {
            Ty::Reference { mutable, lifetime, .. } => (*mutable, crate::ty::clone_lt_opt(
                lifetime,
            )),
            _ => (false, Option::None),
        }
    } else {
        (false, Option::None)
    });
    let unbounded_hrtb = lifetime0.is_none() && rule.lifetime_type_bound.is_none();
    let lifetime1: LifetimeName = (match lifetime0 {
        Option::Some(l) => l,
        Option::None => (match &rule.lifetime_bound {
            Option::Some(l) => LifetimeName { name: l.name.clone() },
            Option::None => LifetimeName { name: String::from_str("cglue_a") },
        }),
    });
    let is_cglue_a = str_is(&lifetime1.name, "cglue_a");
    let ty_cast0: Option<Ty> = (if is_cglue_a {
        Option::Some(clone_ty(&wty))
    } else {
        Option::None
    });
    let lifetime_cast: Option<LifetimeName> = (if is_cglue_a {
        Option::Some(LifetimeName { name: String::from_str("cglue_b") })
    } else {
        Option::None
    });
    let wty2 = wrapped_lifetime(&wty, &lifetime1);
    let ltb: Option<LifetimeName> = (match &rule.lifetime_type_bound {
        Option::Some(l) => Option::Some(
            if !str_is(&l.name, "static") {
                LifetimeName { name: String::from_str("cglue_b") }
            } else {
                LifetimeName { name: l.name.clone() }
            },
        ),
        Option::None => Option::None,
    });
    let mut ret_wrap = String::new();
    match &rule.return_conv {
        Option::Some(conv) => {
            ret_wrap.append("let mut conv = ");
            ret_wrap.append(conv.as_str());
            ret_wrap.append("; conv(ret)");
        },
        Option::None => {
            ret_wrap.append("ret.into()");
        },
    }
    let is_static = (match &ltb {
        Option::Some(l) => str_is(&l.name, "static"),
        Option::None => false,
    });
    let (sb, sb_simple) = static_bounds(is_static, g, trait_name, trait_ty);
    let mut where_bound = sb;
    where_bound.append(opt_bound_or_empty(&rule.other_bounds).as_str());
    let mut where_bound_simple = sb_simple;
    where_bound_simple.append(opt_bound_or_empty(&rule.other_bounds_simple).as_str());
    proof {
        lemma_tyv_shape(wty2);
    }
    let wty3 = (if rule.inject_ret_tmp {
        match wty2 {
            Ty::Reference { mutable: m2, lifetime: _, elem } => Ty::Reference {
                mutable: m2,
                lifetime: Option::Some(LifetimeName { name: lifetime1.name.clone() }),
                elem,
            },
            other => other,
        }
    } else {
        wty2
    });
    let ty_cast1 = (if rule.inject_ret_tmp {
        match ty_cast0 {
            Option::Some(tc) => {
                proof {
                    lemma_tyv_shape(tc);
                }
                match tc {
                    Ty::Reference { mutable: m3, lifetime: _, elem } => Option::Some(
                        Ty::Reference {
                            mutable: m3,
                            lifetime: (match &lifetime_cast {
                                Option::Some(l) => Option::Some(
                                    LifetimeName { name: l.name.clone() },
                                ),
                                Option::None => Option::None,
                            }),
                            elem,
                        },
                    ),
                    other => Option::Some(other),
                }
            },
            Option::None => Option::None,
        }
    } else {
        ty_cast0
    });
    let injected: Option<Ty> = (if rule.inject_ret_tmp {
        Option::Some(clone_ty(&rule.ty))
    } else {
        Option::None
    });
    let mut tmp_type_def = String::new();
    let mut tmp_impl_def = String::new();
    let mut tmp_call_def = String::new();
    if rule.inject_ret_tmp {
        tmp_type_def.append("ret_tmp: &mut ::core::mem::MaybeUninit<");
        render_ty(&rule.ty, &mut tmp_type_def);
        tmp_type_def.append(">,");
        tmp_impl_def.append("let ret_tmp = ret_tmp.");
        tmp_impl_def.append(func_name.as_str());
        tmp_impl_def.append("();");
        tmp_call_def.append("ret_tmp,");
    }
    let with_ctx = rule.needs_ctx && receiver.reference;
    let c_ret_precall_def = tmp_impl_def.clone();
    let (tmp_type_def2, c_pre_call, tmp_call_def2) = (if with_ctx {
        let mut t2 = tmp_type_def;
        t2.append("cglue_ctx: &CGlueC,");
        let mut pre = tmp_impl_def;
        pre.append("let cglue_ctx = cglue_ctx.clone();");
        let mut c2 = tmp_call_def;
        c2.append("cglue_ctx,");
        (t2, Option::Some(pre), c2)
    } else {
        (tmp_type_def, Option::None, tmp_call_def)
    });
    let impl_return_conv = (match &rule.impl_return_conv {
        Option::Some(s) => s.clone(),
        Option::None => String::from_str("ret"),
    });
    let return_self = str_is(trait_ty, "Self");
    let mut c_out = String::new();
    c_out.append("-> ");
    render_ty(&wty3, &mut c_out);
    let mut c_cast_out = String::new();
    c_cast_out.append("-> ");
    match &ty_cast1 {
        Option::Some(tc) => {
            render_ty(tc, &mut c_cast_out);
        },
        Option::None => {},
    }
    let lifetime_out = Option::Some(lifetime1);
    let injected_static = (match &rule.ty_static {
        Option::Some(t) => Option::Some(clone_ty(t)),
        Option::None => Option::None,
    });
    let cur_ty: Option<Ty> = Option::Some(
        if return_self {
            old_ty
        } else {
            clone_ty(&wty3)
        },
    );
    let ret = ParsedReturnType {
        ty: Option::Some(ty0),
        c_out,
        c_cast_out,
        c_where_bounds: where_bound,
        c_where_bounds_cast: where_bound_simple,
        c_ret_params: tmp_type_def2,
        c_ret_precall_def,
        c_call_ret_args: tmp_call_def2,
        c_pre_call,
        c_ret: ret_wrap,
        impl_func_ret: impl_return_conv,
        injected_ret_tmp: injected,
        injected_ret_tmp_static: injected_static,
        use_hrtb: true,
        lifetime: lifetime_out,
        lifetime_cast,
        unbounded_hrtb,
        return_self,
        use_wrap: true,
        needs_ctx: rule.needs_ctx,
    };
    let r = (ret, cur_ty, ty_cast1);
    proof {
        let s = spec_ret_wrapped(
            ty0@,
            wty@,
            old_ty@,
            trait_ty@,
            rule@,
            receiver@,
            func_name@,
            trait_name@,
            g@,
        );
        assert(r.0@.c_out =~= s.ret.c_out);
        assert(r.0@.c_cast_out =~= s.ret.c_cast_out);
        assert(r.0@.c_where_bounds =~= s.ret.c_where_bounds);
        assert(r.0@.c_where_bounds_cast =~= s.ret.c_where_bounds_cast);
        assert(r.0@.c_ret_params =~= s.ret.c_ret_params);
        assert(r.0@.c_ret_precall_def =~= s.ret.c_ret_precall_def);
        assert(r.0@.c_call_ret_args =~= s.ret.c_call_ret_args);
        assert(r.0@.c_ret =~= s.ret.c_ret);
        assert(r.0@ =~= s.ret);
        assert(ret_opt_ty_view(r.1) == s.cur_ty);
        assert(ret_opt_ty_view(r.2) == s.ty_cast);
    }
    r
}

} // verus!

verus! {

/// Step two of the return transform, per [`spec_ret_step2`].
#[verifier::rlimit(30)]
fn ret_flatten(
    ret: ParsedReturnType,
    cur_ty: Option<Ty>,
    ty_cast: Option<Ty>,
    result_ident: &String,
    int_result: bool,
    safe: bool,
    crate_path: &String,
) -> (r: ParsedReturnType)
    ensures
        r@ == spec_ret_step2(
            (RetStep1V {
                ret: ret@,
                cur_ty: ret_opt_ty_view(cur_ty),
                ty_cast: ret_opt_ty_view(ty_cast),
            }),
            result_ident@,
            int_result,
            safe,
            crate_path@,
        ),
{
    proof {
        reveal_strlit("");
        reveal_strlit("Option");
    }
    let ghost ret0 = ret;
    let mut ret = ret;
    match cur_ty {
        Option::None => ret,
        Option::Some(ct) => {
            proof {
                lemma_tyv_shape(ct);
            }
            match &ct {
                Ty::Path { leading_colon, segments } => {
                    proof {
                        lemma_segs_view_len(segments@);
                    }
                    if segments.len() > 0 && segments[segments.len() - 1].args.len() > 0 {
                        let ghost lastv = tyv(ct)->Path_segments.last();
                        proof {
                            lemma_args_view_len(segments@[segments@.len() - 1].args@);
                            assert(lastv == segments@[segments@.len() - 1]@);
                        }
                        let is_option = str_is(&segments[segments.len() - 1].ident, "Option");
                        if is_option {
                            let handled = (match &segments[segments.len() - 1].args[0] {
                                GenArg::Ty(a) => !is_null_pointer_optimizable(a),
                                _ => false,
                            });
                            if handled {
                                let co = crate_path_segs(crate_path, "option", "COption");
                                let new_ct = replace_path_keep_final_args(ct, false, &co);
                                let mut c_out = String::new();
                                c_out.append("-> ");
                                render_ty(&new_ct, &mut c_out);
                                ret.c_out = c_out;
                                let mut c_cast_out = String::new();
                                c_cast_out.append("-> ");
                                match ty_cast {
                                    Option::Some(tc) => {
                                        let new_tc = replace_path_keep_final_args(
                                            tc,
                                            false,
                                            &co,
                                        );
                                        render_ty(&new_tc, &mut c_cast_out);
                                    },
                                    Option::None => {},
                                }
                                ret.c_cast_out = c_cast_out;
                                ret.c_ret.append(".into()");
                                ret.impl_func_ret.append(".into()");
                                proof {
                                    assert(ret.c_out@ =~= spec_ret_step2(
                                        (RetStep1V {
                                            ret: ret0@,
                                            cur_ty: ret_opt_ty_view(Option::Some(ct)),
                                            ty_cast: ret_opt_ty_view(ty_cast),
                                        }),
                                        result_ident@,
                                        int_result,
                                        safe,
                                        crate_path@,
                                    ).c_out);
                                }
                                ret
                            } else {
                                ret
                            }
                        } else if *(&segments[segments.len() - 1].ident) == *result_ident {
                            let nargs = segments[segments.len() - 1].args.len();
                            let first_ty: Option<&Ty> = (
                            match &segments[segments.len() - 1].args[0] {
                                GenArg::Ty(a) => Option::Some(a),
                                _ => Option::None,
                            });
                            let first_is_ty = first_ty.is_some();
                            if int_result && nargs <= 2 && first_is_ty {
                                let a: &Ty = first_ty.unwrap();
                                let is_unit = (match a {
                                    Ty::Tuple(elems) => elems.len() == 0,
                                    _ => false,
                                });
                                proof {
                                    lemma_tyv_shape(*a);
                                    if (tyv(*a) is Tuple) {
                                        crate::ty::lemma_tys_view_len(a->Tuple_0@);
                                    }
                                }
                                let mut mapped = String::new();
                                mapped.append("let ret = ret.map(|ret| { ");
                                mapped.append(ret.c_ret.as_str());
                                mapped.append(" });");
                                ret.c_out = String::from_str("-> i32");
                                ret.c_cast_out = String::from_str("-> i32");
                                if is_unit {
                                    let mut c_ret = mapped;
                                    c_ret.append(" ");
                                    c_ret.append(crate_path.as_str());
                                    c_ret.append("::result::into_int_result(ret)");
                                    let mut ifr = String::new();
                                    ifr.append(crate_path.as_str());
                                    ifr.append("::result::from_int_result_empty(");
                                    ifr.append(ret.impl_func_ret.as_str());
                                    ifr.append(")");
                                    ret.c_ret = c_ret;
                                    ret.impl_func_ret = ifr;
                                    proof {
                                        assert(ret.c_ret@ =~= spec_mapped_ret(ret0@.c_ret)
                                            + " "@ + crate_path@
                                            + "::result::into_int_result(ret)"@);
                                    }
                                    ret
                                } else {
                                    let mut params = ret.c_ret_params;
                                    params.append("ok_out: &mut ::core::mem::MaybeUninit<");
                                    render_ty(a, &mut params);
                                    params.append(">,");
                                    ret.c_ret_params = params;
                                    ret.c_ret_precall_def.append(
                                        "let mut ok_out = ::core::mem::MaybeUninit::uninit();",
                                    );
                                    ret.c_call_ret_args.append("&mut ok_out,");
                                    let mut c_ret = mapped;
                                    c_ret.append(" ");
                                    c_ret.append(crate_path.as_str());
                                    c_ret.append("::result::into_int_out_result(ret, ok_out)");
                                    let mut ifr = String::new();
                                    if safe {
                                        ifr.append("unsafe ");
                                    }
                                    ifr.append("{ ");
                                    ifr.append(crate_path.as_str());
                                    ifr.append("::result::from_int_result(");
                                    ifr.append(ret.impl_func_ret.as_str());
                                    ifr.append(", ok_out) }");
                                    ret.c_ret = c_ret;
                                    ret.impl_func_ret = ifr;
                                    ret
                                }
                            } else if nargs == 2 && first_is_ty && (
                            match &segments[segments.len() - 1].args[1] {
                                GenArg::Ty(_) => true,
                                _ => false,
                            }) {
                                let co = crate_path_segs(crate_path, "result", "CResult");
                                let new_ct = replace_path_keep_final_args(ct, false, &co);
                                let mut c_out = String::new();
                                c_out.append("-> ");
                                render_ty(&new_ct, &mut c_out);
                                ret.c_out = c_out;
                                let mut c_cast_out = String::new();
                                c_cast_out.append("-> ");
                                match ty_cast {
                                    Option::Some(tc) => {
                                        let new_tc = replace_path_keep_final_args(
                                            tc,
                                            false,
                                            &co,
                                        );
                                        render_ty(&new_tc, &mut c_cast_out);
                                    },
                                    Option::None => {},
                                }
                                ret.c_cast_out = c_cast_out;
                                let mut mapped = String::new();
                                mapped.append("let ret = ret.map(|ret| { ");
                                mapped.append(ret.c_ret.as_str());
                                mapped.append(" });");
                                mapped.append(" ret.into()");
                                ret.c_ret = mapped;
                                ret.impl_func_ret.append(".into()");
                                ret
                            } else {
                                ret
                            }
                        } else {
                            ret
                        }
                    } else {
                        ret
                    }
                },
                _ => ret,
            }
        },
    }
}

} // verus!

verus! {

impl ParsedReturnType {
    /// Runs the full return transform, per [`spec_parsed_ret`]: associated
    /// type substitution and lifetime resolution, then sum-type flattening.
    pub fn new(
        ty: Option<Ty>,
        rules: &WrapRules,
        res_override: Option<&String>,
        int_result: bool,
        safe: bool,
        func_name: &String,
        receiver: &Receiver,
        crate_path: &String,
        trait_name: &String,
        trait_generics: &ParsedGenerics,
    ) -> (r: ParsedReturnType)
        requires
            spec_ret_ok(ret_opt_ty_view(ty), rules@),
        ensures
            r@ == spec_parsed_ret(
                ret_opt_ty_view(ty),
                rules@,
                (match res_override {
                    Option::Some(s) => s@,
                    Option::None => "Result"@,
                }),
                int_result,
                safe,
                receiver@,
                func_name@,
                crate_path@,
                trait_name@,
                trait_generics@,
            ),
    {
        let ghost tv = ret_opt_ty_view(ty);
        let result_ident: String = (match res_override {
            Option::Some(s) => s.clone(),
            Option::None => String::from_str("Result"),
        });
        let (ret, cur_ty, ty_cast) = (match ty {
            Option::None => (plain_ret(Option::None), Option::<Ty>::None, Option::<Ty>::None),
            Option::Some(ty0) => {
                let (wty, f) = wrap_type(&ty0, rules);
                match f {
                    Option::None => (plain_ret(Option::Some(ty0)), Option::Some(wty), Option::None),
                    Option::Some(found) => {
                        proof {
                            lemma_rules_view_len(rules.entries@);
                        }
                        let rule = &rules.entries[found.rule_idx].rule;
                        ret_wrapped(
                            ty0,
                            wty,
                            found.old_ty,
                            &found.ident,
                            rule,
                            receiver,
                            func_name,
                            trait_name,
                            trait_generics,
                        )
                    },
                }
            },
        });
        proof {
            let s1 = spec_ret_step1(tv, rules@, receiver@, func_name@, trait_name@, trait_generics@);
            assert(ret@ =~= s1.ret);
            assert(ret_opt_ty_view(cur_ty) == s1.cur_ty);
            assert(ret_opt_ty_view(ty_cast) == s1.ty_cast);
        }
        ret_flatten(ret, cur_ty, ty_cast, &result_ident, int_result, safe, crate_path)
    }
}

} // verus!
