//! The method descriptor.
//!
//! One [`ParsedFunc`] holds a method's full before/after signatures and
//! generates the call-site artifacts: the vtable entry, the boundary
//! wrapper function, the default vtable initializer, the forwarding trait
//! implementation, and the temp-storage accessor.

use vstd::prelude::*;

verus! {

use crate::arg::{
    spec_trait_arg, FnArg, FnArgV, Receiver, ReceiverV, TraitArg, TraitArgV,
};
use crate::generics::{ParsedGenerics, ParsedGenericsV};
use crate::ret::{
    ret_opt_ty_view, spec_parsed_ret, spec_ret_ok, ParsedReturnType, ParsedReturnTypeV,
};
use crate::rules::{spec_wrap_ty, WrapRuleV, WrapRules};
use crate::strutil::{opt_str_view, str_is};
use crate::ty::{clone_lt_opt, lt_opt_view, LifetimeName, Ty, TyV};

/// The prefix of every generated boundary wrapper function's name.
pub open spec fn spec_fn_prefix() -> Seq<char> {
    "cglue_wrapped_"@
}

/// The calling convention of a declared method: already boundary-safe, or
/// in need of a wrapper.
#[derive(Debug, PartialEq, Eq, Structural)]
pub enum FuncAbi {
    ReprC,
    Wrapped,
}

/// The convention derived from a declared `extern` tag.
pub open spec fn spec_abi(abi: Option<Seq<char>>) -> FuncAbi {
    match abi {
        Option::Some(s) => if s == "C"@ {
            FuncAbi::ReprC
        } else {
            FuncAbi::Wrapped
        },
        Option::None => FuncAbi::Wrapped,
    }
}

impl FuncAbi {
    /// The text prefixed to a forwarded method with this convention.
    pub fn prefix(&self) -> (r: String)
        ensures
            r@ == (match *self {
                FuncAbi::ReprC => "extern \"C\""@,
                FuncAbi::Wrapped => ""@,
            }),
    {
        match self {
            FuncAbi::ReprC => String::from_str("extern \"C\""),
            FuncAbi::Wrapped => crate::strutil::empty_string(),
        }
    }

    /// Derives the convention from a declared `extern` tag, per
    /// [`spec_abi`]: only an explicit C convention avoids the wrapper.
    pub fn from_abi(abi: &Option<String>) -> (r: FuncAbi)
        ensures
            r == spec_abi(opt_str_view(*abi)),
    {
        match abi {
            Option::Some(s) => {
                if str_is(s, "C") {
                    FuncAbi::ReprC
                } else {
                    FuncAbi::Wrapped
                }
            },
            Option::None => FuncAbi::Wrapped,
        }
    }
}

/// A declared method signature, as handed to the transform engine.
pub struct Signature {
    pub ident: String,
    /// True when the method is declared without `unsafe`.
    pub safe: bool,
    /// The declared `extern` tag, when present.
    pub abi: Option<String>,
    pub inputs: Vec<FnArg>,
    pub output: Option<Ty>,
    /// The signature's own generic parameters.
    pub generics: ParsedGenerics,
}

/// Spec-level mirror of [`Signature`].
#[verifier::ext_equal]
pub struct SignatureV {
    pub ident: Seq<char>,
    pub safe: bool,
    pub abi: Option<Seq<char>>,
    pub inputs: Seq<FnArgV>,
    pub output: Option<TyV>,
    pub generics: ParsedGenericsV,
}

pub open spec fn fnargs_view(s: Seq<FnArg>) -> Seq<FnArgV>
    decreases s,
{
    if s.len() == 0 {
        Seq::empty()
    } else {
        seq![s[0]@] + fnargs_view(s.drop_first())
    }
}

pub proof fn lemma_fnargs_view_len(s: Seq<FnArg>)
    ensures
        fnargs_view(s).len() == s.len(),
        forall|i: int| 0 <= i < s.len() ==> fnargs_view(s)[i] == (#[trigger] s[i])@,
    decreases s,
{
    if s.len() > 0 {
        lemma_fnargs_view_len(s.drop_first());
        assert forall|i: int| 0 <= i < s.len() implies fnargs_view(s)[i] == (#[trigger] s[i])@ by {
            if i > 0 {
                assert(s.drop_first()[i - 1] == s[i]);
            }
        }
    }
}

impl View for Signature {
    type V = SignatureV;

    open spec fn view(&self) -> SignatureV {
        SignatureV {
            ident: self.ident@,
            safe: self.safe,
            abi: opt_str_view(self.abi),
            inputs: fnargs_view(self.inputs@),
            output: ret_opt_ty_view(self.output),
            generics: self.generics@,
        }
    }
}

/// One method's full transform state.
pub struct ParsedFunc {
    pub name: String,
    pub trait_name: String,
    pub safe: bool,
    pub abi: FuncAbi,
    pub has_nontrivial: bool,
    pub receiver: Receiver,
    pub args: Vec<TraitArg>,
    pub out: ParsedReturnType,
    pub generics: ParsedGenerics,
    pub sig_generics: ParsedGenerics,
}

/// Spec-level mirror of [`ParsedFunc`].
#[verifier::ext_equal]
pub struct ParsedFuncV {
    pub name: Seq<char>,
    pub trait_name: Seq<char>,
    pub safe: bool,
    pub abi: FuncAbi,
    pub has_nontrivial: bool,
    pub receiver: ReceiverV,
    pub args: Seq<TraitArgV>,
    pub out: ParsedReturnTypeV,
    pub generics: ParsedGenericsV,
    pub sig_generics: ParsedGenericsV,
}

pub open spec fn targs_view(s: Seq<TraitArg>) -> Seq<TraitArgV>
    decreases s,
{
    if s.len() == 0 {
        Seq::empty()
    } else {
        seq![s[0]@] + targs_view(s.drop_first())
    }
}

pub proof fn lemma_targs_view_len(s: Seq<TraitArg>)
    ensures
        targs_view(s).len() == s.len(),
        forall|i: int| 0 <= i < s.len() ==> targs_view(s)[i] == (#[trigger] s[i])@,
    decreases s,
{
    if s.len() > 0 {
        lemma_targs_view_len(s.drop_first());
        assert forall|i: int| 0 <= i < s.len() implies targs_view(s)[i] == (#[trigger] s[i])@ by {
            if i > 0 {
                assert(s.drop_first()[i - 1] == s[i]);
            }
        }
    }
}

pub proof fn lemma_targs_view_push(s: Seq<TraitArg>, e: TraitArg)
    ensures
        targs_view(s.push(e)) =~= targs_view(s).push(e@),
{
    lemma_targs_view_len(s);
    lemma_targs_view_len(s.push(e));
    assert forall|i: int| 0 <= i < s.len() + 1 implies targs_view(s.push(e))[i] == targs_view(
        s,
    ).push(e@)[i] by {
        if i < s.len() {
            assert(s.push(e)[i] == s[i]);
        } else {
            assert(s.push(e)[i] == e);
        }
    }
}

impl View for ParsedFunc {
    type V = ParsedFuncV;

    open spec fn view(&self) -> ParsedFuncV {
        ParsedFuncV {
            name: self.name@,
            trait_name: self.trait_name@,
            safe: self.safe,
            abi: self.abi,
            has_nontrivial: self.has_nontrivial,
            receiver: self.receiver@,
            args: targs_view(self.args@),
            out: self.out@,
            generics: self.generics@,
            sig_generics: self.sig_generics@,
        }
    }
}

// ---------------------------------------------------------------------------
// Construction.
// ---------------------------------------------------------------------------

/// The last declared receiver among the inputs, when one exists.
pub open spec fn spec_find_receiver(inputs: Seq<FnArgV>) -> Option<ReceiverV>
    decreases inputs,
{
    if inputs.len() == 0 {
        Option::None
    } else {
        match inputs.last() {
            FnArgV::Receiver(r) => Option::Some(r),
            _ => spec_find_receiver(inputs.drop_last()),
        }
    }
}

/// The transformed parameter list, from index `i` on.
pub open spec fn spec_args_transform(
    inputs: Seq<FnArgV>,
    i: int,
    rules: Seq<WrapRuleV>,
    crate_path: Seq<char>,
    lt: Option<Seq<char>>,
    lt_cast: Option<Seq<char>>,
) -> Seq<TraitArgV>
    decreases inputs.len() - i,
{
    if i < 0 || i >= inputs.len() {
        Seq::empty()
    } else {
        seq![spec_trait_arg(inputs[i], rules, crate_path, lt, lt_cast)] + spec_args_transform(
            inputs,
            i + 1,
            rules,
            crate_path,
            lt,
            lt_cast,
        )
    }
}

/// Whether any parameter in the tail from `i` on changes representation.
pub open spec fn spec_any_nontrivial(args: Seq<TraitArgV>, i: int) -> bool
    decreases args.len() - i,
{
    if i < 0 || i >= args.len() {
        false
    } else {
        !args[i].trivial || spec_any_nontrivial(args, i + 1)
    }
}

/// The inputs on which the transform engine stays in its domain: the
/// substitution walk succeeds on the return type and on every parameter.
pub open spec fn spec_sig_ok(sig: SignatureV, rules: Seq<WrapRuleV>) -> bool {
    spec_ret_ok(sig.output, rules) && (forall|i: int|
        0 <= i < sig.inputs.len() ==> (match #[trigger] sig.inputs[i] {
            FnArgV::Typed { ty, .. } => spec_wrap_ty(ty, rules).2,
            _ => true,
        }))
}

/// The full method transform: `None` when the method has no receiver (such
/// a method cannot be bound into an interface vtable).
pub open spec fn spec_parsed_func(
    sig: SignatureV,
    trait_name: Seq<char>,
    generics: ParsedGenericsV,
    rules: Seq<WrapRuleV>,
    result_ident: Seq<char>,
    int_result: bool,
    crate_path: Seq<char>,
) -> Option<ParsedFuncV> {
    match spec_find_receiver(sig.inputs) {
        Option::None => Option::None,
        Option::Some(rcv) => {
            let out = spec_parsed_ret(
                sig.output,
                rules,
                result_ident,
                int_result,
                sig.safe,
                rcv,
                sig.ident,
                crate_path,
                trait_name,
                generics,
            );
            let args = spec_args_transform(
                sig.inputs,
                0,
                rules,
                crate_path,
                out.lifetime,
                out.lifetime_cast,
            );
            Option::Some(
                ParsedFuncV {
                    name: sig.ident,
                    trait_name,
                    safe: sig.safe,
                    abi: spec_abi(sig.abi),
                    has_nontrivial: spec_any_nontrivial(args, 0),
                    receiver: rcv,
                    args,
                    out,
                    generics,
                    sig_generics: sig.generics,
                },
            )
        },
    }
}

fn clone_receiver(r: &Receiver) -> (c: Receiver)
    ensures
        c@ == r@,
{
    Receiver {
        reference: r.reference,
        mutability: r.mutability,
        lifetime: clone_lt_opt(&r.lifetime),
    }
}

impl ParsedFunc {
    /// Runs the method transform, per [`spec_parsed_func`].
    pub fn new(
        sig: Signature,
        trait_name: String,
        generics: &ParsedGenerics,
        wrap_types: &WrapRules,
        res_override: Option<&String>,
        int_result: bool,
        crate_path: &String,
    ) -> (r: Option<ParsedFunc>)
        requires
            spec_sig_ok(sig@, wrap_types@),
        ensures
            (match r {
                Option::Some(f) => spec_parsed_func(
                    sig@,
                    trait_name@,
                    generics@,
                    wrap_types@,
                    (match res_override {
                        Option::Some(s) => s@,
                        Option::None => "Result"@,
                    }),
                    int_result,
                    crate_path@,
                ) == Option::Some(f@),
                Option::None => spec_parsed_func(
                    sig@,
                    trait_name@,
                    generics@,
                    wrap_types@,
                    (match res_override {
                        Option::Some(s) => s@,
                        Option::None => "Result"@,
                    }),
                    int_result,
                    crate_path@,
                ) is None,
            }),
    {
        let ghost sigv = sig@;
        proof {
            lemma_fnargs_view_len(sig.inputs@);
        }
        let mut receiver: Option<Receiver> = Option::None;
        let mut i: usize = 0;
        while i < sig.inputs.len()
            invariant
                i <= sig.inputs@.len(),
                sigv.inputs.len() == sig.inputs@.len(),
                forall|j: int| 0 <= j < sig.inputs@.len() ==> sigv.inputs[j] == (
                #[trigger] sig.inputs@[j])@,
                sigv.inputs == fnargs_view(sig.inputs@),
                (match receiver {
                    Option::Some(rc) => spec_find_receiver(sigv.inputs.subrange(0, i as int))
                        == Option::Some(rc@),
                    Option::None => spec_find_receiver(sigv.inputs.subrange(0, i as int))
                        is None,
                }),
            decreases sig.inputs@.len() - i,
        {
            match &sig.inputs[i] {
                FnArg::Receiver(rc) => {
                    receiver = Option::Some(clone_receiver(rc));
                },
                _ => {},
            }
            proof {
                assert(sigv.inputs.subrange(0, i + 1).drop_last() =~= sigv.inputs.subrange(
                    0,
                    i as int,
                ));
                assert(sigv.inputs.subrange(0, i + 1).last() == sigv.inputs[i as int]);
            }
            i = i + 1;
        }
        proof {
            assert(sigv.inputs.subrange(0, sigv.inputs.len() as int) =~= sigv.inputs);
        }
        let receiver = (match receiver {
            Option::Some(rc) => rc,
            Option::None => {
                return Option::None;
            },
        });
        let out = ParsedReturnType::new(
            sig.output,
            wrap_types,
            res_override,
            int_result,
            sig.safe,
            &sig.ident,
            &receiver,
            crate_path,
            &trait_name,
            generics,
        );
        let ghost outv = out@;
        let lt: Option<&LifetimeName> = (match &out.lifetime {
            Option::Some(l) => Option::Some(l),
            Option::None => Option::None,
        });
        let lt_cast: Option<&LifetimeName> = (match &out.lifetime_cast {
            Option::Some(l) => Option::Some(l),
            Option::None => Option::None,
        });
        let mut args: Vec<TraitArg> = Vec::new();
        let mut has_nontrivial = false;
        let mut inputs = sig.inputs;
        let ghost inputsv = sigv.inputs;
        let mut j: usize = 0;
        let total: usize = inputs.len();
        proof {
            lemma_fnargs_view_len(inputs@);
        }
        while inputs.len() > 0
            invariant
                inputsv.len() == total as int,
                j <= inputsv.len(),
                j + inputs@.len() == inputsv.len(),
                fnargs_view(inputs@) =~= inputsv.subrange(j as int, inputsv.len() as int),
                targs_view(args@) =~= spec_args_transform(
                    inputsv,
                    0,
                    wrap_types@,
                    crate_path@,
                    outv.lifetime,
                    outv.lifetime_cast,
                ).subrange(0, j as int),
                targs_view(args@).len() == j,
                has_nontrivial == spec_any_nontrivial_prefix(
                    spec_args_transform(
                        inputsv,
                        0,
                        wrap_types@,
                        crate_path@,
                        outv.lifetime,
                        outv.lifetime_cast,
                    ),
                    j as int,
                ),
                (match lt {
                    Option::Some(l) => outv.lifetime == Option::Some(l.name@),
                    Option::None => outv.lifetime is None,
                }),
                (match lt_cast {
                    Option::Some(l) => outv.lifetime_cast == Option::Some(l.name@),
                    Option::None => outv.lifetime_cast is None,
                }),
                forall|k: int|
                    0 <= k < inputsv.len() ==> (match #[trigger] inputsv[k] {
                        FnArgV::Typed { ty, .. } => spec_wrap_ty(ty, wrap_types@).2,
                        _ => true,
                    }),
            decreases inputs@.len(),
        {
            proof {
                lemma_fnargs_view_len(inputs@);
                lemma_args_transform_len(
                    inputsv,
                    wrap_types@,
                    crate_path@,
                    outv.lifetime,
                    outv.lifetime_cast,
                );
                assert(fnargs_view(inputs@)[0] == inputsv[j as int]);
            }
            let ghost previnputs = inputs@;
            let input = inputs.remove(0);
            let ta = TraitArg::new(input, wrap_types, crate_path, lt, lt_cast);
            has_nontrivial = has_nontrivial || !ta.trivial;
            let ghost prev = args@;
            let ghost tav = ta;
            args.push(ta);
            proof {
                lemma_targs_view_push(prev, tav);
                lemma_fnargs_view_len(previnputs);
                lemma_fnargs_view_len(inputs@);
                assert forall|k: int| 0 <= k < inputs@.len() implies fnargs_view(inputs@)[k]
                    == inputsv[j + 1 + k] by {
                    assert(inputs@[k] == previnputs[k + 1]);
                    assert(fnargs_view(previnputs)[k + 1] == inputsv.subrange(
                        j as int,
                        inputsv.len() as int,
                    )[k + 1]);
                }
                assert(fnargs_view(inputs@) =~= inputsv.subrange(
                    j as int + 1,
                    inputsv.len() as int,
                ));
            }
            j = j + 1;
            proof {
                assert(targs_view(args@) =~= spec_args_transform(
                    inputsv,
                    0,
                    wrap_types@,
                    crate_path@,
                    outv.lifetime,
                    outv.lifetime_cast,
                ).subrange(0, j as int));
            }
        }
        proof {
            lemma_args_transform_len(
                inputsv,
                wrap_types@,
                crate_path@,
                outv.lifetime,
                outv.lifetime_cast,
            );
            let full = spec_args_transform(
                inputsv,
                0,
                wrap_types@,
                crate_path@,
                outv.lifetime,
                outv.lifetime_cast,
            );
            assert(full.subrange(0, full.len() as int) =~= full);
            lemma_any_nontrivial_prefix(full);
        }
        let generics = generics.copy();
        let sig_generics = sig.generics;
        Option::Some(
            ParsedFunc {
                name: sig.ident,
                trait_name,
                safe: sig.safe,
                abi: FuncAbi::from_abi(&sig.abi),
                has_nontrivial,
                receiver,
                args,
                out,
                generics,
                sig_generics,
            },
        )
    }
}

/// Whether any parameter before `i` changes representation.
pub open spec fn spec_any_nontrivial_prefix(args: Seq<TraitArgV>, i: int) -> bool
    decreases i,
{
    if i <= 0 {
        false
    } else {
        spec_any_nontrivial_prefix(args, i - 1) || !args[i - 1].trivial
    }
}

pub proof fn lemma_any_nontrivial_prefix(args: Seq<TraitArgV>)
    ensures
        spec_any_nontrivial_prefix(args, args.len() as int) == spec_any_nontrivial(args, 0),
{
    lemma_any_nontrivial_agree(args, 0);
    lemma_any_nontrivial_agree(args, args.len() as int);
}

proof fn lemma_any_nontrivial_agree(args: Seq<TraitArgV>, i: int)
    requires
        0 <= i <= args.len(),
    ensures
        spec_any_nontrivial(args, i) == (exists|j: int|
            i <= j < args.len() && !(#[trigger] args[j]).trivial),
        spec_any_nontrivial_prefix(args, i) == (exists|j: int|
            0 <= j < i && !(#[trigger] args[j]).trivial),
    decreases args.len() - i, i + args.len(),
{
    if i < args.len() {
        lemma_any_nontrivial_agree(args, i + 1);
    }
    if i > 0 {
        lemma_any_nontrivial_agree_prefix(args, i);
    }
}

proof fn lemma_any_nontrivial_agree_prefix(args: Seq<TraitArgV>, i: int)
    requires
        0 <= i <= args.len(),
    ensures
        spec_any_nontrivial_prefix(args, i) == (exists|j: int|
            0 <= j < i && !(#[trigger] args[j]).trivial),
    decreases i,
{
    if i > 0 {
        lemma_any_nontrivial_agree_prefix(args, i - 1);
    }
}

pub proof fn lemma_args_transform_len(
    inputs: Seq<FnArgV>,
    rules: Seq<WrapRuleV>,
    crate_path: Seq<char>,
    lt: Option<Seq<char>>,
    lt_cast: Option<Seq<char>>,
)
    ensures
        spec_args_transform(inputs, 0, rules, crate_path, lt, lt_cast).len() == inputs.len(),
        forall|i: int|
            0 <= i < inputs.len() ==> spec_args_transform(inputs, 0, rules, crate_path, lt, lt_cast)[i]
                == spec_trait_arg(#[trigger] inputs[i], rules, crate_path, lt, lt_cast),
{
    lemma_args_transform_from(inputs, 0, rules, crate_path, lt, lt_cast);
}

proof fn lemma_args_transform_from(
    inputs: Seq<FnArgV>,
    i: int,
    rules: Seq<WrapRuleV>,
    crate_path: Seq<char>,
    lt: Option<Seq<char>>,
    lt_cast: Option<Seq<char>>,
)
    requires
        0 <= i <= inputs.len(),
    ensures
        spec_args_transform(inputs, i, rules, crate_path, lt, lt_cast).len() == inputs.len() - i,
        forall|k: int|
            i <= k < inputs.len() ==> spec_args_transform(inputs, i, rules, crate_path, lt, lt_cast)[k
                - i] == spec_trait_arg(#[trigger] inputs[k], rules, crate_path, lt, lt_cast),
    decreases inputs.len() - i,
{
    if i < inputs.len() {
        lemma_args_transform_from(inputs, i + 1, rules, crate_path, lt, lt_cast);
    }
}

} // verus!

verus! {

use crate::ty::{render_ty, spec_render_lt_opt, spec_render_ty};

// ---------------------------------------------------------------------------
// Argument lists.
// ---------------------------------------------------------------------------

/// Which per-parameter fragment a list concatenates.
#[derive(Clone, Copy)]
pub enum ArgListKind {
    CArgs,
    CCastArgs,
    ToC,
    CallC,
    ToTrait,
    Decl,
    Passthrough,
}

/// A parameter as it appears in a trait method declaration.
pub open spec fn spec_render_fnarg(a: FnArgV) -> Seq<char> {
    match a {
        FnArgV::Receiver(r) => if !r.reference {
            "self"@
        } else {
            "&"@ + spec_render_lt_opt(r.lifetime) + (if r.mutability {
                "mut "@
            } else {
                ""@
            }) + "self"@
        },
        FnArgV::Typed { name, ty } => name + ": "@ + spec_render_ty(ty),
    }
}

/// One parameter's contribution to a list of the given kind.
pub open spec fn spec_arg_item(a: TraitArgV, k: ArgListKind) -> Seq<char> {
    match k {
        ArgListKind::CArgs => a.c_args,
        ArgListKind::CCastArgs => a.c_cast_args,
        ArgListKind::ToC => a.to_c_args,
        ArgListKind::CallC => a.call_c_args,
        ArgListKind::ToTrait => a.to_trait_arg,
        ArgListKind::Decl => spec_render_fnarg(a.arg) + ","@,
        ArgListKind::Passthrough => (match a.arg {
            FnArgV::Typed { name, .. } => name + ","@,
            FnArgV::Receiver(_) => "self,"@,
        }),
    }
}

/// The concatenated list of the given kind, from parameter `i` on.
pub open spec fn spec_arg_list(args: Seq<TraitArgV>, i: int, k: ArgListKind) -> Seq<char>
    decreases args.len() - i,
{
    if i < 0 || i >= args.len() {
        ""@
    } else {
        spec_arg_item(args[i], k) + spec_arg_list(args, i + 1, k)
    }
}

fn emit_fnarg(a: &FnArg, out: &mut String)
    ensures
        final(out)@ == old(out)@ + spec_render_fnarg(a@),
{
    proof {
        reveal_strlit("");
    }
    match a {
        FnArg::Receiver(r) => {
            if !r.reference {
                out.append("self");
            } else {
                out.append("&");
                match &r.lifetime {
                    Option::Some(l) => {
                        out.append("'");
                        out.append(l.name.as_str());
                        out.append(" ");
                    },
                    Option::None => {},
                }
                if r.mutability {
                    out.append("mut ");
                }
                out.append("self");
            }
        },
        FnArg::Typed { name, ty } => {
            out.append(name.as_str());
            out.append(": ");
            render_ty(ty, out);
        },
    }
    proof {
        assert(out@ =~= old(out)@ + spec_render_fnarg(a@));
    }
}

fn emit_arg_list(args: &Vec<TraitArg>, i: usize, k: ArgListKind, out: &mut String)
    requires
        i <= args@.len(),
    ensures
        final(out)@ == old(out)@ + spec_arg_list(targs_view(args@), i as int, k),
    decreases args@.len() - i,
{
    proof {
        reveal_strlit("");
        lemma_targs_view_len(args@);
    }
    if i < args.len() {
        match k {
            ArgListKind::CArgs => {
                out.append(args[i].c_args.as_str());
            },
            ArgListKind::CCastArgs => {
                out.append(args[i].c_cast_args.as_str());
            },
            ArgListKind::ToC => {
                out.append(args[i].to_c_args.as_str());
            },
            ArgListKind::CallC => {
                out.append(args[i].call_c_args.as_str());
            },
            ArgListKind::ToTrait => {
                out.append(args[i].to_trait_arg.as_str());
            },
            ArgListKind::Decl => {
                emit_fnarg(&args[i].arg, out);
                out.append(",");
            },
            ArgListKind::Passthrough => {
                match &args[i].arg {
                    FnArg::Typed { name, .. } => {
                        out.append(name.as_str());
                        out.append(",");
                    },
                    FnArg::Receiver(_) => {
                        out.append("self,");
                    },
                }
            },
        }
        emit_arg_list(args, i + 1, k, out);
        proof {
            assert(out@ =~= old(out)@ + spec_arg_list(targs_view(args@), i as int, k));
        }
    }
}

// ---------------------------------------------------------------------------
// Per-method emitters.
// ---------------------------------------------------------------------------

/// The boundary parameter declarations of the vtable entry.
pub open spec fn spec_vtbl_args(f: ParsedFuncV) -> Seq<char> {
    spec_arg_list(f.args, 0, ArgListKind::CArgs)
}

/// The boundary parameter declarations with the recast lifetime.
pub open spec fn spec_vtbl_args_cast(f: ParsedFuncV) -> Seq<char> {
    spec_arg_list(f.args, 0, ArgListKind::CCastArgs)
}

impl ParsedFunc {
    /// Emits the boundary parameter declarations, per [`spec_vtbl_args`].
    pub fn vtbl_args(&self) -> (r: String)
        ensures
            r@ == spec_vtbl_args(self@),
    {
        let mut r = String::new();
        emit_arg_list(&self.args, 0, ArgListKind::CArgs, &mut r);
        r
    }

    /// Emits the recast parameter declarations, per [`spec_vtbl_args_cast`].
    pub fn vtbl_args_cast(&self) -> (r: String)
        ensures
            r@ == spec_vtbl_args_cast(self@),
    {
        let mut r = String::new();
        emit_arg_list(&self.args, 0, ArgListKind::CCastArgs, &mut r);
        r
    }

    /// Emits the trait-side parameter declarations.
    pub fn trait_args(&self) -> (r: String)
        ensures
            r@ == spec_arg_list(self@.args, 0, ArgListKind::Decl),
    {
        let mut r = String::new();
        emit_arg_list(&self.args, 0, ArgListKind::Decl, &mut r);
        r
    }

    /// Emits the pass-through argument names, skipping the first `skip`.
    pub fn trait_passthrough_args(&self, skip: usize) -> (r: String)
        ensures
            r@ == spec_arg_list(self@.args, skip as int, ArgListKind::Passthrough),
    {
        proof {
            reveal_strlit("");
            lemma_targs_view_len(self.args@);
        }
        let mut r = String::new();
        if skip <= self.args.len() {
            emit_arg_list(&self.args, skip, ArgListKind::Passthrough, &mut r);
        } else {
            proof {
                assert(r@ =~= spec_arg_list(self@.args, skip as int, ArgListKind::Passthrough));
            }
        }
        r
    }

    /// Emits the trait-impl side bindings for the boundary call.
    pub fn to_c_def_args(&self) -> (r: String)
        ensures
            r@ == spec_arg_list(self@.args, 0, ArgListKind::ToC),
    {
        let mut r = String::new();
        emit_arg_list(&self.args, 0, ArgListKind::ToC, &mut r);
        r
    }

    /// Emits the arguments of the boundary call.
    pub fn to_c_call_args(&self) -> (r: String)
        ensures
            r@ == spec_arg_list(self@.args, 0, ArgListKind::CallC),
    {
        let mut r = String::new();
        emit_arg_list(&self.args, 0, ArgListKind::CallC, &mut r);
        r
    }

    /// Emits the arguments of the call to the trait method.
    pub fn to_trait_call_args(&self) -> (r: String)
        ensures
            r@ == spec_arg_list(self@.args, 0, ArgListKind::ToTrait),
    {
        let mut r = String::new();
        emit_arg_list(&self.args, 0, ArgListKind::ToTrait, &mut r);
        r
    }

    /// Whether a boundary wrapper must be generated for this method:
    /// required when the native convention is not already boundary-safe or
    /// any parameter or the return changes representation.
    pub fn is_wrapped(&self) -> (r: bool)
        ensures
            r == spec_is_wrapped(self@),
    {
        self.abi == FuncAbi::Wrapped || self.has_nontrivial
    }

    /// Emits the wrapper's safety keyword.
    pub fn get_safety(&self) -> (r: String)
        ensures
            r@ == spec_get_safety(self@),
    {
        proof {
            reveal_strlit("");
        }
        if self.safe {
            crate::strutil::empty_string()
        } else {
            String::from_str("unsafe")
        }
    }
}

/// Round-trip rule of the transform: a wrapper exists exactly when the
/// native convention is not boundary-safe or some representation changes.
pub open spec fn spec_is_wrapped(f: ParsedFuncV) -> bool {
    f.abi == FuncAbi::Wrapped || f.has_nontrivial
}

pub open spec fn spec_get_safety(f: ParsedFuncV) -> Seq<char> {
    if f.safe {
        ""@
    } else {
        "unsafe"@
    }
}

} // verus!

verus! {

/// A return clause: empty for a unit return.
pub open spec fn spec_arrow_ty(t: Option<TyV>) -> Seq<char> {
    match t {
        Option::Some(ty) => "-> "@ + spec_render_ty(ty),
        Option::None => ""@,
    }
}

/// The temp-storage field reserved for this method, keyed by its name: a
/// plain uninitialized slot for a mutable receiver, a single-writer
/// aliasing cell for an immutable one.
pub open spec fn spec_ret_tmp_def(f: ParsedFuncV) -> Seq<char> {
    match f.out.injected_ret_tmp {
        Option::Some(inj) => {
            let ty = (match f.out.injected_ret_tmp_static {
                Option::Some(st) => st,
                Option::None => inj,
            });
            if f.receiver.mutability {
                f.name + ": ::core::mem::MaybeUninit<"@ + spec_render_ty(ty) + ">,"@
            } else {
                f.name + ": ::core::cell::Cell<::core::mem::MaybeUninit<"@ + spec_render_ty(ty)
                    + ">>,"@
            }
        },
        Option::None => ""@,
    }
}

/// The default initializer of the reserved temp-storage field.
pub open spec fn spec_ret_default_def(f: ParsedFuncV) -> Seq<char> {
    match f.out.injected_ret_tmp {
        Option::Some(_) => if f.receiver.mutability {
            f.name + ": ::core::mem::MaybeUninit::uninit(),"@
        } else {
            f.name + ": ::core::cell::Cell::new(::core::mem::MaybeUninit::uninit()),"@
        },
        Option::None => ""@,
    }
}

/// The typed accessor of the reserved temp-storage field.  The immutable
/// receiver variants alias the cell mutably through a shared borrow: the
/// generated accessor carries the call discipline that no two accesses may
/// be live at once, which holds because each call rewrites the slot with
/// identically recomputed contents.
pub open spec fn spec_ret_getter_def(f: ParsedFuncV) -> Seq<char> {
    match f.out.injected_ret_tmp {
        Option::Some(inj) => {
            let tyr = spec_render_ty(inj);
            match (f.out.lifetime, f.receiver.mutability) {
                (Option::Some(lt), true) => "fn "@ + f.name + "<'"@ + lt + ">(&'"@ + lt
                    + " mut self) -> &'"@ + lt + " mut ::core::mem::MaybeUninit<"@ + tyr
                    + "> { unsafe { std::mem::transmute(&mut self."@ + f.name + ") } }"@,
                (Option::None, true) => "fn "@ + f.name
                    + "(&mut self) -> &mut ::core::mem::MaybeUninit<"@ + tyr + "> { &mut self."@
                    + f.name + " }"@,
                (Option::Some(lt), false) => "#[allow(clippy::mut_from_ref)] fn "@ + f.name + "<'"@
                    + lt + ">(&'"@ + lt + " self) -> &'"@ + lt + " mut ::core::mem::MaybeUninit<"@
                    + tyr + "> { unsafe { std::mem::transmute(self."@ + f.name
                    + ".as_ptr().as_mut().unwrap()) } }"@,
                (Option::None, false) => "#[allow(clippy::mut_from_ref)] fn "@ + f.name
                    + "(&self) -> &mut ::core::mem::MaybeUninit<"@ + tyr + "> { unsafe { self."@
                    + f.name + ".as_ptr().as_mut().unwrap() } }"@,
            }
        },
        Option::None => ""@,
    }
}

/// The universally-quantified lifetime of the vtable entry, and whether
/// the recast argument variant is used.
pub open spec fn spec_hrtb_choice(f: ParsedFuncV) -> (Seq<char>, bool) {
    let lt_non_a = (match f.out.lifetime {
        Option::Some(l) => l != "cglue_a"@,
        Option::None => false,
    });
    if f.out.lifetime_cast is Some && !f.out.unbounded_hrtb {
        ("'"@ + f.out.lifetime_cast->0, true)
    } else if f.out.lifetime is Some && lt_non_a {
        ("'"@ + f.out.lifetime->0, false)
    } else {
        (""@, false)
    }
}

/// The flattened vtable entry: a function-pointer field with a boundary
/// signature, universally quantified over the chosen lifetime.
pub open spec fn spec_vtbl_def(f: ParsedFuncV) -> Seq<char> {
    let c = spec_hrtb_choice(f);
    let args = (if c.1 {
        spec_vtbl_args_cast(f)
    } else {
        spec_vtbl_args(f)
    });
    let out = (if c.1 {
        f.out.c_cast_out
    } else {
        f.out.c_out
    });
    f.name + ": for<"@ + f.sig_generics.life_declare + c.0 + "> extern \"C\" fn("@ + args
        + f.out.c_ret_params + ") "@ + out + ","@
}

/// The vtable-entry getter, wrapped in `unsafe` because an opaque entry
/// could otherwise be invoked with a wrong concrete type; with the
/// lifetime-recast variant beside it when one exists.
pub open spec fn spec_vtbl_getter_main(f: ParsedFuncV) -> Seq<char> {
    let c = spec_hrtb_choice(f);
    let args = (if c.1 {
        spec_vtbl_args_cast(f)
    } else {
        spec_vtbl_args(f)
    });
    let out = (if c.1 {
        f.out.c_cast_out
    } else {
        f.out.c_out
    });
    "#[doc = \" Getter for "@ + f.name + ".\"] pub fn "@ + f.name + "(&self) -> for<"@
        + f.sig_generics.life_declare + c.0 + "> unsafe extern \"C\" fn("@ + args
        + f.out.c_ret_params + ") "@ + out + " { unsafe { ::core::mem::transmute(self."@ + f.name
        + ") } }"@
}

pub open spec fn spec_vtbl_getter_tail(f: ParsedFuncV) -> Seq<char> {
    if f.out.lifetime_cast is Some && f.out.unbounded_hrtb {
        " unsafe fn "@ + f.name + "_lifetimed(&self) -> for<'"@ + f.out.lifetime_cast->0 + "> "@
            + spec_get_safety(f) + " extern \"C\" fn("@ + spec_vtbl_args_cast(f)
            + f.out.c_ret_params + ") "@ + f.out.c_cast_out + " { ::core::mem::transmute(self."@
            + f.name + ") }"@
    } else {
        ""@
    }
}

pub open spec fn spec_vtbl_getter_def(f: ParsedFuncV) -> Seq<char> {
    spec_vtbl_getter_main(f) + spec_vtbl_getter_tail(f)
}

/// The default vtable initializer: the wrapper where one is generated, the
/// native method where none is needed.
pub open spec fn spec_vtbl_default_def(f: ParsedFuncV) -> Seq<char> {
    f.name + ": "@ + (if spec_is_wrapped(f) {
        spec_fn_prefix() + f.name + (if f.out.needs_ctx {
            "::<CGlueT, CGlueC, CGlueD, CGlueF, "@ + f.generics.gen_use + ">"@
        } else {
            ""@
        })
    } else {
        "CGlueF::"@ + f.name
    }) + ","@
}

impl ParsedFunc {
    /// Appends the temp-storage field, per [`spec_ret_tmp_def`].
    pub fn ret_tmp_def(&self, stream: &mut String)
        ensures
            final(stream)@ == old(stream)@ + spec_ret_tmp_def(self@),
    {
        proof {
            reveal_strlit("");
        }
        match &self.out.injected_ret_tmp {
            Option::Some(inj) => {
                let ty = (match &self.out.injected_ret_tmp_static {
                    Option::Some(st) => st,
                    Option::None => inj,
                });
                stream.append(self.name.as_str());
                if self.receiver.mutability {
                    stream.append(": ::core::mem::MaybeUninit<");
                    render_ty(ty, stream);
                    stream.append(">,");
                } else {
                    stream.append(": ::core::cell::Cell<::core::mem::MaybeUninit<");
                    render_ty(ty, stream);
                    stream.append(">>,");
                }
                proof {
                    assert(stream@ =~= old(stream)@ + spec_ret_tmp_def(self@));
                }
            },
            Option::None => {},
        }
    }

    /// Appends the field initializer, per [`spec_ret_default_def`].
    pub fn ret_default_def(&self, stream: &mut String)
        ensures
            final(stream)@ == old(stream)@ + spec_ret_default_def(self@),
    {
        proof {
            reveal_strlit("");
        }
        match &self.out.injected_ret_tmp {
            Option::Some(_) => {
                stream.append(self.name.as_str());
                if self.receiver.mutability {
                    stream.append(": ::core::mem::MaybeUninit::uninit(),");
                } else {
                    stream.append(": ::core::cell::Cell::new(::core::mem::MaybeUninit::uninit()),");
                }
                proof {
                    assert(stream@ =~= old(stream)@ + spec_ret_default_def(self@));
                }
            },
            Option::None => {},
        }
    }

    /// Appends the temp-storage accessor, per [`spec_ret_getter_def`].
    pub fn ret_getter_def(&self, stream: &mut String)
        ensures
            final(stream)@ == old(stream)@ + spec_ret_getter_def(self@),
    {
        proof {
            reveal_strlit("");
        }
        match &self.out.injected_ret_tmp {
            Option::Some(inj) => {
                let mut tyr = String::new();
                render_ty(inj, &mut tyr);
                match (&self.out.lifetime, self.receiver.mutability) {
                    (Option::Some(lt), true) => {
                        stream.append("fn ");
                        stream.append(self.name.as_str());
                        stream.append("<'");
                        stream.append(lt.name.as_str());
                        stream.append(">(&'");
                        stream.append(lt.name.as_str());
                        stream.append(" mut self) -> &'");
                        stream.append(lt.name.as_str());
                        stream.append(" mut ::core::mem::MaybeUninit<");
                        stream.append(tyr.as_str());
                        stream.append("> { unsafe { std::mem::transmute(&mut self.");
                        stream.append(self.name.as_str());
                        stream.append(") } }");
                    },
                    (Option::None, true) => {
                        stream.append("fn ");
                        stream.append(self.name.as_str());
                        stream.append("(&mut self) -> &mut ::core::mem::MaybeUninit<");
                        stream.append(tyr.as_str());
                        stream.append("> { &mut self.");
                        stream.append(self.name.as_str());
                        stream.append(" }");
                    },
                    (Option::Some(lt), false) => {
                        stream.append("#[allow(clippy::mut_from_ref)] fn ");
                        stream.append(self.name.as_str());
                        stream.append("<'");
                        stream.append(lt.name.as_str());
                        stream.append(">(&'");
                        stream.append(lt.name.as_str());
                        stream.append(" self) -> &'");
                        stream.append(lt.name.as_str());
                        stream.append(" mut ::core::mem::MaybeUninit<");
                        stream.append(tyr.as_str());
                        stream.append("> { unsafe { std::mem::transmute(self.");
                        stream.append(self.name.as_str());
                        stream.append(".as_ptr().as_mut().unwrap()) } }");
                    },
                    (Option::None, false) => {
                        stream.append("#[allow(clippy::mut_from_ref)] fn ");
                        stream.append(self.name.as_str());
                        stream.append("(&self) -> &mut ::core::mem::MaybeUninit<");
                        stream.append(tyr.as_str());
                        stream.append("> { unsafe { self.");
                        stream.append(self.name.as_str());
                        stream.append(".as_ptr().as_mut().unwrap() } }");
                    },
                }
                proof {
                    assert(stream@ =~= old(stream)@ + spec_ret_getter_def(self@));
                }
            },
            Option::None => {},
        }
    }

    /// Appends the vtable entry, per [`spec_vtbl_def`].
    pub fn vtbl_def(&self, stream: &mut String)
        ensures
            final(stream)@ == old(stream)@ + spec_vtbl_def(self@),
    {
        proof {
            reveal_strlit("");
        }
        let (hrtb, use_cast) = self.hrtb_choice();
        stream.append(self.name.as_str());
        stream.append(": for<");
        stream.append(self.sig_generics.life_declare.as_str());
        stream.append(hrtb.as_str());
        stream.append("> extern \"C\" fn(");
        if use_cast {
            emit_arg_list(&self.args, 0, ArgListKind::CCastArgs, stream);
        } else {
            emit_arg_list(&self.args, 0, ArgListKind::CArgs, stream);
        }
        stream.append(self.out.c_ret_params.as_str());
        stream.append(") ");
        if use_cast {
            stream.append(self.out.c_cast_out.as_str());
        } else {
            stream.append(self.out.c_out.as_str());
        }
        stream.append(",");
        proof {
            assert(stream@ =~= old(stream)@ + spec_vtbl_def(self@));
        }
    }

    /// The universally-quantified lifetime of the vtable entry, per
    /// [`spec_hrtb_choice`].
    pub fn hrtb_choice(&self) -> (r: (String, bool))
        ensures
            r.0@ == spec_hrtb_choice(self@).0,
            r.1 == spec_hrtb_choice(self@).1,
    {
        proof {
            reveal_strlit("");
        }
        let lt_non_a = (match &self.out.lifetime {
            Option::Some(l) => !str_is(&l.name, "cglue_a"),
            Option::None => false,
        });
        if self.out.lifetime_cast.is_some() && !self.out.unbounded_hrtb {
            let mut h = String::new();
            h.append("'");
            match &self.out.lifetime_cast {
                Option::Some(l) => {
                    h.append(l.name.as_str());
                },
                Option::None => {},
            }
            proof {
                assert(h@ =~= spec_hrtb_choice(self@).0);
            }
            (h, true)
        } else if self.out.lifetime.is_some() && lt_non_a {
            let mut h = String::new();
            h.append("'");
            match &self.out.lifetime {
                Option::Some(l) => {
                    h.append(l.name.as_str());
                },
                Option::None => {},
            }
            proof {
                assert(h@ =~= spec_hrtb_choice(self@).0);
            }
            (h, false)
        } else {
            (crate::strutil::empty_string(), false)
        }
    }

    /// Appends the vtable-entry getter, per [`spec_vtbl_getter_def`].
    #[verifier::rlimit(100)]
    pub fn vtbl_getter_def(&self, stream: &mut String)
        ensures
            final(stream)@ == old(stream)@ + spec_vtbl_getter_def(self@),
    {
        proof {
            reveal_strlit("");
        }
        let (hrtb, use_cast) = self.hrtb_choice();
        let args = (if use_cast {
            self.vtbl_args_cast()
        } else {
            self.vtbl_args()
        });
        let out_sel = (if use_cast {
            self.out.c_cast_out.clone()
        } else {
            self.out.c_out.clone()
        });
        stream.append("#[doc = \" Getter for ");
        stream.append(self.name.as_str());
        stream.append(".\"] pub fn ");
        stream.append(self.name.as_str());
        stream.append("(&self) -> for<");
        stream.append(self.sig_generics.life_declare.as_str());
        stream.append(hrtb.as_str());
        stream.append("> unsafe extern \"C\" fn(");
        stream.append(args.as_str());
        stream.append(self.out.c_ret_params.as_str());
        stream.append(") ");
        stream.append(out_sel.as_str());
        stream.append(" { unsafe { ::core::mem::transmute(self.");
        stream.append(self.name.as_str());
        stream.append(") } }");
        proof {
            assert(stream@ =~= old(stream)@ + spec_vtbl_getter_main(self@));
        }
        let ghost mid = stream@;
        if self.out.lifetime_cast.is_some() && self.out.unbounded_hrtb {
            let safety = self.get_safety();
            let cast_args = self.vtbl_args_cast();
            let mut tail = String::new();
            tail.append(" unsafe fn ");
            tail.append(self.name.as_str());
            tail.append("_lifetimed(&self) -> for<'");
            match &self.out.lifetime_cast {
                Option::Some(l) => {
                    tail.append(l.name.as_str());
                },
                Option::None => {},
            }
            tail.append("> ");
            tail.append(safety.as_str());
            tail.append(" extern \"C\" fn(");
            tail.append(cast_args.as_str());
            tail.append(self.out.c_ret_params.as_str());
            tail.append(") ");
            tail.append(self.out.c_cast_out.as_str());
            tail.append(" { ::core::mem::transmute(self.");
            tail.append(self.name.as_str());
            tail.append(") }");
            proof {
                assert(tail@ =~= spec_vtbl_getter_tail(self@));
            }
            stream.append(tail.as_str());
        }
        proof {
            assert(stream@ =~= mid + spec_vtbl_getter_tail(self@));
            assert(stream@ =~= old(stream)@ + spec_vtbl_getter_def(self@));
        }
    }

    /// Appends the default vtable initializer, per
    /// [`spec_vtbl_default_def`].
    pub fn vtbl_default_def(&self, stream: &mut String)
        ensures
            final(stream)@ == old(stream)@ + spec_vtbl_default_def(self@),
    {
        proof {
            reveal_strlit("");
        }
        stream.append(self.name.as_str());
        stream.append(": ");
        if self.is_wrapped() {
            stream.append("cglue_wrapped_");
            stream.append(self.name.as_str());
            if self.out.needs_ctx {
                stream.append("::<CGlueT, CGlueC, CGlueD, CGlueF, ");
                stream.append(self.generics.gen_use.as_str());
                stream.append(">");
            }
        } else {
            stream.append("CGlueF::");
            stream.append(self.name.as_str());
        }
        stream.append(",");
        proof {
            assert(stream@ =~= old(stream)@ + spec_vtbl_default_def(self@));
        }
    }
}

} // verus!

verus! {

// ---------------------------------------------------------------------------
// The boundary wrapper function and the forwarding implementations.
// ---------------------------------------------------------------------------

/// The wrapper function's trait lifetime arguments.
pub open spec fn spec_tmp_lifetime(f: ParsedFuncV) -> Seq<char> {
    if f.out.use_hrtb && f.generics.life_use.len() > 0 {
        "'cglue_b, "@
    } else {
        f.generics.life_use
    }
}

/// The wrapper function's declared lifetimes: the resolved boundary
/// lifetime is injected when the trait declares none.
pub open spec fn spec_cfunc_life_declare(f: ParsedFuncV) -> Seq<char> {
    if f.out.lifetime is Some && f.generics.life_declare.len() == 0 {
        "'"@ + f.out.lifetime->0 + ", "@
    } else {
        f.generics.life_declare
    }
}

/// The wrapper's receiver destructuring and the receiver expression the
/// trait call goes through.
pub open spec fn spec_cfunc_pre_call(f: ParsedFuncV, trg_path: Seq<char>) -> (
    Seq<char>,
    Seq<char>,
) {
    if !f.receiver.reference {
        if f.out.needs_ctx {
            (
                "let (thisobj, cglue_ctx) = unsafe { thisobj.split_ctx_owned() }; "@
                    + crate::ret::opt_or_empty(f.out.c_pre_call),
                "thisobj"@,
            )
        } else {
            (
                "let thisobj = unsafe { thisobj.into_inner() }; "@ + crate::ret::opt_or_empty(
                    f.out.c_pre_call,
                ),
                "thisobj"@,
            )
        }
    } else {
        (crate::ret::opt_or_empty(f.out.c_pre_call), "thisptr"@)
    }
}

/// The container bound of the wrapper function.
pub open spec fn spec_cfunc_container_bound(f: ParsedFuncV, trg_path: Seq<char>) -> Seq<char> {
    let cb = (if !f.receiver.reference {
        trg_path + "::IntoInner<InnerTarget = CGlueF> + "@
    } else {
        ""@
    }) + (if f.out.needs_ctx {
        trg_path + "::ContextRef<Context = CGlueC, ObjType = CGlueF> + "@ + (
        if f.receiver.reference {
            "::core::ops::Deref<Target = CGlueF>+"@ + (if f.receiver.mutability {
                "::core::ops::DerefMut+"@ + trg_path + "::ContextMut + "@
            } else {
                ""@
            })
        } else {
            trg_path + "::ContextMut + "@ + trg_path + "::ContextOwned + "@
        })
    } else {
        ""@
    });
    if cb.len() > 0 {
        "CGlueT: "@ + cb + ","@
    } else if f.out.return_self {
        "CGlueT,"@
    } else {
        ""@
    }
}

/// The context type parameters of the wrapper function.
pub open spec fn spec_cfunc_cglue_c(f: ParsedFuncV, trg_path: Seq<char>) -> Seq<char> {
    if f.out.needs_ctx {
        "CGlueC: 'static + Clone + "@ + trg_path + "::Opaquable, CGlueD: 'static + Clone + "@
            + trg_path + "::Opaquable, "@
    } else {
        ""@
    }
}

/// The where bounds the wrapper carries: the recast variant when the
/// recast lifetime is in use and unbounded.
pub open spec fn spec_cfunc_where_bounds(f: ParsedFuncV) -> Seq<char> {
    if f.out.lifetime_cast is Some && f.out.unbounded_hrtb {
        f.out.c_where_bounds_cast
    } else {
        f.out.c_where_bounds
    }
}

/// The safety prefix of the wrapper (with its trailing space).
pub open spec fn spec_safety_prefix(f: ParsedFuncV) -> Seq<char> {
    if f.safe {
        ""@
    } else {
        "unsafe "@
    }
}

/// The generated boundary wrapper function: destructure the receiver,
/// optionally clone the shared context, invoke the native method, apply
/// the return conversion.  Empty when no wrapper is required.
pub open spec fn spec_cfunc_header(f: ParsedFuncV, trg_path: Seq<char>) -> Seq<char> {
    spec_safety_prefix(f) + "extern \"C\" fn "@ + spec_fn_prefix() + f.name + "<"@
        + f.sig_generics.life_declare + spec_cfunc_life_declare(f) + spec_cfunc_container_bound(
        f,
        trg_path,
    ) + spec_cfunc_cglue_c(f, trg_path) + "CGlueF: for<'cglue_b> "@ + f.trait_name + "<"@
        + spec_tmp_lifetime(f) + f.generics.gen_use + ">, "@ + f.generics.gen_declare + ">("@
}

pub open spec fn spec_cfunc_tail(f: ParsedFuncV, trg_path: Seq<char>) -> Seq<char> {
    let pre = spec_cfunc_pre_call(f, trg_path);
    spec_vtbl_args(f) + f.out.c_ret_params + ") "@ + f.out.c_out + " where "@
        + f.generics.gen_where_bounds + spec_cfunc_where_bounds(f) + " { "@ + pre.0
        + "let ret = "@ + pre.1 + "."@ + f.name + "("@ + spec_arg_list(
        f.args,
        0,
        ArgListKind::ToTrait,
    ) + "); "@ + f.out.c_ret + " }"@
}

pub open spec fn spec_cfunc_def(f: ParsedFuncV, trg_path: Seq<char>) -> Seq<char> {
    if !spec_is_wrapped(f) {
        ""@
    } else {
        spec_cfunc_header(f, trg_path) + spec_cfunc_tail(f, trg_path)
    }
}

/// The forwarding trait implementation: reconstruct the native arguments,
/// call through the vtable entry, apply the inverse return conversion.
pub open spec fn spec_trait_impl(f: ParsedFuncV) -> Seq<char> {
    let abi_sp = (match f.abi {
        FuncAbi::ReprC => "extern \"C\" "@,
        FuncAbi::Wrapped => ""@,
    });
    let get_vfunc = (if f.out.lifetime_cast is Some && f.out.unbounded_hrtb {
        "unsafe { self.get_vtbl()."@ + f.name + "_lifetimed() }"@
    } else {
        "self.get_vtbl()."@ + f.name
    });
    "#[inline(always)] "@ + spec_safety_prefix(f) + abi_sp + "fn "@ + f.name + "<"@
        + f.sig_generics.life_declare + ">("@ + spec_arg_list(f.args, 0, ArgListKind::Decl) + ") "@
        + spec_arrow_ty(f.out.ty) + " { let __cglue_vfunc = "@ + get_vfunc + "; "@ + spec_arg_list(
        f.args,
        0,
        ArgListKind::ToC,
    ) + f.out.c_ret_precall_def + "let mut ret = __cglue_vfunc("@ + spec_arg_list(
        f.args,
        0,
        ArgListKind::CallC,
    ) + f.out.c_call_ret_args + "); "@ + f.out.impl_func_ret + " }"@
}

/// The forwarding implementation on a transparent wrapper type.
pub open spec fn spec_forward_wrapped_trait_impl(f: ParsedFuncV) -> Seq<char> {
    if !f.receiver.reference {
        ""@
    } else {
        let abi_sp = (match f.abi {
            FuncAbi::ReprC => "extern \"C\" "@,
            FuncAbi::Wrapped => ""@,
        });
        "#[inline(always)] "@ + spec_safety_prefix(f) + abi_sp + "fn "@ + f.name + "<"@
            + f.sig_generics.life_declare + f.sig_generics.gen_declare + ">("@ + spec_arg_list(
            f.args,
            0,
            ArgListKind::Decl,
        ) + ") "@ + spec_arrow_ty(f.out.ty) + " { let ret = (self.0)."@ + f.name + "("@
            + spec_arg_list(f.args, 1, ArgListKind::Passthrough) + "); "@ + (if f.out.use_wrap {
            "Self(ret)"@
        } else {
            "ret"@
        }) + " }"@
    }
}

/// The head of the reference-counted forwarding implementation: its
/// attribute, safety, convention and declared signature.
pub open spec fn spec_arc_head(f: ParsedFuncV) -> Seq<char> {
    let abi_sp = (match f.abi {
        FuncAbi::ReprC => "extern \"C\" "@,
        FuncAbi::Wrapped => ""@,
    });
    "#[inline(always)] "@ + spec_safety_prefix(f) + abi_sp + "fn "@ + f.name + "<"@
        + f.sig_generics.life_declare + f.sig_generics.gen_declare + ">("@ + spec_arg_list(
        f.args,
        0,
        ArgListKind::Decl,
    ) + ") "@
}

/// The body of the reference-counted forwarding implementation.
pub open spec fn spec_arc_tail(f: ParsedFuncV) -> Seq<char> {
    let get_inner = (if !f.receiver.reference {
        "self.into_inner()"@
    } else if f.receiver.mutability {
        "self.as_mut()"@
    } else {
        "self.as_ref()"@
    });
    spec_arrow_ty(f.out.ty) + " { let (inner, arc) = "@ + get_inner + "; let ret = inner."@
        + f.name + "("@ + spec_arg_list(f.args, 1, ArgListKind::Passthrough) + "); "@ + (
    if f.out.use_wrap {
        "(ret, arc).into()"@
    } else {
        "ret"@
    }) + " }"@
}

/// The forwarding implementation on a reference-counted wrapper.
pub open spec fn spec_arc_wrapped_trait_impl(f: ParsedFuncV) -> Seq<char> {
    spec_arc_head(f) + spec_arc_tail(f)
}

/// The forwarding implementation that routes to an external function set.
pub open spec fn spec_int_trait_impl(
    f: ParsedFuncV,
    ext_path: Option<Seq<char>>,
    ext_name: Seq<char>,
) -> Seq<char> {
    let abi_sp = (match f.abi {
        FuncAbi::ReprC => "extern \"C\" "@,
        FuncAbi::Wrapped => ""@,
    });
    "#[inline(always)] "@ + spec_safety_prefix(f) + abi_sp + "fn "@ + f.name + "("@ + spec_arg_list(
        f.args,
        0,
        ArgListKind::Decl,
    ) + ") "@ + spec_arrow_ty(f.out.ty) + " { "@ + crate::ret::opt_or_empty(ext_path) + ext_name
        + "::"@ + f.name + "("@ + spec_arg_list(f.args, 0, ArgListKind::Passthrough) + ") }"@
}

impl ParsedFunc {
    /// Builds the wrapper function's signature header.
    #[verifier::rlimit(100)]
    fn cfunc_header(&self, trg_path: &String) -> (r: String)
        ensures
            r@ == spec_cfunc_header(self@, trg_path@),
    {
        proof {
            reveal_strlit("");
        }
        let safety = self.safety_prefix();
        let mut life_declare = String::new();
        if self.out.lifetime.is_some() && self.generics.life_declare.as_str().is_empty() {
            life_declare.append("'");
            match &self.out.lifetime {
                Option::Some(l) => {
                    life_declare.append(l.name.as_str());
                },
                Option::None => {},
            }
            life_declare.append(", ");
        } else {
            life_declare.append(self.generics.life_declare.as_str());
        }
        proof {
            assert(life_declare@ =~= spec_cfunc_life_declare(self@));
        }
        let mut cb = String::new();
        if !self.receiver.reference {
            cb.append(trg_path.as_str());
            cb.append("::IntoInner<InnerTarget = CGlueF> + ");
        }
        if self.out.needs_ctx {
            cb.append(trg_path.as_str());
            cb.append("::ContextRef<Context = CGlueC, ObjType = CGlueF> + ");
            if self.receiver.reference {
                cb.append("::core::ops::Deref<Target = CGlueF>+");
                if self.receiver.mutability {
                    cb.append("::core::ops::DerefMut+");
                    cb.append(trg_path.as_str());
                    cb.append("::ContextMut + ");
                }
            } else {
                cb.append(trg_path.as_str());
                cb.append("::ContextMut + ");
                cb.append(trg_path.as_str());
                cb.append("::ContextOwned + ");
            }
        }
        let mut container_bound = String::new();
        if !cb.as_str().is_empty() {
            container_bound.append("CGlueT: ");
            container_bound.append(cb.as_str());
            container_bound.append(",");
        } else if self.out.return_self {
            container_bound.append("CGlueT,");
        }
        proof {
            assert(container_bound@ =~= spec_cfunc_container_bound(self@, trg_path@));
        }
        let mut cglue_c = String::new();
        if self.out.needs_ctx {
            cglue_c.append("CGlueC: 'static + Clone + ");
            cglue_c.append(trg_path.as_str());
            cglue_c.append("::Opaquable, CGlueD: 'static + Clone + ");
            cglue_c.append(trg_path.as_str());
            cglue_c.append("::Opaquable, ");
        }
        proof {
            assert(cglue_c@ =~= spec_cfunc_cglue_c(self@, trg_path@));
        }
        let mut tmp_lifetime = String::new();
        if self.out.use_hrtb && !self.generics.life_use.as_str().is_empty() {
            tmp_lifetime.append("'cglue_b, ");
        } else {
            tmp_lifetime.append(self.generics.life_use.as_str());
        }
        proof {
            assert(tmp_lifetime@ =~= spec_tmp_lifetime(self@));
        }
        let mut r = String::new();
        r.append(safety.as_str());
        r.append("extern \"C\" fn ");
        r.append("cglue_wrapped_");
        r.append(self.name.as_str());
        r.append("<");
        r.append(self.sig_generics.life_declare.as_str());
        r.append(life_declare.as_str());
        r.append(container_bound.as_str());
        r.append(cglue_c.as_str());
        r.append("CGlueF: for<'cglue_b> ");
        r.append(self.trait_name.as_str());
        r.append("<");
        r.append(tmp_lifetime.as_str());
        r.append(self.generics.gen_use.as_str());
        r.append(">, ");
        r.append(self.generics.gen_declare.as_str());
        r.append(">(");
        proof {
            assert(r@ =~= spec_cfunc_header(self@, trg_path@));
        }
        r
    }

    /// Builds the wrapper function's parameter list and body.
    #[verifier::rlimit(100)]
    fn cfunc_tail(&self, trg_path: &String, wb: &String) -> (r: String)
        requires
            wb@ == spec_cfunc_where_bounds(self@),
        ensures
            r@ == spec_cfunc_tail(self@, trg_path@),
    {
        proof {
            reveal_strlit("");
        }
        let args = self.vtbl_args();
        let mut pre = String::new();
        if !self.receiver.reference {
            if self.out.needs_ctx {
                pre.append("let (thisobj, cglue_ctx) = unsafe { thisobj.split_ctx_owned() }; ");
            } else {
                pre.append("let thisobj = unsafe { thisobj.into_inner() }; ");
            }
        }
        match &self.out.c_pre_call {
            Option::Some(pc) => {
                pre.append(pc.as_str());
            },
            Option::None => {},
        }
        let this = (if !self.receiver.reference {
            String::from_str("thisobj")
        } else {
            String::from_str("thisptr")
        });
        proof {
            assert(pre@ =~= spec_cfunc_pre_call(self@, trg_path@).0);
            assert(this@ =~= spec_cfunc_pre_call(self@, trg_path@).1);
        }
        let call_args = self.to_trait_call_args();
        let mut r = String::new();
        r.append(args.as_str());
        r.append(self.out.c_ret_params.as_str());
        r.append(") ");
        r.append(self.out.c_out.as_str());
        r.append(" where ");
        r.append(self.generics.gen_where_bounds.as_str());
        r.append(wb.as_str());
        r.append(" { ");
        r.append(pre.as_str());
        r.append("let ret = ");
        r.append(this.as_str());
        r.append(".");
        r.append(self.name.as_str());
        r.append("(");
        r.append(call_args.as_str());
        r.append("); ");
        r.append(self.out.c_ret.as_str());
        r.append(" }");
        proof {
            assert(r@ =~= spec_cfunc_tail(self@, trg_path@));
        }
        r
    }

    /// Appends the boundary wrapper function, per [`spec_cfunc_def`];
    /// reports the where bounds it used and whether it needs the context.
    pub fn cfunc_def(&self, tokens: &mut String, trg_path: &String) -> (r: (Option<String>, bool))
        ensures
            final(tokens)@ == old(tokens)@ + spec_cfunc_def(self@, trg_path@),
            (match r.0 {
                Option::Some(wb) => spec_is_wrapped(self@) && wb@ == spec_cfunc_where_bounds(
                    self@,
                ),
                Option::None => !spec_is_wrapped(self@),
            }),
            r.1 == (spec_is_wrapped(self@) && self@.out.needs_ctx),
    {
        proof {
            reveal_strlit("");
        }
        if !self.is_wrapped() {
            return (Option::None, false);
        }
        let wb = (if self.out.lifetime_cast.is_some() && self.out.unbounded_hrtb {
            self.out.c_where_bounds_cast.clone()
        } else {
            self.out.c_where_bounds.clone()
        });
        let header = self.cfunc_header(trg_path);
        let tail = self.cfunc_tail(trg_path, &wb);
        tokens.append(header.as_str());
        tokens.append(tail.as_str());
        proof {
            assert(tokens@ =~= old(tokens)@ + spec_cfunc_def(self@, trg_path@));
        }
        (Option::Some(wb), self.out.needs_ctx)
    }

    /// Appends the forwarding trait implementation, per
    /// [`spec_trait_impl`]; reports the receiver mutability, whether the
    /// receiver is taken by value, and whether the method returns `Self`.
    #[verifier::rlimit(50)]
    pub fn trait_impl(&self, tokens: &mut String) -> (r: (bool, bool, bool))
        ensures
            final(tokens)@ == old(tokens)@ + spec_trait_impl(self@),
            r.0 == self@.receiver.mutability,
            r.1 == !self@.receiver.reference,
            r.2 == self@.out.return_self,
    {
        proof {
            reveal_strlit("");
        }
        let safety = self.safety_prefix();
        let abi_sp = self.abi_prefix();
        let decl = self.decl_args();
        let arrow = self.arrow_ty();
        let mut get_vfunc = String::new();
        if self.out.lifetime_cast.is_some() && self.out.unbounded_hrtb {
            get_vfunc.append("unsafe { self.get_vtbl().");
            get_vfunc.append(self.name.as_str());
            get_vfunc.append("_lifetimed() }");
        } else {
            get_vfunc.append("self.get_vtbl().");
            get_vfunc.append(self.name.as_str());
        }
        let to_c = self.to_c_def_args();
        let call_c = self.to_c_call_args();
        tokens.append("#[inline(always)] ");
        tokens.append(safety.as_str());
        tokens.append(abi_sp.as_str());
        tokens.append("fn ");
        tokens.append(self.name.as_str());
        tokens.append("<");
        tokens.append(self.sig_generics.life_declare.as_str());
        tokens.append(">(");
        tokens.append(decl.as_str());
        tokens.append(") ");
        tokens.append(arrow.as_str());
        tokens.append(" { let __cglue_vfunc = ");
        tokens.append(get_vfunc.as_str());
        tokens.append("; ");
        tokens.append(to_c.as_str());
        tokens.append(self.out.c_ret_precall_def.as_str());
        tokens.append("let mut ret = __cglue_vfunc(");
        tokens.append(call_c.as_str());
        tokens.append(self.out.c_call_ret_args.as_str());
        tokens.append("); ");
        tokens.append(self.out.impl_func_ret.as_str());
        tokens.append(" }");
        proof {
            assert(tokens@ =~= old(tokens)@ + spec_trait_impl(self@));
        }
        (self.receiver.mutability, !self.receiver.reference, self.out.return_self)
    }

    /// Appends the transparent-wrapper forwarding implementation, per
    /// [`spec_forward_wrapped_trait_impl`]; reports the receiver
    /// mutability, and emits nothing for a by-value receiver.
    #[verifier::rlimit(100)]
    pub fn forward_wrapped_trait_impl(&self, tokens: &mut String) -> (r: bool)
        ensures
            final(tokens)@ == old(tokens)@ + spec_forward_wrapped_trait_impl(self@),
            r == (self@.receiver.reference && self@.receiver.mutability),
    {
        proof {
            reveal_strlit("");
        }
        if !self.receiver.reference {
            return false;
        }
        let safety = self.safety_prefix();
        let abi_sp = self.abi_prefix();
        let decl = self.decl_args();
        let arrow = self.arrow_ty();
        let pass = self.passthrough_from(1);
        let ret_out = (if self.out.use_wrap {
            String::from_str("Self(ret)")
        } else {
            String::from_str("ret")
        });
        tokens.append("#[inline(always)] ");
        tokens.append(safety.as_str());
        tokens.append(abi_sp.as_str());
        tokens.append("fn ");
        tokens.append(self.name.as_str());
        tokens.append("<");
        tokens.append(self.sig_generics.life_declare.as_str());
        tokens.append(self.sig_generics.gen_declare.as_str());
        tokens.append(">(");
        tokens.append(decl.as_str());
        tokens.append(") ");
        tokens.append(arrow.as_str());
        tokens.append(" { let ret = (self.0).");
        tokens.append(self.name.as_str());
        tokens.append("(");
        tokens.append(pass.as_str());
        tokens.append("); ");
        tokens.append(ret_out.as_str());
        tokens.append(" }");
        proof {
            assert(tokens@ =~= old(tokens)@ + spec_forward_wrapped_trait_impl(self@));
        }
        self.receiver.mutability
    }

    /// Appends the reference-counted forwarding implementation, per
    /// [`spec_arc_wrapped_trait_impl`].
    #[verifier::rlimit(100)]
    pub fn arc_wrapped_trait_impl(&self, tokens: &mut String)
        ensures
            final(tokens)@ == old(tokens)@ + spec_arc_wrapped_trait_impl(self@),
    {
        proof {
            reveal_strlit("");
        }
        let safety = self.safety_prefix();
        let abi_sp = self.abi_prefix();
        let decl = self.decl_args();
        let arrow = self.arrow_ty();
        let pass = self.passthrough_from(1);
        let get_inner = (if !self.receiver.reference {
            String::from_str("self.into_inner()")
        } else if self.receiver.mutability {
            String::from_str("self.as_mut()")
        } else {
            String::from_str("self.as_ref()")
        });
        let ret_out = (if self.out.use_wrap {
            String::from_str("(ret, arc).into()")
        } else {
            String::from_str("ret")
        });
        tokens.append("#[inline(always)] ");
        tokens.append(safety.as_str());
        tokens.append(abi_sp.as_str());
        tokens.append("fn ");
        tokens.append(self.name.as_str());
        tokens.append("<");
        tokens.append(self.sig_generics.life_declare.as_str());
        tokens.append(self.sig_generics.gen_declare.as_str());
        tokens.append(">(");
        tokens.append(decl.as_str());
        tokens.append(") ");
        proof {
            assert(tokens@ =~= old(tokens)@ + spec_arc_head(self@));
        }
        let ghost mid = tokens@;
        tokens.append(arrow.as_str());
        tokens.append(" { let (inner, arc) = ");
        tokens.append(get_inner.as_str());
        tokens.append("; let ret = inner.");
        tokens.append(self.name.as_str());
        tokens.append("(");
        tokens.append(pass.as_str());
        tokens.append("); ");
        tokens.append(ret_out.as_str());
        tokens.append(" }");
        proof {
            assert(tokens@ =~= mid + spec_arc_tail(self@));
            assert(tokens@ =~= old(tokens)@ + spec_arc_wrapped_trait_impl(self@));
        }
    }

    /// Appends the external-function forwarding implementation, per
    /// [`spec_int_trait_impl`].
    #[verifier::rlimit(100)]
    pub fn int_trait_impl(
        &self,
        ext_path: Option<&String>,
        ext_name: &String,
        tokens: &mut String,
    )
        ensures
            final(tokens)@ == old(tokens)@ + spec_int_trait_impl(
                self@,
                (match ext_path {
                    Option::Some(p) => Option::Some(p@),
                    Option::None => Option::None,
                }),
                ext_name@,
            ),
    {
        proof {
            reveal_strlit("");
        }
        let safety = self.safety_prefix();
        let abi_sp = self.abi_prefix();
        let decl = self.decl_args();
        let arrow = self.arrow_ty();
        let pass = self.passthrough_from(0);
        let ep = (match ext_path {
            Option::Some(p) => p.clone(),
            Option::None => crate::strutil::empty_string(),
        });
        tokens.append("#[inline(always)] ");
        tokens.append(safety.as_str());
        tokens.append(abi_sp.as_str());
        tokens.append("fn ");
        tokens.append(self.name.as_str());
        tokens.append("(");
        tokens.append(decl.as_str());
        tokens.append(") ");
        tokens.append(arrow.as_str());
        tokens.append(" { ");
        tokens.append(ep.as_str());
        tokens.append(ext_name.as_str());
        tokens.append("::");
        tokens.append(self.name.as_str());
        tokens.append("(");
        tokens.append(pass.as_str());
        tokens.append(") }");
        proof {
            assert(tokens@ =~= old(tokens)@ + spec_int_trait_impl(
                self@,
                (match ext_path {
                    Option::Some(p) => Option::Some(p@),
                    Option::None => Option::None,
                }),
                ext_name@,
            ));
        }
    }
}

} // verus!

verus! {

impl ParsedFunc {
    /// The safety prefix of a generated item, per [`spec_safety_prefix`].
    fn safety_prefix(&self) -> (r: String)
        ensures
            r@ == spec_safety_prefix(self@),
    {
        proof {
            reveal_strlit("");
        }
        if self.safe {
            crate::strutil::empty_string()
        } else {
            String::from_str("unsafe ")
        }
    }

    /// The convention prefix of a forwarded method, with a trailing space.
    fn abi_prefix(&self) -> (r: String)
        ensures
            r@ == (match self@.abi {
                FuncAbi::ReprC => "extern \"C\" "@,
                FuncAbi::Wrapped => ""@,
            }),
    {
        proof {
            reveal_strlit("");
        }
        match self.abi {
            FuncAbi::ReprC => String::from_str("extern \"C\" "),
            FuncAbi::Wrapped => crate::strutil::empty_string(),
        }
    }

    /// The declared return clause, per [`spec_arrow_ty`].
    fn arrow_ty(&self) -> (r: String)
        ensures
            r@ == spec_arrow_ty(self@.out.ty),
    {
        proof {
            reveal_strlit("");
        }
        let mut r = String::new();
        match &self.out.ty {
            Option::Some(t) => {
                r.append("-> ");
                render_ty(t, &mut r);
            },
            Option::None => {},
        }
        proof {
            assert(r@ =~= spec_arrow_ty(self@.out.ty));
        }
        r
    }

    /// The pass-through argument names from `skip` on, as one text.
    fn passthrough_from(&self, skip: usize) -> (r: String)
        ensures
            r@ == spec_arg_list(self@.args, skip as int, ArgListKind::Passthrough),
    {
        self.trait_passthrough_args(skip)
    }

    /// The declared parameter list, as one text.
    fn decl_args(&self) -> (r: String)
        ensures
            r@ == spec_arg_list(self@.args, 0, ArgListKind::Decl),
    {
        let mut r = String::new();
        emit_arg_list(&self.args, 0, ArgListKind::Decl, &mut r);
        r
    }
}

} // verus!

verus! {

// ---------------------------------------------------------------------------
// Laws of the transform.
// ---------------------------------------------------------------------------

/// Round-trip law: for a method whose native signature is boundary-trivial
/// — already C convention, with no parameter or return changing
/// representation — no wrapper is generated, and the default vtable entry
/// binds the native method directly, with no indirection.
pub proof fn lemma_trivial_method_binds_directly(f: ParsedFuncV, trg_path: Seq<char>)
    requires
        f.abi == FuncAbi::ReprC,
        !f.has_nontrivial,
    ensures
        !spec_is_wrapped(f),
        spec_cfunc_def(f, trg_path) == ""@,
        spec_vtbl_default_def(f) == f.name + ": "@ + "CGlueF::"@ + f.name + ","@,
{
}

/// Determinism law: the whole transform is a function of the declaration
/// and the rules table alone, so re-running it on an unchanged input
/// yields the same descriptor and byte-identical generated text for every
/// artifact.
pub proof fn lemma_transform_deterministic(
    sig1: SignatureV,
    sig2: SignatureV,
    trait_name: Seq<char>,
    generics: ParsedGenericsV,
    rules: Seq<WrapRuleV>,
    result_ident: Seq<char>,
    int_result: bool,
    crate_path: Seq<char>,
    trg_path: Seq<char>,
)
    requires
        sig1 == sig2,
    ensures
        spec_parsed_func(sig1, trait_name, generics, rules, result_ident, int_result, crate_path)
            == spec_parsed_func(
            sig2,
            trait_name,
            generics,
            rules,
            result_ident,
            int_result,
            crate_path,
        ),
        (match spec_parsed_func(
            sig1,
            trait_name,
            generics,
            rules,
            result_ident,
            int_result,
            crate_path,
        ) {
            Option::Some(f) => {
                &&& spec_vtbl_def(f) == spec_vtbl_def(f)
                &&& spec_cfunc_def(f, trg_path) == spec_cfunc_def(f, trg_path)
                &&& spec_trait_impl(f) == spec_trait_impl(f)
                &&& spec_vtbl_default_def(f) == spec_vtbl_default_def(f)
                &&& spec_ret_tmp_def(f) == spec_ret_tmp_def(f)
            },
            Option::None => true,
        }),
{
}

} // verus!
