//! Scenario tests of the transform engine.

use cglue::arg::{FnArg, Receiver};
use cglue::func::{FuncAbi, ParsedFunc, Signature};
use cglue::generics::ParsedGenerics;
use cglue::group::{GroupDescriptor, GroupError, InterfaceDecl};
use cglue::rules::{WrapRules, WrappedType};
use cglue::ty::{GenArg, PathSegment, Ty};

fn ident_ty(name: &str) -> Ty {
    Ty::Path {
        leading_colon: false,
        segments: vec![PathSegment { ident: name.to_string(), args: vec![] }],
    }
}

fn generic_ty(name: &str, args: Vec<Ty>) -> Ty {
    Ty::Path {
        leading_colon: false,
        segments: vec![PathSegment {
            ident: name.to_string(),
            args: args.into_iter().map(GenArg::Ty).collect(),
        }],
    }
}

fn empty_generics() -> ParsedGenerics {
    ParsedGenerics::empty()
}

fn ref_receiver(mutable: bool) -> FnArg {
    FnArg::Receiver(Receiver { reference: true, mutability: mutable, lifetime: None })
}

fn build_func(sig: Signature) -> ParsedFunc {
    let rules = WrapRules::new();
    ParsedFunc::new(
        sig,
        "TestTrait".to_string(),
        &empty_generics(),
        &rules,
        None,
        false,
        &"cglue".to_string(),
    )
    .expect("method with receiver")
}

/// Scenario A: a boundary-trivial method binds the vtable entry directly
/// to the native method; no wrapper, no temp storage.
#[test]
fn scenario_a_trivial_direct_alias() {
    let sig = Signature {
        ident: "get_value".to_string(),
        safe: true,
        abi: Some("C".to_string()),
        inputs: vec![ref_receiver(false)],
        output: Some(ident_ty("i32")),
        generics: ParsedGenerics::empty(),
    };
    let f = build_func(sig);
    assert_eq!(f.abi, FuncAbi::ReprC);
    assert!(!f.is_wrapped());

    let mut wrapper = String::new();
    let (bounds, needs_ctx) = f.cfunc_def(&mut wrapper, &"cglue".to_string());
    assert!(wrapper.is_empty());
    assert!(bounds.is_none());
    assert!(!needs_ctx);

    let mut dflt = String::new();
    f.vtbl_default_def(&mut dflt);
    assert_eq!(dflt, "get_value: CGlueF::get_value,");

    let mut tmp = String::new();
    f.ret_tmp_def(&mut tmp);
    assert!(tmp.is_empty());
}

/// Scenario B: a string-slice parameter crosses the boundary as a
/// (pointer, length) pair, and the wrapper reconstructs the slice.
#[test]
fn scenario_b_str_param_becomes_slice_pair() {
    let name_param = FnArg::Typed {
        name: "name".to_string(),
        ty: Ty::Reference {
            mutable: false,
            lifetime: None,
            elem: Box::new(ident_ty("str")),
        },
    };
    let val_param = FnArg::Typed { name: "val".to_string(), ty: ident_ty("usize") };
    let sig = Signature {
        ident: "write".to_string(),
        safe: true,
        abi: None,
        inputs: vec![ref_receiver(true), name_param, val_param],
        output: None,
        generics: ParsedGenerics::empty(),
    };
    let f = build_func(sig);
    assert!(f.is_wrapped());
    assert_eq!(
        f.vtbl_args(),
        "thisptr: &mut CGlueF,name: cglue::slice::CSliceRef<u8>,val: usize,"
    );
    assert_eq!(f.to_trait_call_args(), "name.into(),val,");

    let mut wrapper = String::new();
    let (bounds, _) = f.cfunc_def(&mut wrapper, &"cglue".to_string());
    assert!(bounds.is_some());
    assert!(wrapper.contains("fn cglue_wrapped_write"));
    assert!(wrapper.contains("name: cglue::slice::CSliceRef<u8>,"));
    assert!(wrapper.contains("let ret = thisptr.write(name.into(),val,);"));
}

/// Scenario C: a group of two interfaces where only the first reserves a
/// temp-storage slot composes a container holding exactly that slot.
#[test]
fn scenario_c_group_fields_are_union_of_members() {
    let decls = vec![
        InterfaceDecl {
            name: "A".to_string(),
            ret_tmp_fields: "get_ref: ::core::mem::MaybeUninit<u64>,".to_string(),
        },
        InterfaceDecl { name: "B".to_string(), ret_tmp_fields: String::new() },
    ];
    let group = GroupDescriptor {
        name: "FeatureSet".to_string(),
        members: vec!["A".to_string(), "B".to_string()],
    };
    let text = group.compose(&decls).expect("valid group");
    assert_eq!(
        text,
        "#[repr(C)] pub struct FeatureSetContainer<CGlueInst, CGlueCtx> { instance: CGlueInst, \
         context: CGlueCtx, get_ref: ::core::mem::MaybeUninit<u64>,}"
    );
}

/// A group naming an interface that was never declared is rejected.
#[test]
fn group_undeclared_member_is_rejected() {
    let decls = vec![InterfaceDecl { name: "A".to_string(), ret_tmp_fields: String::new() }];
    let group = GroupDescriptor {
        name: "G".to_string(),
        members: vec!["A".to_string(), "Missing".to_string()],
    };
    match group.compose(&decls) {
        Err(GroupError::Undeclared(m)) => assert_eq!(m, "Missing"),
        _ => panic!("expected an undeclared-member error"),
    }
}

/// A group naming the same interface twice is rejected.
#[test]
fn group_duplicate_member_is_rejected() {
    let decls = vec![InterfaceDecl { name: "A".to_string(), ret_tmp_fields: String::new() }];
    let group = GroupDescriptor {
        name: "G".to_string(),
        members: vec!["A".to_string(), "A".to_string()],
    };
    match group.compose(&decls) {
        Err(GroupError::Duplicate(m)) => assert_eq!(m, "A"),
        _ => panic!("expected a duplicate-member error"),
    }
}

/// Scenario D: a `Result<T, E>` return in default mode crosses the
/// boundary as a tagged two-case union, with conversions on both sides.
#[test]
fn scenario_d_result_default_mode_tagged_union() {
    let ret = generic_ty("Result", vec![ident_ty("u64"), ident_ty("MyErr")]);
    let sig = Signature {
        ident: "fetch".to_string(),
        safe: true,
        abi: None,
        inputs: vec![ref_receiver(false)],
        output: Some(ret),
        generics: ParsedGenerics::empty(),
    };
    let f = build_func(sig);
    assert_eq!(f.out.c_out, "-> cglue::result::CResult<u64, MyErr>");
    assert_eq!(f.out.c_ret, "let ret = ret.map(|ret| { ret }); ret.into()");
    assert_eq!(f.out.impl_func_ret, "ret.into()");
}

/// A `Result<(), E>` in integer-result mode becomes a bare status code
/// with no out-parameter.
#[test]
fn result_unit_int_mode_status_only() {
    let ret = generic_ty("Result", vec![Ty::Tuple(vec![]), ident_ty("MyErr")]);
    let sig = Signature {
        ident: "commit".to_string(),
        safe: true,
        abi: None,
        inputs: vec![ref_receiver(true)],
        output: Some(ret),
        generics: ParsedGenerics::empty(),
    };
    let rules = WrapRules::new();
    let f = ParsedFunc::new(
        sig,
        "TestTrait".to_string(),
        &ParsedGenerics::empty(),
        &rules,
        None,
        true,
        &"cglue".to_string(),
    )
    .unwrap();
    assert_eq!(f.out.c_out, "-> i32");
    assert_eq!(f.out.c_ret_params, "");
    assert_eq!(
        f.out.c_ret,
        "let ret = ret.map(|ret| { ret }); cglue::result::into_int_result(ret)"
    );
    assert_eq!(f.out.impl_func_ret, "cglue::result::from_int_result_empty(ret)");
}

/// A valued `Result<T, E>` in integer-result mode adds the out-parameter.
#[test]
fn result_valued_int_mode_out_param() {
    let ret = generic_ty("Result", vec![ident_ty("u64"), ident_ty("MyErr")]);
    let sig = Signature {
        ident: "read".to_string(),
        safe: true,
        abi: None,
        inputs: vec![ref_receiver(false)],
        output: Some(ret),
        generics: ParsedGenerics::empty(),
    };
    let rules = WrapRules::new();
    let f = ParsedFunc::new(
        sig,
        "TestTrait".to_string(),
        &ParsedGenerics::empty(),
        &rules,
        None,
        true,
        &"cglue".to_string(),
    )
    .unwrap();
    assert_eq!(f.out.c_out, "-> i32");
    assert_eq!(f.out.c_ret_params, "ok_out: &mut ::core::mem::MaybeUninit<u64>,");
    assert_eq!(f.out.c_call_ret_args, "&mut ok_out,");
    assert_eq!(
        f.out.impl_func_ret,
        "unsafe { cglue::result::from_int_result(ret, ok_out) }"
    );
}

/// An `Option` parameter without the null-pointer optimization becomes a
/// tagged optional; an optimizable one passes through unchanged.
#[test]
fn option_param_flattening_follows_optimizability() {
    let plain_opt = FnArg::Typed {
        name: "a".to_string(),
        ty: generic_ty("Option", vec![ident_ty("u64")]),
    };
    let ref_opt = FnArg::Typed {
        name: "b".to_string(),
        ty: generic_ty(
            "Option",
            vec![Ty::Reference {
                mutable: false,
                lifetime: None,
                elem: Box::new(ident_ty("u64")),
            }],
        ),
    };
    let sig = Signature {
        ident: "put".to_string(),
        safe: true,
        abi: None,
        inputs: vec![ref_receiver(true), plain_opt, ref_opt],
        output: None,
        generics: ParsedGenerics::empty(),
    };
    let f = build_func(sig);
    assert_eq!(
        f.vtbl_args(),
        "thisptr: &mut CGlueF,a: cglue::option::COption<u64>,b: Option<&u64>,"
    );
}

/// Determinism: running the transform twice on the same declaration gives
/// byte-identical generated text.
#[test]
fn transform_is_deterministic() {
    let make = || {
        let sig = Signature {
            ident: "write".to_string(),
            safe: true,
            abi: None,
            inputs: vec![
                ref_receiver(true),
                FnArg::Typed {
                    name: "name".to_string(),
                    ty: Ty::Reference {
                        mutable: false,
                        lifetime: None,
                        elem: Box::new(ident_ty("str")),
                    },
                },
            ],
            output: None,
            generics: ParsedGenerics::empty(),
        };
        let f = build_func(sig);
        let mut text = String::new();
        f.cfunc_def(&mut text, &"cglue".to_string());
        let mut vt = String::new();
        f.vtbl_def(&mut vt);
        let mut ti = String::new();
        f.trait_impl(&mut ti);
        (text, vt, ti)
    };
    assert_eq!(make(), make());
}

/// Associated-type substitution: a rule for `Target` rewrites a
/// `Self::Target` return to the boundary substitute type.
#[test]
fn associated_type_substitution_in_return() {
    let mut rules = WrapRules::new();
    rules.push(
        "Target".to_string(),
        WrappedType {
            ty: ident_ty("BoundaryTarget"),
            ty_static: None,
            lifetime_bound: None,
            lifetime_type_bound: None,
            other_bounds: None,
            other_bounds_simple: None,
            return_conv: None,
            impl_return_conv: None,
            inject_ret_tmp: false,
            unbounded_hrtb: false,
            needs_ctx: false,
        },
    );
    let self_target = Ty::Path {
        leading_colon: false,
        segments: vec![
            PathSegment { ident: "Self".to_string(), args: vec![] },
            PathSegment { ident: "Target".to_string(), args: vec![] },
        ],
    };
    let sig = Signature {
        ident: "target".to_string(),
        safe: true,
        abi: None,
        inputs: vec![ref_receiver(false)],
        output: Some(self_target),
        generics: ParsedGenerics::empty(),
    };
    let f = ParsedFunc::new(
        sig,
        "TestTrait".to_string(),
        &ParsedGenerics::empty(),
        &rules,
        None,
        false,
        &"cglue".to_string(),
    )
    .unwrap();
    assert_eq!(f.out.c_out, "-> BoundaryTarget");
    assert_eq!(f.out.c_ret, "ret.into()");
    assert!(f.out.use_hrtb);
    assert_eq!(
        f.out.lifetime.as_ref().map(|l| l.name.as_str()),
        Some("cglue_a")
    );
    assert!(f.out.lifetime_cast.is_some());
}

/// A method without a receiver cannot be bound into a vtable.
#[test]
fn method_without_receiver_is_rejected() {
    let sig = Signature {
        ident: "free_fn".to_string(),
        safe: true,
        abi: None,
        inputs: vec![FnArg::Typed { name: "x".to_string(), ty: ident_ty("u64") }],
        output: None,
        generics: ParsedGenerics::empty(),
    };
    let rules = WrapRules::new();
    let r = ParsedFunc::new(
        sig,
        "TestTrait".to_string(),
        &ParsedGenerics::empty(),
        &rules,
        None,
        false,
        &"cglue".to_string(),
    );
    assert!(r.is_none());
}

fn tmp_rule(ty_name: &str) -> WrappedType {
    WrappedType {
        ty: ident_ty(ty_name),
        ty_static: None,
        lifetime_bound: None,
        lifetime_type_bound: None,
        other_bounds: None,
        other_bounds_simple: None,
        return_conv: None,
        impl_return_conv: None,
        inject_ret_tmp: true,
        unbounded_hrtb: false,
        needs_ctx: false,
    }
}

fn ref_to(ty: Ty) -> Ty {
    Ty::Reference { mutable: false, lifetime: None, elem: Box::new(ty) }
}

fn self_assoc(name: &str) -> Ty {
    Ty::Path {
        leading_colon: false,
        segments: vec![
            PathSegment { ident: "Self".to_string(), args: vec![] },
            PathSegment { ident: name.to_string(), args: vec![] },
        ],
    }
}

fn tmp_slot_func(mutable_receiver: bool) -> ParsedFunc {
    let mut rules = WrapRules::new();
    rules.push("Slot".to_string(), tmp_rule("BoundarySlot"));
    let sig = Signature {
        ident: "get_slot".to_string(),
        safe: true,
        abi: None,
        inputs: vec![ref_receiver(mutable_receiver)],
        output: Some(ref_to(self_assoc("Slot"))),
        generics: ParsedGenerics::empty(),
    };
    ParsedFunc::new(
        sig,
        "TestTrait".to_string(),
        &ParsedGenerics::empty(),
        &rules,
        None,
        false,
        &"cglue".to_string(),
    )
    .unwrap()
}

/// A wrapped reference return reserves a temp-storage slot keyed by the
/// method name: a plain uninitialized slot for a mutable receiver.
#[test]
fn temp_slot_mutable_receiver_plain() {
    let f = tmp_slot_func(true);
    let mut tmp = String::new();
    f.ret_tmp_def(&mut tmp);
    assert_eq!(tmp, "get_slot: ::core::mem::MaybeUninit<BoundarySlot>,");
    let mut init = String::new();
    f.ret_default_def(&mut init);
    assert_eq!(init, "get_slot: ::core::mem::MaybeUninit::uninit(),");
}

/// An immutable receiver gets its slot wrapped in a single-writer
/// aliasing cell, because the accessor mutates through a shared borrow.
#[test]
fn temp_slot_immutable_receiver_cell() {
    let f = tmp_slot_func(false);
    let mut tmp = String::new();
    f.ret_tmp_def(&mut tmp);
    assert_eq!(
        tmp,
        "get_slot: ::core::cell::Cell<::core::mem::MaybeUninit<BoundarySlot>>,"
    );
    let mut init = String::new();
    f.ret_default_def(&mut init);
    assert_eq!(
        init,
        "get_slot: ::core::cell::Cell::new(::core::mem::MaybeUninit::uninit()),"
    );
    let mut getter = String::new();
    f.ret_getter_def(&mut getter);
    assert!(getter.contains("#[allow(clippy::mut_from_ref)]"));
}

/// The fallback unification lifetime produces the recast entry beside the
/// plain one in the vtable getter.
#[test]
fn recast_lifetime_getter_variants() {
    let f = tmp_slot_func(true);
    assert_eq!(f.out.lifetime.as_ref().map(|l| l.name.as_str()), Some("cglue_a"));
    assert_eq!(
        f.out.lifetime_cast.as_ref().map(|l| l.name.as_str()),
        Some("cglue_b")
    );
    let mut getter = String::new();
    f.vtbl_getter_def(&mut getter);
    assert!(getter.contains("pub fn get_slot(&self)"));
    assert!(getter.contains("unsafe fn get_slot_lifetimed(&self) -> for<'cglue_b>"));
    let mut vt = String::new();
    f.vtbl_def(&mut vt);
    assert_eq!(
        vt,
        "get_slot: for<> extern \"C\" fn(thisptr: &'cglue_a mut CGlueF,ret_tmp: &mut \
         ::core::mem::MaybeUninit<BoundarySlot>,) -> &'cglue_a BoundarySlot,"
    );
}
