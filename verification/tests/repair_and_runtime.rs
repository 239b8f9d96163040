//! Tests of the header repair pass, the integer-result codec, the layout
//! model, and the callback and container runtime.

use cglue::callback::{Callback, Callbackable, FeedCallback, FromExtend};
use cglue::int_result::{
    from_int_result, from_int_result_empty, int_out_result_round_trip, int_result_round_trip,
    into_int_out_result, into_int_result, IntError,
};
use cglue::layout::{container_layout, TypeLayout};
use cglue::repair::parse_header;
use cglue::trait_group::{
    CGlueObjContainer, CGlueObjMut, CGlueObjRef, CGlueTraitObj, GetContainer, GetVtbl, IntoInner,
    Opaquable,
};

fn repair(text: &str) -> String {
    parse_header(text.chars().collect()).into_iter().collect()
}

const ZSR_BANNER: &str = "\n/**\n * Type definition for temporary return value wrapping storage.\n *\n * The trait does not use return wrapping, thus is a typedef to `PhantomData`.\n *\n * Note that `cbindgen` will generate wrong structures for this type. It is important\n * to go inside the generated headers and fix it - all RetTmp structures without a\n * body should be completely deleted, both as types, and as fields in the\n * groups/objects. If C++11 templates are generated, it is important to define a\n * custom type for CGlueTraitObj that does not have `ret_tmp` defined, and change all\n * type aliases of this trait to use that particular structure.\n */\ntemplate<typename CGlueCtx = void>\nstruct ";

/// The uninitialized-storage declaration is rewritten into an alias.
#[test]
fn repair_fixes_maybe_uninit() {
    let out = repair("template<typename T = void>\nstruct MaybeUninit;\n");
    assert_eq!(out, "template<typename T = void>\nusing MaybeUninit = T;\n");
}

/// A banner-shaped zero-sized temp-storage declaration is deleted, along
/// with its field in a group container.
#[test]
fn repair_strips_zero_sized_ret_tmp() {
    let mut header = String::from("begin");
    header.push_str(ZSR_BANNER);
    header.push_str("FooRetTmp;\nstruct G {\n    FooRetTmp<CGlueCtx> ret_tmp_foo;\n};\nend");
    let out = repair(&header);
    assert_eq!(out, "beginstruct G {\n};\nend");
}

/// A vtable declaration gains the context typedef, and a matching trait
/// object specialization is emitted.
#[test]
fn repair_vtable_and_trait_obj() {
    let header = "/**\n * CGlue vtable for trait Foo.\n *\n * This virtual function table contains ABI-safe interface for the given trait.\n */\ntemplate<typename CGlueC>\nstruct FooVtbl {\n    int (*get)(const void *self);\n};\ntemplate<typename T, typename V, typename C, typename R>\nstruct CGlueTraitObj {\n    CGlueObjContainer<T, C, R> container;\n    const V *vtbl;\n};\n";
    let out = repair(header);
    assert!(out.contains("struct FooVtbl {\n    typedef typename CGlueC::Context Context;"));
    assert!(out.contains("struct CGlueTraitObj<T, FooVtbl<CGlueObjContainer<T, C, R>>, C, R>"));
}

/// The object container gains its typedef and explicit zero-sized
/// specializations.
#[test]
fn repair_obj_container_specializations() {
    let header = "template<typename T, typename C, typename R>\nstruct CGlueObjContainer {\n    T instance;\n    C context;\n    R ret_tmp;\n};\n";
    let out = repair(header);
    assert!(out.contains("typedef C Context;"));
    assert!(out.contains("struct CGlueObjContainer<T, void, void> {\n    typedef void Context;\n    T instance;\n};"));
}

/// A group container gains its typedef and zero-sized-context
/// specialization.
#[test]
fn repair_group_container_specialization() {
    let header = "template<typename CGlueInst, typename CGlueCtx>\nstruct PluginContainer {\n    CGlueInst instance;\n    CGlueCtx context;\n};\n";
    let out = repair(header);
    assert!(out.contains("typedef CGlueCtx Context;"));
    assert!(out.contains("struct PluginContainer<CGlueInst, void> {\n    typedef void Context;\n    CGlueInst instance;\n};"));
}

/// Idempotent repair: running the pass on its own output changes nothing.
#[test]
fn repair_is_idempotent_on_scenario_output() {
    let mut header = String::from("template<typename T = void>\nstruct MaybeUninit;\n");
    header.push_str(ZSR_BANNER);
    header.push_str("FooRetTmp;\n");
    header.push_str("struct G {\n    FooRetTmp<CGlueCtx> ret_tmp_foo;\n};\n");
    header.push_str("/**\n * CGlue vtable for trait Foo.\n *\n * This virtual function table contains ABI-safe interface for the given trait.\n */\n");
    header.push_str("template<typename CGlueC>\nstruct FooVtbl {\n    int (*get)(const void *self);\n};\n");
    header.push_str("template<typename T, typename C, typename R>\nstruct CGlueObjContainer {\n    T instance;\n    C context;\n    R ret_tmp;\n};\n");
    header.push_str("template<typename CGlueInst, typename CGlueCtx>\nstruct PluginContainer {\n    CGlueInst instance;\n    CGlueCtx context;\n};\n");
    header.push_str("template<typename T, typename V, typename C, typename R>\nstruct CGlueTraitObj {\n    CGlueObjContainer<T, C, R> container;\n    const V *vtbl;\n};\n");
    let once = repair(&header);
    let twice = repair(&once);
    assert_eq!(once, twice);
}

/// Success encodes to the reserved status zero and decodes back to unit.
#[test]
fn int_result_success_reserved_value() {
    assert_eq!(into_int_result(Ok(())), 0);
    assert_eq!(from_int_result_empty(0), Ok(()));
}

/// Every error code is distinct from the reserved value and round-trips.
#[test]
fn int_result_error_round_trip() {
    let e = IntError { code: -7 };
    let code = into_int_result(Err(e));
    assert_ne!(code, 0);
    assert_eq!(from_int_result_empty(code), Err(e));
    assert_eq!(int_result_round_trip(Err(e)), Err(e));
    assert_eq!(int_result_round_trip(Ok(())), Ok(()));
}

/// The valued encoding writes the out-slot only on success and
/// round-trips both cases bit-identically.
#[test]
fn int_out_result_round_trips() {
    let (code, slot) = into_int_out_result::<u64>(Ok(99));
    assert_eq!(code, 0);
    assert_eq!(slot, Some(99));
    assert_eq!(from_int_result(code, slot), Ok(99));

    let e = IntError { code: 3 };
    let (code, slot) = into_int_out_result::<u64>(Err(e));
    assert_eq!(code, 3);
    assert_eq!(slot, None);
    assert_eq!(int_out_result_round_trip::<u64>(Err(e)), Err(e));
    assert_eq!(int_out_result_round_trip::<u64>(Ok(5)), Ok(5));
}

/// The container layout is invariant under erasing the instance type to a
/// same-size, same-alignment opaque handle.
#[test]
fn layout_invariant_under_opaque_substitution() {
    let typed = TypeLayout { size: 24, align: 8 };
    let opaque = TypeLayout { size: 24, align: 8 };
    let ctx = TypeLayout { size: 4, align: 4 };
    let ret = TypeLayout { size: 0, align: 1 };
    assert_eq!(
        container_layout(&typed, &ctx, &ret),
        container_layout(&opaque, &ctx, &ret)
    );
}

/// A concrete layout computation, zero-sized parts included.
#[test]
fn layout_concrete_values() {
    let t = TypeLayout { size: 8, align: 8 };
    let c = TypeLayout { size: 4, align: 4 };
    let r = TypeLayout { size: 0, align: 1 };
    assert_eq!(container_layout(&t, &c, &r), (16, 8));
    let zc = TypeLayout { size: 0, align: 1 };
    assert_eq!(container_layout(&t, &zc, &r), (8, 8));
}

/// Feeding a vector through a callback delivers every item in order.
#[test]
fn callback_feeds_all_items() {
    let sink: Vec<u64> = Vec::new();
    let mut cb = Callback::new(sink).into_opaque();
    let cnt = vec![1u64, 2, 3].feed_into_mut(&mut cb);
    assert_eq!(cnt, 3);
    assert_eq!(cb.cb.context, vec![1, 2, 3]);
}

/// A consumer built from an extendable collection accepts deliveries.
#[test]
fn callback_from_extend() {
    let mut cb = vec![10u32].from_extend();
    assert!(cb.call(11));
    assert_eq!(cb.cb.context, vec![10, 11]);
}

/// A vector consumes one value per call and always continues.
#[test]
fn vec_callbackable_accepts() {
    let mut v: Vec<u8> = vec![1];
    assert!(Callbackable::call(&mut v, 2));
    assert_eq!(v, vec![1, 2]);
}

/// The container exposes its parts through the contracted accessors, and
/// the trait object keeps its vtable through a container rebuild.
#[test]
fn container_and_trait_obj_accessors() {
    let mut c = CGlueObjContainer::from_parts(41u64, "ctx", 0u8);
    {
        let (inst, tmp, ctx) = c.cobj_mut();
        *inst += 1;
        *tmp = 9;
        assert_eq!(*ctx, "ctx");
    }
    let (inst, tmp, ctx) = c.cobj_ref();
    assert_eq!((*inst, *tmp, *ctx), (42, 9, "ctx"));

    let vtbl: u32 = 7;
    let obj = CGlueTraitObj::with_vtbl(c, &vtbl);
    assert_eq!(*obj.get_vtbl(), 7);
    let rebuilt = obj.build_with_ccont(CGlueObjContainer::from_parts(1u64, "ctx", 1u8));
    assert_eq!(*rebuilt.get_vtbl(), 7);
    assert_eq!(rebuilt.into_ccont().into_inner(), 1);
}

struct Handle(u64);

impl Opaquable for Handle {
    type OpaqueTarget = u64;

    fn into_opaque(self) -> u64 {
        self.0
    }
}

/// Erasing a container's instance keeps the other parts.
#[test]
fn container_opaque_erasure() {
    let c = CGlueObjContainer::from_parts(Handle(5), 1u8, 2u8);
    let o = c.into_opaque();
    assert_eq!((o.instance, o.context, o.ret_tmp), (5, 1, 2));
}
