//! Core definitions for trait objects and their containers.
//!
//! The container bundles an interface implementation's instance storage,
//! shared context, and temporary return storage; a trait object pairs one
//! container with a vtable reference.  The layout invariant these types
//! protect — a fully-typed container and its opaque counterpart are
//! byte-identical — is stated over the layout model in [`crate::layout`];
//! here the types expose their contents through contracted accessors.

use vstd::prelude::*;

verus! {

/// A trait object: a vtable reference beside the container.
pub struct CGlueTraitObj<'a, T, V, C, R> {
    pub vtbl: &'a V,
    pub container: CGlueObjContainer<T, C, R>,
}

/// The container: instance storage, shared context, and temporary return
/// storage, in that order.
pub struct CGlueObjContainer<T, C, R> {
    pub instance: T,
    pub context: C,
    pub ret_tmp: R,
}

/// An object whose concrete type can be erased behind a same-layout
/// counterpart.  Implementors guarantee that the opaque target has the
/// same size and field order; the conversion itself is value-preserving
/// per implementation.
pub trait Opaquable: Sized {
    type OpaqueTarget;

    /// Erases the concrete type.
    fn into_opaque(self) -> Self::OpaqueTarget;
}

/// An object that is already its own opaque form.
pub trait Opaque: Opaquable<OpaqueTarget = Self> {

}

impl<T: Opaquable<OpaqueTarget = T>> Opaque for T {

}

impl<T: Opaquable, C, R> Opaquable for CGlueObjContainer<T, C, R> {
    type OpaqueTarget = CGlueObjContainer<T::OpaqueTarget, C, R>;

    /// Erases the instance slot, keeping context and temp storage.
    fn into_opaque(self) -> Self::OpaqueTarget {
        CGlueObjContainer {
            instance: self.instance.into_opaque(),
            context: self.context,
            ret_tmp: self.ret_tmp,
        }
    }
}

/// Access to the vtable of a trait object.
pub trait GetVtbl<V> {
    fn get_vtbl(&self) -> &V;
}

impl<'a, T, V, C, R> GetVtbl<V> for CGlueTraitObj<'a, T, V, C, R> {
    fn get_vtbl(&self) -> (r: &V)
        ensures
            r == self.vtbl,
    {
        self.vtbl
    }
}

/// Base access to a container: the object and its context.
pub trait CGlueObjBase: Sized {
    /// Type of the underlying object.
    type ObjType;
    /// Type of the instance storage housing the object.
    type InstType;
    /// Type of the context associated with the container.
    type Context;

    fn cobj_base_ref(&self) -> (&Self::ObjType, &Self::Context);

    fn cobj_base_owned(self) -> (Self::InstType, Self::Context);
}

/// Shared access to a container's object, temp storage and context.
pub trait CGlueObjRef<R>: CGlueObjBase {
    fn cobj_ref(&self) -> (&Self::ObjType, &R, &Self::Context);
}

/// Exclusive access to a container's object and temp storage.
pub trait CGlueObjMut<R>: CGlueObjRef<R> {
    fn cobj_mut(&mut self) -> (&mut Self::ObjType, &mut R, &Self::Context);
}

impl<T, C, R> CGlueObjBase for CGlueObjContainer<T, C, R> {
    type ObjType = T;

    type InstType = T;

    type Context = C;

    fn cobj_base_ref(&self) -> (r: (&T, &C))
        ensures
            r.0 == &self.instance,
            r.1 == &self.context,
    {
        (&self.instance, &self.context)
    }

    fn cobj_base_owned(self) -> (r: (T, C))
        ensures
            r.0 == self.instance,
            r.1 == self.context,
    {
        (self.instance, self.context)
    }
}

impl<T, C, R> CGlueObjRef<R> for CGlueObjContainer<T, C, R> {
    fn cobj_ref(&self) -> (r: (&T, &R, &C))
        ensures
            r.0 == &self.instance,
            r.1 == &self.ret_tmp,
            r.2 == &self.context,
    {
        (&self.instance, &self.ret_tmp, &self.context)
    }
}

impl<T, C, R> CGlueObjMut<R> for CGlueObjContainer<T, C, R> {
    fn cobj_mut(&mut self) -> (r: (&mut T, &mut R, &C))
        ensures
            *r.0 == old(self).instance,
            *r.1 == old(self).ret_tmp,
            r.2 == &old(self).context,
            final(self).instance == *final(r.0),
            final(self).ret_tmp == *final(r.1),
            final(self).context == old(self).context,
    {
        (&mut self.instance, &mut self.ret_tmp, &self.context)
    }
}

impl<T, C, R> CGlueObjContainer<T, C, R> {
    /// Builds a container from its three parts.
    pub fn from_parts(instance: T, context: C, ret_tmp: R) -> (r: CGlueObjContainer<T, C, R>)
        ensures
            r.instance == instance,
            r.context == context,
            r.ret_tmp == ret_tmp,
    {
        CGlueObjContainer { instance, context, ret_tmp }
    }
}

/// Access to the container of a trait object.
pub trait GetContainer: Sized {
    type ContType;

    fn ccont_ref(&self) -> &Self::ContType;

    fn ccont_mut(&mut self) -> &mut Self::ContType;

    fn into_ccont(self) -> Self::ContType;

    fn build_with_ccont(&self, container: Self::ContType) -> Self;
}

impl<'a, T, V, C, R> GetContainer for CGlueTraitObj<'a, T, V, C, R> {
    type ContType = CGlueObjContainer<T, C, R>;

    fn ccont_ref(&self) -> (r: &CGlueObjContainer<T, C, R>)
        ensures
            r == &self.container,
    {
        &self.container
    }

    fn ccont_mut(&mut self) -> (r: &mut CGlueObjContainer<T, C, R>)
        ensures
            *r == old(self).container,
            final(self).container == *final(r),
            final(self).vtbl == old(self).vtbl,
    {
        &mut self.container
    }

    fn into_ccont(self) -> (r: CGlueObjContainer<T, C, R>)
        ensures
            r == self.container,
    {
        self.container
    }

    fn build_with_ccont(&self, container: CGlueObjContainer<T, C, R>) -> (r: CGlueTraitObj<
        'a,
        T,
        V,
        C,
        R,
    >)
        ensures
            r.container == container,
            r.vtbl == self.vtbl,
    {
        CGlueTraitObj { container, vtbl: self.vtbl }
    }
}

impl<'a, T, V, C, R> CGlueTraitObj<'a, T, V, C, R> {
    /// Pairs a container with its vtable.
    pub fn with_vtbl(container: CGlueObjContainer<T, C, R>, vtbl: &'a V) -> (r: CGlueTraitObj<
        'a,
        T,
        V,
        C,
        R,
    >)
        ensures
            r.container == container,
            r.vtbl == vtbl,
    {
        CGlueTraitObj { vtbl, container }
    }
}

/// Conversion of a container into its inner instance.
pub trait IntoInner: Sized {
    type InnerTarget;

    /// Consumes the container and returns the inner instance.  The
    /// generated code only invokes this on the typed side of the
    /// boundary, never on an opaque container.
    fn into_inner(self) -> Self::InnerTarget;
}

impl<T, C, R> IntoInner for CGlueObjContainer<T, C, R> {
    type InnerTarget = T;

    fn into_inner(self) -> (r: T)
        ensures
            r == self.instance,
    {
        self.instance
    }
}

/// A vtable usable with a given container type.
pub trait CGlueVtbl<T>: CGlueBaseVtbl {

}

/// A vtable of boundary function pointers.
///
/// The opaque vtable must be the exact same shape with only the instance
/// types erased: the generated code guarantees it.
pub trait CGlueBaseVtbl: Sized {
    type OpaqueVtbl;
    type Context;
    type RetTmp;

    /// The same vtable, viewed with its instance types erased.
    fn as_opaque(&self) -> &Self::OpaqueVtbl;
}

} // verus!
