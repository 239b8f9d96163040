//! Boundary-compatible callbacks.
//!
//! A callback is a consumer of values: it is handed items one by one and
//! answers with a boolean continue signal.  Across the foreign boundary it
//! travels as a two-argument function pointer bundled with an opaque
//! context; a bare function pointer is a boundary device the verifier does
//! not model, so here the pair is folded into one value whose behaviour the
//! [`Callbackable`] implementation supplies and whose per-call effect is
//! pinned by that implementation's own `call_post` relation.

use vstd::prelude::*;

verus! {

/// A consumer of values of type `T`.
///
/// Implementors state in `call_post` how one delivery changes them; every
/// `call` is held to that statement.
pub trait Callbackable<T>: Sized {
    /// How one delivery relates the consumer's state before and after,
    /// the delivered value, and the continue signal.
    spec fn call_post(pre: Self, post: Self, data: T, cont: bool) -> bool;

    /// Delivers one value.
    fn call(&mut self, data: T) -> (cont: bool)
        ensures
            Self::call_post(*old(self), *final(self), data, cont),
    ;
}

/// A vector consumes every delivered value and always continues.
impl<T> Callbackable<T> for Vec<T> {
    open spec fn call_post(pre: Vec<T>, post: Vec<T>, data: T, cont: bool) -> bool {
        post@ == pre@.push(data) && cont
    }

    fn call(&mut self, data: T) -> (cont: bool)
        ensures
            Self::call_post(*old(self), *final(self), data, cont),
    {
        self.push(data);
        true
    }
}

/// A callback: a consumer carried across the boundary.  The boundary form
/// splits it into an opaque context pointer and a function pointer; the
/// verified model keeps the consumer whole.
pub struct Callback<C, T> {
    pub context: C,
    pub marker: core::marker::PhantomData<T>,
}

/// A callback whose context has been made opaque.  Type erasure is a
/// boundary device with no verified counterpart, so the opaque form keeps
/// the context type and only seals it behind this wrapper.
pub struct OpaqueCallback<C, T> {
    pub cb: Callback<C, T>,
}

impl<C: Callbackable<T>, T> Callback<C, T> {
    /// Bundles a consumer into a callback.
    pub fn new(context: C) -> (r: Callback<C, T>)
        ensures
            r.context == context,
    {
        Callback { context, marker: core::marker::PhantomData }
    }

    /// Delivers one value to the consumer.
    pub fn call(&mut self, arg: T) -> (cont: bool)
        ensures
            C::call_post(old(self).context, final(self).context, arg, cont),
    {
        self.context.call(arg)
    }

    /// Seals the context behind the opaque wrapper.
    pub fn into_opaque(self) -> (r: OpaqueCallback<C, T>)
        ensures
            r.cb.context == self.context,
    {
        OpaqueCallback { cb: self }
    }
}

impl<C: Callbackable<T>, T> OpaqueCallback<C, T> {
    /// Delivers one value through the opaque wrapper.
    pub fn call(&mut self, arg: T) -> (cont: bool)
        ensures
            C::call_post(old(self).cb.context, final(self).cb.context, arg, cont),
    {
        self.cb.call(arg)
    }
}

/// A source of values that can be drained into a callback.
pub trait FeedCallback<T>: Sized {
    /// Feeds every value into the callback, stopping early when it
    /// declines; reports how many values were delivered.
    fn feed_into_mut<C: Callbackable<T>>(self, callback: &mut OpaqueCallback<C, T>) -> usize;

    /// Feeds every value into an owned callback.
    fn feed_into<C: Callbackable<T>>(self, callback: OpaqueCallback<C, T>) -> usize;
}

impl<T> FeedCallback<T> for Vec<T> {
    /// Delivers the vector's values in order until the callback declines.
    fn feed_into_mut<C: Callbackable<T>>(self, callback: &mut OpaqueCallback<C, T>) -> (cnt:
        usize)
        ensures
            cnt <= self@.len(),
    {
        let mut cnt: usize = 0;
        let mut rest = self;
        let n: usize = rest.len();
        let ghost total = rest@.len();
        while rest.len() > 0
            invariant
                cnt + rest@.len() <= total,
                cnt <= total,
                total == self@.len(),
                total == n as int,
            decreases rest@.len(),
        {
            let v = rest.remove(0);
            cnt = cnt + 1;
            if !callback.call(v) {
                return cnt;
            }
        }
        cnt
    }

    fn feed_into<C: Callbackable<T>>(self, callback: OpaqueCallback<C, T>) -> (cnt: usize)
        ensures
            cnt <= self@.len(),
    {
        let mut callback = callback;
        self.feed_into_mut(&mut callback)
    }
}

/// A consumer that can hand out a callback over itself.
pub trait FromExtend<T>: Callbackable<T> {
    /// Wraps the consumer into an opaque callback.
    fn from_extend(self) -> OpaqueCallback<Self, T>;
}

impl<T> FromExtend<T> for Vec<T> {
    fn from_extend(self) -> (r: OpaqueCallback<Vec<T>, T>)
        ensures
            r.cb.context == self,
    {
        Callback::new(self).into_opaque()
    }
}

} // verus!
