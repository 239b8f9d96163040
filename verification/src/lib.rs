//! ABI-stable interface compiler.
//!
//! The library turns abstract interface declarations (named methods with
//! typed parameters, return types and generic parameters) into flat,
//! foreign-function-safe artifacts: a vtable entry, a wrapper function, a
//! default vtable initializer, a forwarding implementation and temporary
//! return storage per method, plus composed containers for groups of
//! interfaces.  A separate pass repairs the textual header emitted for the
//! generated code by an external header generator.

pub mod arg;
pub mod callback;
pub mod func;
pub mod generics;
pub mod group;
pub mod int_result;
pub mod layout;
pub mod repair;
pub mod ret;
pub mod rules;
pub mod strutil;
pub mod trait_group;
pub mod ty;

