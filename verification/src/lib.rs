//! A bridge between a foreign object runtime and the native data of an
//! authorization engine.
//!
//! The bridge has four layers, each resting on the one before:
//!
//! * [`jni::jni_cache`] keeps the handles of classes, methods and static
//!   fields, resolved once against the runtime and looked up ever after.
//! * [`jni::util`] holds the conversion primitives: each invokes a method
//!   through a handle and turns what comes back into a native value, or into
//!   nothing where the foreign side gave the null reference.
//! * [`config`], [`authz`] and [`cedar_policy`] hold one converter per object
//!   shape. A converter of the input direction wraps a foreign object, reads
//!   its fields in a fixed order and fails on the first required field that
//!   is missing; a converter of the output direction builds the parts of a
//!   foreign object before the whole.
//! * [`cedarling`] holds what the entry points decide: how an input is
//!   converted, and how a call ends, with a result or with one exception.
//!
//! The runtime itself is [`jni::env::JavaEnv`]: the classes it knows, the
//! objects on its heap, what each object answers, and a record of what was
//! constructed, invoked and raised. The native data stands in [`engine`].
//!
//! Every contract speaks of the views of these values. The laws that hold of
//! the bridge as a whole are proved next to what they speak of: a handle
//! that was registered is found, a cache that was initialised never misses,
//! a required field that is null is named, a list keeps its order, and an
//! enum name survives decoding and writing.

pub mod text;
pub mod outside;
pub mod error;
pub mod jni;
pub mod engine;
pub mod config;
pub mod authz;
pub mod cedar_policy;
pub mod cedarling;
