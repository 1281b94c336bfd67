//! Generation of calling-convention bindings for native interface methods.
//!
//! A [`model::MethodSignature`] describes one native method: its parameters,
//! each with direction flags and a type signature (a base kind under a number
//! of pointer levels), an optional direct return type, and the error-reporting
//! intent carried by the metadata. From that description the emitters in
//! [`win32`] render token fragments: the raw-ABI declaration a native caller
//! expects, the ergonomic public parameter list and call-site arguments, the
//! upcall bridge that translates a higher-level outcome back into the native
//! convention, and the logical success type of a fallible method.
//!
//! Every emitter is a pure function of the signature, and its contract states
//! the exact token sequence it produces. The rules the fragments must obey —
//! the last parameter of a value-returning fallible method is an output
//! pointer, raw and public fragments agree in indirection, argument order is
//! preserved — are proved alongside the emitters. The [`bridge`] module gives
//! the emitted bridge shapes their runtime meaning over plain values and
//! proves the ownership hand-off rule of the value convention.

pub mod bridge;
pub mod model;
pub mod tokens;
pub mod win32;
