//! A bytecode virtual machine's native-function bridge: the protocol by which
//! interpreter bytecode invokes host-implemented primitives.
//!
//! The interpreter hands a native function the tail of its operand stack as an
//! ordered queue of tagged values. The native validates the arity of the
//! queue, pops each argument in reverse declaration order while asserting its
//! type tag, computes its result, and returns a three-way outcome: metered
//! success, recoverable failure, or an invariant violation that indicates
//! interpreter or bytecode-verifier corruption and is fatal to the enclosing
//! execution.

pub mod diagnostics;
pub mod extractor;
pub mod natives;
pub mod status;
pub mod value;
