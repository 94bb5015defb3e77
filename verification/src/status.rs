//! The three-way outcome of a native call, and the structured fault carried
//! by its failure paths.

use vstd::prelude::*;
use crate::value::{Value, ValueModel};

verus! {

/// The class of a structured VM fault. Faults of the `Unreachable` class mark
/// states that a correct bytecode verifier can never let the interpreter
/// reach; they indicate corruption of the VM itself, never a recoverable
/// error of the running program.
#[derive(Clone, Copy, Debug, PartialEq, Eq)]
pub enum StatusCode {
    /// An internal state that verified bytecode cannot produce.
    Unreachable,
}

/// A structured VM fault: a fault class plus an optional human-readable
/// diagnostic message.
#[derive(Clone, Debug, PartialEq, Eq)]
pub struct VMStatus {
    /// The fault class.
    pub major_status: StatusCode,
    /// The diagnostic message, if one was attached.
    pub message: Option<String>,
}

/// The mathematical model of a `VMStatus`: the fault class and the message as
/// a character sequence.
#[verifier::ext_equal]
pub struct StatusModel {
    /// The fault class.
    pub code: StatusCode,
    /// The diagnostic message.
    pub message: Option<Seq<char>>,
}

impl DeepView for VMStatus {
    type V = StatusModel;

    open spec fn deep_view(&self) -> StatusModel {
        StatusModel { code: self.major_status, message: self.message.deep_view() }
    }
}

impl VMStatus {
    /// A fault of the given class with no message.
    pub fn new(major_status: StatusCode) -> (s: VMStatus)
        ensures
            s.deep_view() == (StatusModel { code: major_status, message: None::<Seq<char>> }),
    {
        VMStatus { major_status, message: None }
    }

    /// The same fault with a diagnostic message attached.
    pub fn with_message(self, message: String) -> (s: VMStatus)
        ensures
            s.deep_view() == (StatusModel {
                code: self.major_status,
                message: Some(message@),
            }),
    {
        VMStatus { major_status: self.major_status, message: Some(message) }
    }
}

/// The outcome of one native call. Every native is a pure function from its
/// argument queue to a value of this type; the interpreter deducts `cost`
/// from the active gas budget on success, lets the running program observe a
/// `ConversionFailure`, and halts the enclosing execution on an
/// `InvariantError`.
#[derive(Clone, Debug, PartialEq, Eq)]
pub enum NativeReturnStatus {
    /// The call completed. `cost` must be deducted from the caller's gas
    /// budget; `return_values` are pushed onto the operand stack in
    /// declaration order.
    Success {
        /// The gas cost of the call.
        cost: u64,
        /// The values the call returns.
        return_values: Vec<Value>,
    },
    /// A recoverable failure caused by runtime data. The running program may
    /// observe it and abort; it does not indict the VM's own correctness.
    /// None of the natives in this crate produces it, but the taxonomy keeps
    /// it distinct so that natives whose correctness depends on runtime data
    /// can report it.
    ConversionFailure(VMStatus),
    /// An arity or type-tag violation: the bytecode verifier should have made
    /// this unreachable, so it is fatal to the enclosing execution and is
    /// never caught or retried inside the native layer.
    InvariantError(VMStatus),
}

/// The mathematical model of a `NativeReturnStatus`.
#[verifier::ext_equal]
pub enum NativeOutcome {
    /// The call completed with the given cost and return values.
    Success {
        /// The gas cost of the call.
        cost: u64,
        /// The values the call returns.
        return_values: Seq<ValueModel>,
    },
    /// A recoverable failure caused by runtime data.
    ConversionFailure(StatusModel),
    /// An arity or type-tag violation, fatal to the enclosing execution.
    InvariantError(StatusModel),
}

impl DeepView for NativeReturnStatus {
    type V = NativeOutcome;

    open spec fn deep_view(&self) -> NativeOutcome {
        match self {
            NativeReturnStatus::Success { cost, return_values } => NativeOutcome::Success {
                cost: *cost,
                return_values: return_values.deep_view(),
            },
            NativeReturnStatus::ConversionFailure(s) => NativeOutcome::ConversionFailure(
                s.deep_view(),
            ),
            NativeReturnStatus::InvariantError(s) => NativeOutcome::InvariantError(s.deep_view()),
        }
    }
}

} // verus!
