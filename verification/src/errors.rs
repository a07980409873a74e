//! Error kinds of one invocation, and the text each is reported with.

use vstd::prelude::*;

verus! {

/// Why a parameter array was refused.
#[derive(Clone, Copy, PartialEq, Eq, Structural, Debug)]
pub enum BadParamsKind {
    /// The request's `params` was not a JSON array.
    NotAnArray,
    /// The array's length differs from the function's arity.
    ArityMismatch,
    /// A value for an `i32` slot has no integral form in signed 32 bits.
    NotI32,
    /// A value for an `i64` slot has no integral form in signed 64 bits.
    NotI64,
    /// The slot's declared type is outside the supported four.
    UnsupportedType,
}

/// Why a result vector could not be rendered as JSON.
#[derive(Clone, Copy, PartialEq, Eq, Structural, Debug)]
pub enum BadResultKind {
    /// A floating-point result is a NaN or an infinity.
    NonFinite,
    /// A result type is outside the supported four.
    UnsupportedType,
}

/// Everything that can fail an invocation before, inside, or after the
/// guest runs.
#[derive(Clone, Debug)]
pub enum ExecError {
    /// The module path escapes the base directory.
    InvalidPath { path: String },
    /// The module file exceeds the configured byte cap.
    ModuleTooLarge,
    /// The bytes are not a well-formed Wasm binary.
    ModuleParseError { detail: String },
    /// The module asks for an import outside the whitelist.
    UnauthorizedImport { import_module: String, import_name: String },
    /// The engine refused to instantiate the module.
    InstantiateFailed { detail: String },
    /// No function export carries the requested name.
    FunctionNotFound { function_name: String },
    /// The parameter array does not fit the function's signature.
    BadParams(BadParamsKind),
    /// The result vector cannot be rendered as JSON.
    BadResult(BadResultKind),
    /// The guest consumed all of its fuel.
    FuelExhausted,
    /// The epoch deadline interrupted the guest.
    Interrupted,
    /// The guest trapped; the detail is the engine's description.
    Trap { detail: String },
    /// Any other engine-reported failure.
    ExecutionError { detail: String },
}

/// Which failure counter an error feeds.
#[derive(Clone, Copy, PartialEq, Eq, Structural, Debug)]
pub enum FailureReason {
    InstanceLimit,
    ExecutionError,
    Timeout,
}

pub open spec fn spec_bad_params_message(kind: BadParamsKind) -> Seq<char> {
    match kind {
        BadParamsKind::NotAnArray => "Invalid parameters: not an array"@,
        BadParamsKind::ArityMismatch => "Invalid parameters: arity mismatch"@,
        BadParamsKind::NotI32 => "Invalid parameters: not i32"@,
        BadParamsKind::NotI64 => "Invalid parameters: not i64"@,
        BadParamsKind::UnsupportedType => "Invalid parameters: unsupported type"@,
    }
}

pub open spec fn spec_bad_result_message(kind: BadResultKind) -> Seq<char> {
    match kind {
        BadResultKind::NonFinite => "Invalid result: non-finite"@,
        BadResultKind::UnsupportedType => "Invalid result: unsupported type"@,
    }
}

/// The text an error is reported with in a response body.
pub open spec fn spec_message(e: ExecError) -> Seq<char> {
    match e {
        ExecError::InvalidPath { path } => "Invalid module path: "@ + path@,
        ExecError::ModuleTooLarge => "Module too large"@,
        ExecError::ModuleParseError { detail } => "Failed to parse WASM module: "@ + detail@,
        ExecError::UnauthorizedImport { import_module, import_name } =>
            "Unauthorized import module: "@ + import_module@ + "."@ + import_name@,
        ExecError::InstantiateFailed { detail } => "Failed to instantiate module: "@ + detail@,
        ExecError::FunctionNotFound { function_name } => "Function not found: "@ + function_name@,
        ExecError::BadParams(kind) => spec_bad_params_message(kind),
        ExecError::BadResult(kind) => spec_bad_result_message(kind),
        ExecError::FuelExhausted => "Fuel exhausted"@,
        ExecError::Interrupted => "Execution interrupted"@,
        ExecError::Trap { detail } => detail@,
        ExecError::ExecutionError { detail } => "Execution error: "@ + detail@,
    }
}

/// The failure counter an error feeds: an epoch interrupt is a timeout,
/// everything else an execution error.  (Admission refusals never reach
/// an `ExecError`.)
pub open spec fn spec_reason(e: ExecError) -> FailureReason {
    match e {
        ExecError::Interrupted => FailureReason::Timeout,
        _ => FailureReason::ExecutionError,
    }
}

impl ExecError {
    /// The text of this error, as the response body carries it.
    pub fn message(&self) -> (r: String)
        ensures
            r@ == spec_message(*self),
    {
        match self {
            ExecError::InvalidPath { path } => {
                String::from_str("Invalid module path: ").concat(path.as_str())
            },
            ExecError::ModuleTooLarge => String::from_str("Module too large"),
            ExecError::ModuleParseError { detail } => {
                String::from_str("Failed to parse WASM module: ").concat(detail.as_str())
            },
            ExecError::UnauthorizedImport { import_module, import_name } => {
                String::from_str("Unauthorized import module: ").concat(
                    import_module.as_str(),
                ).concat(".").concat(import_name.as_str())
            },
            ExecError::InstantiateFailed { detail } => {
                String::from_str("Failed to instantiate module: ").concat(detail.as_str())
            },
            ExecError::FunctionNotFound { function_name } => {
                String::from_str("Function not found: ").concat(function_name.as_str())
            },
            ExecError::BadParams(kind) => match kind {
                BadParamsKind::NotAnArray => String::from_str("Invalid parameters: not an array"),
                BadParamsKind::ArityMismatch => {
                    String::from_str("Invalid parameters: arity mismatch")
                },
                BadParamsKind::NotI32 => String::from_str("Invalid parameters: not i32"),
                BadParamsKind::NotI64 => String::from_str("Invalid parameters: not i64"),
                BadParamsKind::UnsupportedType => {
                    String::from_str("Invalid parameters: unsupported type")
                },
            },
            ExecError::BadResult(kind) => match kind {
                BadResultKind::NonFinite => String::from_str("Invalid result: non-finite"),
                BadResultKind::UnsupportedType => {
                    String::from_str("Invalid result: unsupported type")
                },
            },
            ExecError::FuelExhausted => String::from_str("Fuel exhausted"),
            ExecError::Interrupted => String::from_str("Execution interrupted"),
            ExecError::Trap { detail } => detail.clone(),
            ExecError::ExecutionError { detail } => {
                String::from_str("Execution error: ").concat(detail.as_str())
            },
        }
    }

    /// The failure counter this error feeds.
    pub fn reason(&self) -> (r: FailureReason)
        ensures
            r == spec_reason(*self),
    {
        match self {
            ExecError::Interrupted => FailureReason::Timeout,
            _ => FailureReason::ExecutionError,
        }
    }
}

} // verus!
