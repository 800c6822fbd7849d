use vstd::prelude::*;
use vstd::string::StringExecFns;

use crate::lifecycle::State;

verus! {

/// The operations of the index that can fail.
#[derive(Clone, Copy, Debug, PartialEq, Eq, Structural)]
pub enum Operation {
    AddItem,
    Build,
    Save,
    Load,
    Unload,
    NearestByItem,
    NearestByVector,
    ItemVector,
    Distance,
    ItemCount,
    OnDiskBuild,
}

/// The name under which an operation is reported.
pub open spec fn operation_name(op: Operation) -> Seq<char> {
    match op {
        Operation::AddItem => "add_item"@,
        Operation::Build => "build"@,
        Operation::Save => "save"@,
        Operation::Load => "load"@,
        Operation::Unload => "unload"@,
        Operation::NearestByItem => "get_nearest_by_item"@,
        Operation::NearestByVector => "get_nearest_by_vector"@,
        Operation::ItemVector => "get_item_vector"@,
        Operation::Distance => "get_distance"@,
        Operation::ItemCount => "get_n_items"@,
        Operation::OnDiskBuild => "on_disk_build"@,
    }
}

impl Operation {
    /// The name under which this operation is reported.
    pub fn name(&self) -> (r: &'static str)
        ensures
            r@ == operation_name(*self),
            r@.len() > 0,
    {
        match self {
            Operation::AddItem => {
                proof { reveal_strlit("add_item"); }
                "add_item"
            },
            Operation::Build => {
                proof { reveal_strlit("build"); }
                "build"
            },
            Operation::Save => {
                proof { reveal_strlit("save"); }
                "save"
            },
            Operation::Load => {
                proof { reveal_strlit("load"); }
                "load"
            },
            Operation::Unload => {
                proof { reveal_strlit("unload"); }
                "unload"
            },
            Operation::NearestByItem => {
                proof { reveal_strlit("get_nearest_by_item"); }
                "get_nearest_by_item"
            },
            Operation::NearestByVector => {
                proof { reveal_strlit("get_nearest_by_vector"); }
                "get_nearest_by_vector"
            },
            Operation::ItemVector => {
                proof { reveal_strlit("get_item_vector"); }
                "get_item_vector"
            },
            Operation::Distance => {
                proof { reveal_strlit("get_distance"); }
                "get_distance"
            },
            Operation::ItemCount => {
                proof { reveal_strlit("get_n_items"); }
                "get_n_items"
            },
            Operation::OnDiskBuild => {
                proof { reveal_strlit("on_disk_build"); }
                "on_disk_build"
            },
        }
    }
}

/// A failed operation on an index, as an owned value.
#[derive(Debug, PartialEq, Eq)]
pub enum AnnoyError {
    /// A vector's length differs from the index's dimension.
    DimensionMismatch { operation: Operation, expected: usize, actual: usize },
    /// The operation is not admitted in the index's current state.
    IllegalState { operation: Operation, state: State },
    /// An item identifier at or beyond the number of item slots of the index.
    ItemOutOfRange { operation: Operation, item: u32, n_items: u32 },
    /// An item identifier that the native engine cannot represent.
    InvalidItem { item: u32 },
    /// A file path that cannot be handed to the native engine.
    InvalidPath { operation: Operation },
    /// The native engine reported more results than were asked for.
    TooManyResults { operation: Operation, capacity: usize, returned: usize },
    /// The native engine reported a failure, with its message.
    Native { operation: Operation, message: String },
    /// The native engine reported a failure without a message.
    NativeUnknown { operation: Operation },
}

/// What a fallible native call reported: its success indicator and, on
/// failure, the message it left in its out-parameter (already copied into an
/// owned string, the native allocation released).
#[derive(Debug)]
pub struct NativeStatus {
    pub success: bool,
    pub message: Option<String>,
}

/// The error that a failed native call of `op` turns into: the message it
/// left, whatever its text (an empty one included), or the generic unknown
/// error where its message slot was left empty.
pub open spec fn native_failure(op: Operation, message: Option<String>) -> AnnoyError {
    match message {
        Some(m) => AnnoyError::Native { operation: op, message: m },
        None => AnnoyError::NativeUnknown { operation: op },
    }
}

/// What a native call of `op` that reported `status` comes to.
pub open spec fn native_result(op: Operation, status: NativeStatus) -> Result<(), AnnoyError> {
    if status.success {
        Ok(())
    } else {
        Err(native_failure(op, status.message))
    }
}

/// Turns what a native call of `op` reported into a result: success when the
/// call succeeded (its message slot is then never read), else an error tagged
/// with `op`, holding the message or, where there is none, the unknown error.
pub fn check_error(op: Operation, status: NativeStatus) -> (r: Result<(), AnnoyError>)
    ensures
        r == native_result(op, status),
{
    if status.success {
        return Ok(());
    }
    match status.message {
        Some(m) => Err(AnnoyError::Native { operation: op, message: m }),
        None => Err(AnnoyError::NativeUnknown { operation: op }),
    }
}

/// The text that describes an error reported by the native engine.
pub open spec fn native_text(op: Operation, message: Seq<char>) -> Seq<char> {
    operation_name(op) + " failed: "@ + message
}

impl AnnoyError {
    /// The operation that failed.
    pub fn operation(&self) -> (r: Operation)
        ensures
            r == error_operation(*self),
    {
        match self {
            AnnoyError::DimensionMismatch { operation, .. } => *operation,
            AnnoyError::IllegalState { operation, .. } => *operation,
            AnnoyError::ItemOutOfRange { operation, .. } => *operation,
            AnnoyError::InvalidItem { .. } => Operation::AddItem,
            AnnoyError::InvalidPath { operation } => *operation,
            AnnoyError::TooManyResults { operation, .. } => *operation,
            AnnoyError::Native { operation, .. } => *operation,
            AnnoyError::NativeUnknown { operation } => *operation,
        }
    }

    /// A human-readable message that names the failed operation. It is never
    /// empty; for a native failure it carries the native message, or says
    /// that the error is unknown.
    pub fn describe(&self) -> (r: String)
        ensures
            r@.len() > 0,
            r@.subrange(0, operation_name(error_operation(*self)).len() as int)
                == operation_name(error_operation(*self)),
            *self matches AnnoyError::Native { operation, message } ==> r@ == native_text(
                operation,
                message@,
            ),
            *self matches AnnoyError::NativeUnknown { operation } ==> r@ == native_text(
                operation,
                "<unknown error>"@,
            ),
    {
        let op = self.operation();
        let mut r = String::from_str(op.name());
        r.append(" failed: ");
        match self {
            AnnoyError::DimensionMismatch { .. } => r.append(
                "vector length differs from the dimension of the index",
            ),
            AnnoyError::IllegalState { .. } => r.append(
                "not admitted in the current state of the index",
            ),
            AnnoyError::ItemOutOfRange { .. } => r.append("item identifier out of range"),
            AnnoyError::InvalidItem { .. } => r.append("item identifier too large"),
            AnnoyError::InvalidPath { .. } => r.append("path cannot be passed to the engine"),
            AnnoyError::TooManyResults { .. } => r.append(
                "engine reported more results than requested",
            ),
            AnnoyError::Native { message, .. } => r.append(message.as_str()),
            AnnoyError::NativeUnknown { .. } => r.append("<unknown error>"),
        }
        proof {
            let n = operation_name(op);
            assert(r@.subrange(0, n.len() as int) =~= n);
        }
        r
    }
}

/// The operation that an error reports.
pub open spec fn error_operation(e: AnnoyError) -> Operation {
    match e {
        AnnoyError::DimensionMismatch { operation, .. } => operation,
        AnnoyError::IllegalState { operation, .. } => operation,
        AnnoyError::ItemOutOfRange { operation, .. } => operation,
        AnnoyError::InvalidItem { .. } => Operation::AddItem,
        AnnoyError::InvalidPath { operation } => operation,
        AnnoyError::TooManyResults { operation, .. } => operation,
        AnnoyError::Native { operation, .. } => operation,
        AnnoyError::NativeUnknown { operation } => operation,
    }
}

} // verus!
