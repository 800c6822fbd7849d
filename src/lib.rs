//! The boundary layer of an angular approximate-nearest-neighbour index
//! backed by a native engine: the lifecycle that decides which operations are
//! admitted, the checks made before a call crosses into the engine, the
//! conversion of what the engine reports into owned errors, and the sizing of
//! query results.

pub mod error;
pub mod fixture;
pub mod index;
pub mod lifecycle;
pub mod results;

pub use error::{check_error, AnnoyError, NativeStatus, Operation};
pub use fixture::{fill_segment1_dim4, PointWrite, SegmentWrites};
pub use index::{AnnoyAngular, NATIVE_INT_MAX};
pub use lifecycle::State;
pub use results::{check_path, truncate_results};
