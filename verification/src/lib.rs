//! Typed facades over objects that live in an embedded Python runtime.
//!
//! Every operation is one request to the runtime: a chain of attribute
//! lookups from a module or an object, ending in a read, an assignment or an
//! invocation. The request is an ordinary value, the reply is converted into
//! plain values by the shape the caller expects, and every failure is
//! reported as a typed error that names the facade and the member involved.

pub mod error;
pub mod facade;
pub mod filters;
pub mod forcefield;
pub mod forward;
pub mod merge;
pub mod numeric;
pub mod parameters;
pub mod portal;
pub mod reply;
pub mod results;
pub mod runtime;
pub mod topology;
pub mod units;
pub mod value;

pub use crate::error::{BindingError, ErrorKind};
pub use crate::filters::Filter;
pub use crate::forcefield::{get_available_force_fields, ForceField};
pub use crate::portal::{PortalClient, RecordStatus};
pub use crate::results::{
    BaseResultCollection,
    Entry,
    OptimizationResultCollection,
    TorsionDriveResultCollection,
};
pub use crate::topology::{Molecule, Topology};
pub use crate::units::{unit, Quantity};
pub use crate::value::{Handle, Shape, Value};
