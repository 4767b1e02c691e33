//! Building blocks for issuing SCSI commands: a bit-exact field codec for
//! command descriptor blocks and parameter lists, a header-plus-array record
//! buffer, the transfer contract every command implements, the marshalling of
//! a transfer into the operating system's passthrough request, and the
//! classification of what came back.

pub mod bitfield;
pub mod command;
pub mod data_direction;
pub mod data_wrapper;
pub mod error;
pub mod os;
pub mod result_data;
pub mod scsi;

pub use command::Command;
pub use data_direction::DataDirection;
pub use error::{BoundCheckError, Error};
pub use result_data::ResultData;
pub use scsi::Scsi;
