//! A small convenience layer over file-opening primitives.
//!
//! Path-like values gain six operations — three open modes, each in a
//! fail-fast and a recoverable flavour — on a synchronous surface
//! ([`request::FileFlex`]) and an asynchronous one
//! ([`tokio::FileFlexAsync`]).  The library itself never touches the
//! platform: each operation produces an [`request::OpenRequest`] that
//! pins down the path, the flag set and the failure policy, and an
//! unverified shell executes the request against the real filesystem
//! (or hands it to an asynchronous runtime's open call).  The in-memory
//! filesystem [`fs_model::FsModel`] gives the three modes their meaning,
//! and the library's laws about file contents are proved against it.

pub mod fs_model;
pub mod open_mode;
pub mod policy;
pub mod request;
pub mod tokio;

pub use fs_model::FsHandle;
pub use fs_model::FsModel;
pub use open_mode::OpenConfig;
pub use open_mode::OpenMode;
pub use policy::ErrorClass;
pub use policy::ErrorPolicy;
pub use policy::FailureAction;
pub use policy::failure_action;
pub use request::FileFlex;
pub use request::OpenRequest;
pub use tokio::FileFlexAsync;
