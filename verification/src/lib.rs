//! A verified core for a REST gateway that manages RPM package
//! repositories: it maps request paths to sanitized on-disk locations
//! inside a managed root, plans the directory layout and the external
//! indexer invocation, and maps every outcome to an HTTP status.
//!
//! The surrounding binary owns the transport, the filesystem and the
//! subprocess; this library makes every decision and is verified.

pub mod dispatch;
pub mod http;
pub mod paths;
pub mod resolver;

pub use dispatch::{Action, IndexerOutcome, RefreshPlan, RestApiHandler, UploadPlan};
pub use http::{HttpError, Method, RequestUri, Status};
pub use resolver::RepoRequest;
