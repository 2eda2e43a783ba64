//! Integration of external command-line tools: the failure taxonomy, the
//! configuration, the subprocess lifecycle manager and the adapters.

pub mod adapter;
pub mod error;
pub mod mock;
pub mod subprocess;
pub mod supervision;

pub use adapter::AdapterConfig;
pub use error::{IntegrationError, IntegrationResult};
pub use mock::MockAdapter;
pub use subprocess::SubprocessManager;
