//! Populates flat, text-valued configuration records from a remote key-value parameter store,
//! and holds the plain types that the cloud helpers around it exchange.

pub mod cloud_error;
pub mod command;
pub mod deserialization;
pub mod error;
pub mod instance;
pub mod key_transform;
pub mod laws;
pub mod payload;
pub mod resolver;
pub mod shape;
pub mod store;

pub use cloud_error::CloudError;
pub use command::CommandError;
pub use error::AdapterInitError;
pub use error::ResolutionError;
pub use error::StoreError;
pub use instance::InstanceReportError;
pub use instance::InstanceState;
pub use key_transform::snake_case_to_kebab_case;
pub use resolver::begin;
pub use resolver::resolve;
pub use resolver::Pending;
pub use resolver::Step;
pub use shape::TargetShape;
pub use store::interpret_response;
pub use store::ConfigStore;
pub use store::ParameterResponse;
