//! The hub, its method builders and call builders, and the schema types.

pub mod schema;

pub use self::schema::{
    RemoteConfig, RemoteConfigCondition, RemoteConfigParameter, RemoteConfigParameterValue,
};
pub mod params;
pub mod exchange;
pub mod hub;
pub mod call;

pub use self::call::{ProjectGetRemoteConfigCall, ProjectUpdateRemoteConfigCall};
pub use self::hub::{FirebaseRemoteConfig, ProjectMethods};
pub mod laws;
