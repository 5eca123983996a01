//! Decision logic of a manager for local instances of a Java web application.

pub mod bindings;
pub mod credentials;
pub mod detection;
pub mod environment;
pub mod health;
pub mod instance;
pub mod json;
pub mod launch;
pub mod license;
pub mod lifecycle;
pub mod number;
pub mod ordering;
pub mod paths;
pub mod platform;
pub mod profile;
pub mod registry;
pub mod scan;
pub mod settings;
pub mod text;
pub mod version;
