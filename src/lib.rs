pub mod glob;
pub mod mapping;
pub mod credentials;
pub mod service;
pub mod configuration;
pub mod http_context;
pub mod authrep;
pub mod target;
