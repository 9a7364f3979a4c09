//! Vehicle intelligence library: the data model of vehicle reports, the
//! parsing of registry pages, and the decisions of the report service.
pub mod text;
pub mod models;
pub mod services;
pub mod external;
pub mod ai;
pub mod config;
