//! Deployment orchestration for docker-compose projects on one host: the
//! identity scheme, the staged-directory layout, the tool invocations and
//! the pipeline that sequences them, decided here and carried out by the
//! caller.
pub mod text;
pub mod request;
pub mod identity;
pub mod paths;
pub mod command;
pub mod error;
pub mod walk;
pub mod traversal;
pub mod pipeline;
pub mod stages;
pub mod walks;
pub mod restage;
