//! Senzing SDK interfaces and error model.
//!
//! This crate defines the public interface of the Senzing entity resolution
//! SDK: the component traits ([`SzEngine`], [`SzConfig`],
//! [`SzConfigManager`], [`SzDiagnostic`], [`SzProduct`],
//! [`SzAbstractFactory`]), parameter constants, and the error model
//! ([`SzError`], [`SzErrorKind`], [`SzComponent`]) whose classification
//! logic is verified.
//!
//! All traits are synchronous by design, keeping the surface simple and
//! compatible with both FFI and gRPC backends.

mod config;
mod config_manager;
mod decimal;
mod diagnostic;
mod engine;
pub mod error;
mod errortypes;
mod factory;
mod inspect;
mod kind;
pub mod parameters;
mod product;
mod result_ext;

pub use config::SzConfig;
pub use config_manager::SzConfigManager;
pub use diagnostic::SzDiagnostic;
pub use engine::SzEngine;
pub use error::{AnyError, MessageText, SzError, SzErrorView};
pub use factory::SzAbstractFactory;
pub use inspect::SzErrorInspect;
pub use kind::{SzComponent, SzErrorKind};
pub use product::SzProduct;
pub use result_ext::{SzResult, SzResultExt};
