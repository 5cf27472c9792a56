//! One error type for every failure that can reach a caller of this library.
//!
//! A [`CluError`] carries exactly one error of a component, of the I/O layer, of the `fungus`
//! crate or of `serde_yaml`, unchanged. It can be asked which concrete error it carries and can
//! hand that error out by reference; an error that `fungus` has wrapped first is reached through
//! its wrapper.
//!
//! - [`error`] holds `CluError` and the questions that can be put to it.
//! - [`leaf`] and [`cause`] hold what an error type states to be asked for, and the types that
//!   do so.
//! - [`component`] holds the error of the components.
//! - [`outside`] holds the error types of other crates and what is taken on trust about them.
//! - [`laws`] holds what is proved of every `CluError`.

pub mod cause;
pub mod component;
pub mod error;
pub mod laws;
pub mod leaf;
pub mod outside;

pub use crate::cause::Cause;
pub use crate::component::ComponentError;
pub use crate::error::{CluError, CluResult};
pub use crate::leaf::{CauseType, Leaf};
pub use crate::outside::WrappedError;
