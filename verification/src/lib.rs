//! Error taxonomy, cooperative cancellation and page-rendering checks of the
//! Xberg document-extraction library, with their behaviour stated as Verus
//! contracts and proved.

pub mod cancellation;
pub mod error;
pub mod pdf;
pub mod text;


pub use cancellation::CancellationToken;
pub use error::{ApiStatusCategory, ErrorSource, McpErrorCategory, Result, XbergError};
