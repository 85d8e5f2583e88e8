//! PDF page rendering.

pub mod render_session;

pub use render_session::PdfRenderSession;
