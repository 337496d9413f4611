//! Types for content templates.

use vstd::prelude::*;

verus! {

/// Content disposition; wire values `attachment`, `inline` and `related`.
#[derive(Clone, Copy)]
pub enum Disposition {
    Attachment,
    Inline,
    Related,
}

/// Supported mime types: `text/plain`, `text/html` and
/// `application/vnd.flowmailer.itext+pdf`.
#[derive(Clone, Copy)]
pub enum MimeType {
    /// `text/plain`
    TextPlain,
    /// `text/html`
    TextHtml,
    /// `application/vnd.flowmailer.itext+pdf`
    Application,
}

/// The only supported template engine is `freemarker-2.3.20`.
#[derive(Clone, Copy)]
pub enum TemplateEngine {
    /// freemarker-2.3.20.
    Freemarker,
}

} // verus!
