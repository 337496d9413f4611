//! The flow step type discriminator.

use vstd::prelude::*;

verus! {

/// Flow step type.  The wire value of each variant is its lower-camel-case
/// name (`analytics`, `qamail`, `template`, ..., `addAttachment`).
#[derive(Clone, Copy)]
pub enum Type {
    Analytics,
    QAmail,
    Template,
    Subject,
    SetSender,
    AddHeader,
    Schedule,
    RewriteRecipient,
    ResubmitMessage,
    MailPlusContact,
    ExtractData,
    ExternalData,
    ExternalContent,
    Archive,
    Aggregate,
    AddAttachment,
}

} // verus!
