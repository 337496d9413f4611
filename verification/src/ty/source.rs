//! Types for source systems.

use vstd::prelude::*;

verus! {

/// Source type; wire values `APU`, `SMTP`, `SMTP_RCPT`, `SMTP_DOMAIN`,
/// `SMPP` and `FLOWMAILER`.
#[derive(Clone, Copy)]
pub enum Type {
    Api,
    Smtp,
    SmtpRcpt,
    SmtpDomain,
    Smpp,
    Flowmailer,
}

} // verus!
