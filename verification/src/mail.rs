//! The convenience mail builder: assembles one message-submission record and
//! interprets the submission response.
//!
//! Building is pure data shaping.  Sending is the request pipeline's job;
//! after it, success of a submission is decided here: the platform conveys
//! the created resource's identifier in a `location` response header, so a
//! submission without one fails.

use vstd::prelude::*;

use crate::encode::is_json_text;
use crate::encode::json_is_valid;
use crate::error::{Error, Kind};
use crate::request::{opt_text_view, spec_header, Response};
use crate::resources::SubmitMessage;
use crate::ty::MessageType;

verus! {

/// An email address or phone number.
pub struct MailAddress(String);

impl View for MailAddress {
    type V = Seq<char>;

    closed spec fn view(&self) -> Seq<char> {
        self.0@
    }
}

impl MailAddress {
    /// Wraps the address; never fails, never alters it.
    pub fn new(address: String) -> (r: Self)
        ensures
            r@ == address@,
    {
        Self(address)
    }
}

/// The mathematical content of a mail under construction.
pub struct MailModel {
    pub sender: Seq<char>,
    pub recipient: Seq<char>,
    pub text: Option<Seq<char>>,
    pub subject: Seq<char>,
    pub html: Option<Seq<char>>,
    pub flow_selector: Option<Seq<char>>,
    pub mail_data: Option<Seq<char>>,
}

/// A mail under construction: sender, recipient, exactly one content kind
/// (text, HTML or a flow selector), and optional subject and data.
pub struct MailBuilder {
    sender: MailAddress,
    recipient: MailAddress,
    text: Option<String>,
    subject: String,
    html: Option<String>,
    flow_selector: Option<String>,
    mail_data: Option<String>,
}

impl View for MailBuilder {
    type V = MailModel;

    closed spec fn view(&self) -> MailModel {
        MailModel {
            sender: self.sender@,
            recipient: self.recipient@,
            text: opt_text_view(self.text),
            subject: self.subject@,
            html: opt_text_view(self.html),
            flow_selector: opt_text_view(self.flow_selector),
            mail_data: opt_text_view(self.mail_data),
        }
    }
}

impl MailBuilder {
    /// The empty mail between the two addresses: no content, no subject,
    /// no data.
    fn new(sender: MailAddress, recipient: MailAddress) -> (r: Self)
        ensures
            r@ == (MailModel {
                sender: sender@,
                recipient: recipient@,
                text: None,
                subject: Seq::empty(),
                html: None,
                flow_selector: None,
                mail_data: None,
            }),
    {
        Self {
            sender,
            recipient,
            subject: String::new(),
            text: None,
            html: None,
            flow_selector: None,
            mail_data: None,
        }
    }

    /// A plain-text mail.
    pub fn new_text(sender: MailAddress, recipient: MailAddress, text: String) -> (r: Self)
        ensures
            r@ == (MailModel {
                sender: sender@,
                recipient: recipient@,
                text: Some(text@),
                subject: Seq::empty(),
                html: None,
                flow_selector: None,
                mail_data: None,
            }),
    {
        let mut new = Self::new(sender, recipient);
        new.text = Some(text);
        new
    }

    /// An HTML mail.
    pub fn new_hmtl(sender: MailAddress, recipient: MailAddress, html: String) -> (r: Self)
        ensures
            r@ == (MailModel {
                sender: sender@,
                recipient: recipient@,
                text: None,
                subject: Seq::empty(),
                html: Some(html@),
                flow_selector: None,
                mail_data: None,
            }),
    {
        let mut new = Self::new(sender, recipient);
        new.html = Some(html);
        new
    }

    /// A mail whose content comes from a flow selected by `flow_selector`.
    pub fn new_template(sender: MailAddress, recipient: MailAddress, flow_selector: String) -> (r:
        Self)
        ensures
            r@ == (MailModel {
                sender: sender@,
                recipient: recipient@,
                text: None,
                subject: Seq::empty(),
                html: None,
                flow_selector: Some(flow_selector@),
                mail_data: None,
            }),
    {
        let mut new = Self::new(sender, recipient);
        new.flow_selector = Some(flow_selector);
        new
    }

    /// Attaches extra data, already encoded as JSON text, to be available in
    /// templates.  A text that is not one valid JSON document is rejected
    /// with a `Parse` error.
    pub fn set_data(self, data: String) -> (r: Result<Self, Error>)
        ensures
            is_json_text(data@) ==> (r matches Ok(b) && b@ == (MailModel {
                mail_data: Some(data@),
                ..self@
            })),
            !is_json_text(data@) ==> (r matches Err(e) && e.kind matches Kind::Parse(m)),
    {
        if json_is_valid(data.as_str()) {
            Ok(Self { mail_data: Some(data), ..self })
        } else {
            Err(
                Error::new(
                    Kind::Parse(String::from_str("data is not a single valid json document")),
                ),
            )
        }
    }

    /// Sets the subject line.
    pub fn set_subject(self, subject: String) -> (r: Self)
        ensures
            r@ == (MailModel { subject: subject@, ..self@ }),
    {
        Self { subject, ..self }
    }

    /// Assembles the submission record that sending this mail posts to the
    /// platform: an email whose from/to headers carry no display names, with
    /// `{}` as data when none was attached, and every other optional field
    /// unset.
    pub fn submit_message(self) -> (r: SubmitMessage)
        ensures
            r.data@ == (match self@.mail_data {
                Some(d) => d,
                None => "{}"@,
            }),
            r.header_from_address@ == self@.sender,
            r.header_from_name@ == Seq::<char>::empty(),
            r.header_to_name@ == Seq::<char>::empty(),
            r.headers@ == Seq::<crate::resources::Header>::empty(),
            r.message_type is Email,
            r.recipient_address@ == self@.recipient,
            r.sender_address@ == self@.sender,
            r.subject@ == self@.subject,
            opt_text_view(r.text) == self@.text,
            r.attachments is None,
            r.delivery_notification_type is None,
            opt_text_view(r.flow_selector) == self@.flow_selector,
            r.header_to_address is None,
            opt_text_view(r.html) == self@.html,
            r.mimedata is None,
            r.schedule_at is None,
            r.tags is None,
    {
        let data = match self.mail_data {
            Some(d) => d,
            None => String::from_str("{}"),
        };
        let r = SubmitMessage {
            data,
            header_from_address: self.sender.0.clone(),
            header_from_name: String::new(),
            header_to_name: String::new(),
            headers: Vec::new(),
            message_type: MessageType::Email,
            recipient_address: self.recipient.0,
            sender_address: self.sender.0,
            subject: self.subject,
            text: self.text,
            attachments: None,
            delivery_notification_type: None,
            flow_selector: self.flow_selector,
            header_to_address: None,
            html: self.html,
            mimedata: None,
            schedule_at: None,
            tags: None,
        };
        proof {
            assert(r.headers@ =~= Seq::<crate::resources::Header>::empty());
        }
        r
    }

    /// Decides whether a submission succeeded: the platform conveys the
    /// created resource's identifier in a `location` response header, so the
    /// submission succeeds exactly when that header is present as text; a
    /// present but non-text value is a `Parse` error; an absent header is
    /// `MissingHeader`.
    pub fn interpret_submit_response(response: &Response) -> (r: Result<(), Error>)
        ensures
            match spec_header(response.headers@, "location"@) {
                Some(v) => {
                    &&& v is Some ==> r is Ok
                    &&& v is None ==> (r matches Err(e) && e.kind matches Kind::Parse(m))
                },
                None => r matches Err(e) && (e.kind matches Kind::MissingHeader { header, msg }
                    && header@ == "location"@),
            },
    {
        match response.header("location") {
            Some(value) => {
                match value {
                    Some(_content) => Ok(()),
                    None => Err(
                        Error::new(
                            Kind::Parse(
                                String::from_str(
                                    "failed to interpret header content as string for 'location'",
                                ),
                            ),
                        ),
                    ),
                }
            },
            None => Err(
                Error::new(
                    Kind::MissingHeader {
                        header: String::from_str("location"),
                        msg: String::from_str("need location header in order to extract ID"),
                    },
                ),
            ),
        }
    }
}

} // verus!
