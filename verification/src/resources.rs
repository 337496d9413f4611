//! The platform's resource records: plain, typed data shapes consumed and
//! produced by the request pipeline.
//!
//! Each record is a flat structure of plain values.  Arbitrary JSON values
//! are held as their text ([`Object`]); base64 content as its encoded text;
//! dates as plain numbers.  The field lists mirror the platform's wire
//! shapes; optional fields are omitted from request bodies when unset.

use vstd::prelude::*;

use crate::ty;

verus! {

/// An arbitrary JSON value, held as its text.
pub type Object = String;

pub struct Address {
    /// Email address or phone number.
    pub address: String,
    /// Display name, only used for email messages.
    pub name: String,
}

pub struct Attachment {
    pub content: Option<ty::Base64>,
    /// Content-ID header (required for disposition related).
    pub content_id: Option<String>,
    /// Examples: `application/pdf`, `image/jpeg`.
    pub content_type: Option<String>,
    /// Content-Disposition header for the attachment: `attachment`, `inline`
    /// or `related` (use `related` for images referenced in the HTML).
    pub disposition: String,
    pub filename: Option<String>,
}

/// Undeliverable message.
pub struct BouncedMessage {
    /// The time the platform was done processing this message.
    pub backend_done: ty::Date,
    /// The time the platform started processing this message.
    pub backend_start: ty::Date,
    /// Date on which the message was bounced.
    pub bounce_received: ty::Date,
    pub bounce_snippet: String,
    pub bounce_sub_type: String,
    pub bounce_type: String,
    /// Message events, ordered by received, new events first.
    pub events: Vec<MessageEvent>,
    /// Flow this message was processed in.
    pub flow: ObjectDescription,
    /// The email address in the From email header.
    pub from: String,
    /// The address in the From email header.
    pub from_address: Address,
    /// E-Mail headers of the submitted email message.
    pub headers_in: Vec<Header>,
    /// Headers of the final e-mail.
    pub headers_out: Vec<Header>,
    /// Message id.
    pub id: String,
    /// Link for the message details page, with resend button.
    pub message_details_link: String,
    /// Content of the `Message-ID` email header.
    pub message_id_header: String,
    /// Message type: EMAIL, SMS or LETTER.
    pub message_type: String,
    /// Last online link.
    pub online_link: String,
    /// Recipient address.
    pub recipient_adr: String,
    /// Sender address.
    pub sender_address: String,
    /// Source system that submitted this message.
    pub source: ObjectDescription,
    /// Current message status.
    pub status: String,
    /// Message subject (email only).
    pub subject: String,
    /// The time this message was submitted.
    pub submitted: String,
    /// Message tags.
    pub tags: Vec<String>,
    /// The recipients in the To email header.
    pub to_address_list: Vec<Address>,
    /// The SMTP transaction id, returned with the SMTP `250` response.
    pub transaction_id: String,
}

pub struct Credentials {
    /// Allowed IP addresses that can connect with these credentials.
    pub allowed_addresses: Vec<String>,
    pub allowed_senders: Vec<String>,
    /// Contact info for these credentials.
    pub contact_info: String,
    /// Description.
    pub description: String,
    /// Source credentials ID.
    pub id: String,
    pub inbound_domain: String,
    pub inbound_recipients: Vec<InboundRecipient>,
    /// Password.
    pub password: String,
    /// Protocol: `SMTP`, `SMTP_RCPT`, `SMTP_HEADER`, `SMTP_IPONLY` or `SMPP`.
    pub protocol: String,
    /// Source ID.
    pub source_id: String,
    /// Username.
    pub username: String,
}

pub struct DataExpression {
    /// Expression.
    pub expression: String,
    /// Value which must match the result of the expression.
    pub value: String,
}

/// Data set with statistics.
pub struct DataSet {
    /// Data set name.
    pub name: String,
    /// List of samples in this dataset.
    pub samples: Vec<Sample>,
}

/// Multiple data sets.
pub struct DataSets {
    /// List of data sets.
    pub list: Vec<DataSet>,
}

pub struct DkimKey {
    pub cname_target: String,
    pub domain: String,
    pub public_key: String,
    pub selector: String,
}

/// DNS record that should be configured.
pub struct DnsRecord {
    /// Error messages for this DNS record, filled when validated.
    pub error_messages: Vec<String>,
    /// Record name.
    pub name: String,
    /// Current record status, filled when validated: `UNKNOWN`, `ERROR`,
    /// `WARNING` or `OK`.
    pub status: String,
    /// Record type.
    pub ty: String,
    /// Record value description in HTML.
    pub value: String,
    /// Warning messages for this DNS record, filled when validated.
    pub warning_messages: Vec<String>,
    pub warnings: ty::Empty,
}

pub struct Error {
    pub arguments: Vec<Object>,
    pub code: String,
    pub default_message: String,
    pub field: String,
    pub object_name: String,
    pub rejected_value: Object,
}

pub struct Errors {
    /// List of errors.
    pub all_errors: Vec<Error>,
}

pub struct EventFlow {
    /// Flow description.
    pub description: String,
    /// Flow ID.
    pub id: String,
    /// Id of the flow parent.
    pub parent_id: String,
    /// Flow steps that each message in this flow will be processed by.
    pub steps: Vec<FlowStep>,
}

/// Conditions which must be true for an event to use a flow.
pub struct EventFlowRuleSimple {
    pub data_expression: DataExpression,
    pub data_expression_value: String,
    /// Data expressions which must be present in the message.
    pub data_expressions: Vec<DataExpression>,
    /// Flow ID of the flow the events will use if the conditions are true.
    pub event_flow_id: String,
    /// Match type of the event.
    pub event_type: String,
    pub header: Header,
    pub header_value: String,
    /// Email headers which must be present in the message.
    pub headers: Vec<Header>,
    /// Name of the link that was clicked for CLICK events.
    pub link_name: String,
    /// Url of the link that was clicked for CLICK events.
    pub link_target: String,
    /// Message Flow ID which handled the original message.
    pub message_flow_id: String,
}

pub struct Exception {
    pub message: String,
    pub ty: String,
}

/// Filtered recipient address.
pub struct Filter {
    /// Account ID.
    pub account_id: String,
    /// Filtered recipient address.
    pub address: String,
    /// Date on which this filter was added.
    pub date: ty::Date,
    /// Date on which this filter expires.
    pub expires_on: ty::Date,
    /// Filter ID.
    pub id: String,
    /// Message event that was the reason for creating this filter.
    pub message_return: MessageReturn,
    /// This filter is for message type: `EMAIL` or `SMS`.
    pub message_type: String,
    /// Filter reason.
    pub reason: String,
}

/// Message flow.
pub struct Flow {
    /// Flow description.
    pub description: String,
    /// Flow ID; omitted from request bodies when unset.
    pub id: Option<String>,
    /// Omitted from request bodies when unset; wire name `messageSummary`.
    pub message_summary: Option<MessageSummary>,
    /// Omitted from request bodies when unset.
    pub statistics: Option<Vec<Sample>>,
    /// Flow steps that each message in this flow will be processed by.
    pub steps: Vec<FlowStep>,
    /// Id of the flow template; wire name `templateId`.
    pub template_id: String,
}

/// Conditions which must be true for a message to use a flow.
pub struct FlowRuleSimple {
    /// Data expressions which must be present in the message.
    pub data_expressions: Vec<DataExpression>,
    /// Flow ID of the flow the messages will use if the conditions are true.
    pub flow_id: String,
    /// Flow selector.
    pub flow_selector: String,
    /// Email headers which must be present in the message.
    pub headers: Vec<Header>,
    /// Sender email address or phone number.
    pub sender: String,
    /// Source ID which must have submitted the message.
    pub source_id: String,
}

/// A processing step in a flow.  Every field but the type discriminator is
/// optional and only applicable to its own step type.
pub struct FlowStep {
    /// Required when the type is `addAttachment`; wire name `addAttachment`.
    pub add_attachment: Option<FlowStepAddAttachment>,
    /// Only applicable when the type is `aggregate`.
    pub aggregate: Option<FlowStepAggregate>,
    /// Comma separated list of link domains to modify for analytics
    /// parameters (type `analytics`); wire name `applyToLinkDomains`.
    pub apply_to_link_domains: Option<String>,
    /// Required when the type is `archive`.
    pub archive: Option<FlowStepArchive>,
    /// Only applicable when the type is `qamail`.
    pub divisor: Option<u64>,
    /// Wire name `enabledExpression`.
    pub enabled_expression: Option<String>,
    /// Whether the contact is required (type `mailPlusContact`); wire name
    /// `errorOnNotFound`.
    pub error_on_not_found: Option<bool>,
    /// Required when the type is `externalContent`; wire name
    /// `externalContent`.
    pub external_content: Option<FlowStepExternalContent>,
    /// Required when the type is `externalData`; wire name `externalData`.
    pub external_data: Option<FlowStepExternalData>,
    /// Required when the type is `extractdata`; wire name `extractData`.
    pub extract_data: Option<FlowStepExtractData>,
    /// Flow step ID.
    pub id: Option<String>,
    /// Credentials for retrieving contacts from MailPlus (type
    /// `mailPlusContact`); wire name `mailPlusApiCredentials`.
    pub mail_plus_api_credentials: Option<MailPlusAPICredentials>,
    /// Overwrite existing URL parameters in links (type `analytics`); wire
    /// name `overwriteUrlParameters`.
    pub overwrite_url_parameters: Option<bool>,
    /// Only applicable when the type is `resubmitMessage`; wire name
    /// `resubmitMessage`.
    pub resubmit_message: Option<FlowStepResubmitMessage>,
    /// Required when the type is `rewriteRecipient`; wire name
    /// `rewriteRecipient`.
    pub rewrite_recipient: Option<FlowStepRewriteRecipient>,
    /// Only applicable when the type is `schedule`.
    pub schedule: Option<FlowStepSchedule>,
    /// Required when the type is `addHeader`; wire name `setHeader`.
    pub set_header: Option<FlowStepSetHeader>,
    /// Required when the type is `setSender`; wire name `setSender`.
    pub set_sender: Option<FlowStepSetSender>,
    /// Template for the new subject (type `subject`); wire name
    /// `subjectTemplate`.
    pub subject_template: Option<String>,
    /// Only applicable when the type is `template`.
    pub template: Option<ObjectDescription>,
    /// Flow step type; wire name `type`.
    pub ty: ty::flow_step::Type,
    /// Email address the BCC mail will be sent to (type `qamail`).
    pub to: Option<String>,
    /// URL parameters to add to all links; wire name
    /// `urlParametersTemplate`.
    pub url_parameters_template: Option<String>,
}

impl FlowStep {
    /// A `template` flow step for the given template: every other optional
    /// field is unset.
    pub fn template(template: ObjectDescription) -> (r: Self)
        ensures
            r.ty == ty::flow_step::Type::Template,
            r.template == Some(template),
            r.add_attachment is None,
            r.aggregate is None,
            r.apply_to_link_domains is None,
            r.archive is None,
            r.divisor is None,
            r.enabled_expression is None,
            r.error_on_not_found is None,
            r.external_content is None,
            r.external_data is None,
            r.extract_data is None,
            r.id is None,
            r.mail_plus_api_credentials is None,
            r.overwrite_url_parameters is None,
            r.resubmit_message is None,
            r.rewrite_recipient is None,
            r.schedule is None,
            r.set_header is None,
            r.set_sender is None,
            r.subject_template is None,
            r.to is None,
            r.url_parameters_template is None,
    {
        Self { template: Some(template), ..Self::fill_none(ty::flow_step::Type::Template) }
    }

    /// A flow step of the given type with every optional field unset.
    pub fn fill_none(ty: ty::flow_step::Type) -> (r: Self)
        ensures
            r.ty == ty,
            r.add_attachment is None,
            r.aggregate is None,
            r.apply_to_link_domains is None,
            r.archive is None,
            r.divisor is None,
            r.enabled_expression is None,
            r.error_on_not_found is None,
            r.external_content is None,
            r.external_data is None,
            r.extract_data is None,
            r.id is None,
            r.mail_plus_api_credentials is None,
            r.overwrite_url_parameters is None,
            r.resubmit_message is None,
            r.rewrite_recipient is None,
            r.schedule is None,
            r.set_header is None,
            r.set_sender is None,
            r.subject_template is None,
            r.template is None,
            r.to is None,
            r.url_parameters_template is None,
    {
        Self {
            ty,
            add_attachment: None,
            aggregate: None,
            apply_to_link_domains: None,
            archive: None,
            divisor: None,
            enabled_expression: None,
            error_on_not_found: None,
            external_content: None,
            external_data: None,
            extract_data: None,
            id: None,
            mail_plus_api_credentials: None,
            overwrite_url_parameters: None,
            resubmit_message: None,
            rewrite_recipient: None,
            schedule: None,
            set_header: None,
            set_sender: None,
            subject_template: None,
            template: None,
            to: None,
            url_parameters_template: None,
        }
    }
}

pub struct FlowStepAddAttachment {
    /// URL to load the attachment from; template variables can be used.
    pub url_template: String,
}

pub struct FlowStepAggregate {
    pub always_send_first: bool,
    pub max_time_seconds: u64,
    pub quiet_time_seconds: u64,
}

pub struct FlowStepArchive {
    /// Whether this archive is available for the online version link.
    pub online_link: bool,
    /// ISO8601 period for a shorter retention time: `P1M`, `P3M`, `P6M` or
    /// `P1Y`; empty applies the account retention time.
    pub retention: String,
}

pub struct FlowStepExternalContent {
    /// Variable to store the external content in.
    pub result_variable: String,
    /// URL to load the external content from; template variables can be
    /// used.
    pub url_template: String,
}

pub struct FlowStepExternalData {
    /// When true the result variable also contains the response headers;
    /// when false, just the response body.
    pub full_response_in_variable: bool,
    /// Template text for the request body (`POST`, `PUT` and `PATCH` only).
    pub request_body_template: String,
    /// Request headers for the external data HTTP request.
    pub request_headers: Vec<Header>,
    /// HTTP request method.
    pub request_method: ty::flow_step_external_data::RequestMethod,
    /// Format of the external data; valid values: `json`.
    pub result_format: String,
    /// Variable to store the external content in.
    pub result_variable: String,
    /// URL to load the external content from; template variables can be
    /// used.
    pub url_template: String,
}

pub struct FlowStepExtractData {
    pub data_type: String,
    pub filename: String,
    pub html_decode_text: bool,
    pub mime_type: String,
    pub remove_mime_part: bool,
    pub selector: String,
}

pub struct FlowStepResubmitMessage {
    /// Account to submit the message to.
    pub account: ObjectDescription,
    pub duplicate_message: bool,
    /// Selector of the flow to submit the message to.
    pub flow_selector: String,
    /// Name of the header to add to the email.
    pub header_name: String,
    /// Value to set in the header.
    pub header_value: String,
    /// Source to submit the message to.
    pub source: ObjectDescription,
}

pub struct FlowStepRewriteRecipient {
    pub message_type: String,
    pub recipient_name_template: String,
    pub recipient_template: String,
}

pub struct FlowStepSchedule {
    pub max_messages_per_hour: u64,
    pub offset_type: String,
    pub offset_value: u64,
    pub scheduled_time_template: String,
    pub time_range_day0: String,
    pub time_range_day1: String,
    pub time_range_day2: String,
    pub time_range_day3: String,
    pub time_range_day4: String,
    pub time_range_day5: String,
    pub time_range_day6: String,
    pub time_zone: String,
}

pub struct FlowStepSetHeader {
    /// Name of the header to add to the email.
    pub header_name: String,
    /// Value to set in the header.
    pub header_value: String,
}

pub struct FlowStepSetSender {
    pub sender_name_template: String,
    pub sender_set_name: bool,
    pub sender_template: String,
}

/// Message flow template.
pub struct FlowTemplate {
    /// Flow description.
    pub description: String,
    pub editable: bool,
    /// Flow template ID.
    pub id: String,
    /// Flow steps that each message in this flow will be processed by.
    pub steps: Vec<FlowStep>,
    /// Id of the parent flow.
    pub template_id: String,
}

pub struct Header {
    /// Header name.
    pub name: String,
    /// Header value.
    pub value: String,
}

pub struct InboundRecipient {
    pub destination_receipient: String,
    pub inbound_address: String,
}

/// Spotler API credentials.
pub struct MailPlusAPICredentials {
    /// Consumer key.
    pub consumer_key: String,
    /// Consumer secret.
    pub consumer_secret: String,
}

pub struct Message {
    /// The time the platform was done processing this message.
    pub backend_done: ty::Date,
    /// The time the platform started processing this message.
    pub backend_start: ty::Date,
    /// Message events, ordered by received, new events first.
    pub events: Vec<MessageEvent>,
    /// Flow this message was processed in.
    pub flow: ObjectDescription,
    /// The email address in the `From` email header.
    pub from: String,
    /// The address in the `From` email header.
    pub from_address: Address,
    /// E-Mail headers of the submitted email message.
    pub headers_in: Vec<Header>,
    /// Headers of the final e-mail.
    pub headers_out: Vec<Header>,
    /// Message id.
    pub id: String,
    /// Link for the message details page, with resend button.
    pub message_details_link: String,
    /// Content of the `Message-ID` email header.
    pub message_id_header: String,
    pub message_type: ty::MessageType,
    /// Last online link.
    pub online_link: String,
    /// Recipient address.
    pub recipient_address: String,
    /// Sender address.
    pub sender_address: String,
    /// Source system that submitted this message.
    pub source: ObjectDescription,
    /// Current message status.
    pub status: String,
    /// Message subject (email only).
    pub subject: String,
    /// The time this message was submitted.
    pub submitted: ty::Date,
    /// Message tags.
    pub tags: Vec<String>,
    /// The recipients in the `To` email header.
    pub to_address_list: Vec<Address>,
    /// The SMTP transaction id, returned with the SMTP `250` response.
    pub transaction_id: String,
}

/// Archived message text and/or HTML.
pub struct MessageArchive {
    /// Attachments, without the content (email only).
    pub attachment: Vec<Attachment>,
    pub data: Object,
    /// The archive flow step that created this archived message.
    pub flow_step_id: String,
    /// Archived message HTML.
    pub html: String,
    /// Link for the message details page with a resend button (email only).
    pub message_details_link: String,
    pub message_type: ty::MessageType,
    /// Online link (email only).
    pub online_link: String,
    /// Whether this archive is available for the online version link.
    pub online_version: bool,
    /// Archived message subject.
    pub subject: String,
    /// Archived message text.
    pub text: String,
}

/// Message event.
pub struct MessageEvent {
    /// Event data.
    pub data: ty::Base64,
    pub device_category: String,
    /// Event data.
    pub extra_data: ty::Empty,
    /// Message event ID.
    pub id: String,
    /// Database insert date.
    pub inserted: ty::Empty,
    pub link_name: String,
    pub link_target: String,
    /// Message ID.
    pub message_id: String,
    /// Message tags.
    pub message_tags: Vec<String>,
    /// MTA that reported this event.
    pub mta: String,
    pub operating_system: String,
    pub operating_system_version: String,
    pub received: ty::Date,
    pub referer: String,
    pub remote_address: String,
    /// Bounce snippet or SMTP conversation snippet.
    pub snippet: String,
    /// Bounce sub type.
    pub sub_type: ty::Empty,
    /// Custom event type.
    pub tag: ty::Empty,
    pub ty: ty::TyCustom,
    pub user_agent: String,
    pub user_agent_display_name: String,
    pub user_agent_string: String,
    pub user_agent_type: String,
    pub user_agent_version: String,
}

/// Messages that could not be processed.
pub struct MessageHold {
    /// The time the platform was done processing this message.
    pub backend_done: ty::Date,
    /// MIME message data or text for SMS messages.
    pub data: ty::Base64,
    /// Only for SMS messages.
    pub data_coding: u8,
    /// Message error text.
    pub error_text: String,
    pub extra_data: Object,
    /// The selected flow.
    pub flow: ObjectDescription,
    /// Message ID.
    pub message_id: String,
    pub message_ty: ty::MessageType,
    /// Message processing failure reason.
    pub reason: String,
    /// Message recipient address.
    pub recipient: String,
    /// Message sender address.
    pub sender: String,
    /// Source system that submitted this message.
    pub source: ObjectDescription,
    /// Message status.
    pub status: String,
    /// Message submit date.
    pub submitted: ty::Date,
    /// Transaction ID.
    pub transaction_id: String,
}

/// Message event.
pub struct MessageReturn {
    /// Event data.
    pub data: ty::Base64,
    pub device_category: String,
    /// Event data.
    pub extra_data: ty::Empty,
    /// Message event ID.
    pub id: String,
    /// Database insert date.
    pub inserted: ty::Empty,
    pub link_name: String,
    pub link_target: String,
    /// Message ID.
    pub message_id: String,
    /// Message tags.
    pub message_tags: Vec<String>,
    /// MTA that reported this event.
    pub mta: String,
    pub operating_system: String,
    pub operating_system_version: String,
    /// Event date.
    pub received: ty::Date,
    pub referer: String,
    pub remote_address: String,
    /// Bounce snippet or SMTP conversation snippet.
    pub snippet: String,
    pub source_mta: ty::Empty,
    /// Bounce sub type.
    pub sub_type: ty::Empty,
    /// Custom event type.
    pub tag: ty::Empty,
    pub ty: ty::TyCustom,
    pub user_agent: String,
    pub user_agent_display_name: String,
    pub user_agent_string: String,
    pub user_agent_type: String,
    pub user_agent_version: String,
}

/// Message statistics summary.
pub struct MessageSummary {
    /// Average delivery time in milliseconds.
    pub avarage_deliver_time_millis: u64,
    /// Number of times a link has been clicked.
    pub clicked: u64,
    /// Number of messages delivered.
    pub delivered: u64,
    /// Number of times a message has been opened.
    pub opened: u64,
    /// Number of messages processed.
    pub processed: u64,
    /// Number of messages sent.
    pub sent: u64,
    /// Number of messages in which a link has been clicked.
    pub unique_clicked: u64,
    /// Number of messages that have been opened.
    pub unique_opened: u64,
}

pub struct NamedSample {
    pub name: String,
    pub other: bool,
    pub value: u64,
}

/// Generic resource model with an ID and description.
pub struct ObjectDescription {
    /// Resource description; omitted from request bodies when unset.
    pub description: Option<String>,
    /// Resource ID.
    pub id: String,
}

/// Statistics for a single recipient.
pub struct Recipient {
    /// Recipient email address or phone number.
    pub address: String,
    /// One or more filters for this recipient.
    pub filters: Vec<Filter>,
    /// Message statistics for this recipient.
    pub message_summary: MessageSummary,
}

pub struct ResendMessage {
    /// Override recipient email address or phone number.
    pub recipient_address: String,
}

pub struct Sample {
    pub timestamp: ty::Date,
    pub value: u64,
}

pub struct SampleMessage {
    pub created: ty::Date,
    pub description: String,
    pub extra_data: Object,
    pub from_address: String,
    pub from_name: String,
    pub id: String,
    pub message_type: String,
    pub mimedata: ty::Base64,
    pub sender: String,
    pub source: ObjectDescription,
}

/// A sender domain configures which return-path and online tracking domain
/// is used to send messages; DKIM keys are created for each one.
pub struct SenderDomain {
    /// List of DNS records that should exist.
    pub dns_records: Vec<DnsRecord>,
    /// ID of this sender domain.
    pub id: String,
    /// Domain used for bounce receiving, usually a subdomain of the sender
    /// domain.
    pub return_path_domain: String,
    /// Domain used to select this sender domain for emails with a matching
    /// `From` header.
    pub sender_domain: String,
    /// Only filled when DNS records are validated.
    pub warnings: Vec<Error>,
    /// Domain used for online tracking, usually a subdomain of the sender
    /// domain.
    pub web_domain: String,
}

/// Sender identities are used to rewrite sender information.
pub struct SenderIdentity {
    pub account_fallback: bool,
    pub description: String,
    pub dkim_keys: Vec<DkimKey>,
    pub id: String,
    pub return_path_domain: String,
    pub selection_type: String,
    pub selection_value: String,
    pub sender_email: String,
    pub sender_name: String,
    pub web_domain: String,
}

pub struct SimulateMessage {
    /// Attachments (email only).
    pub attachments: Vec<Attachment>,
    /// Extra data that will be available in templates.
    pub data: Object,
    pub delivery_notification_type: ty::DeliveryNotificationType,
    /// Freely configurable value that can be used to select a flow or one of
    /// its variants.
    pub flow_selector: String,
    /// From header address (email only).
    pub header_from_address: String,
    /// From header name (email only).
    pub header_from_name: String,
    /// To header address (email only).
    pub header_to_address: String,
    /// To header name (email only).
    pub header_to_name: String,
    /// Email headers.
    pub headers: Vec<Header>,
    /// Email HTML content (email only).
    pub html: String,
    pub message_type: ty::MessageType,
    /// Complete email MIME message with headers (email only).
    pub mimedata: ty::Base64,
    /// Recipient email address or phone number, without display name.
    pub recipient_address: String,
    pub schedule_at: ty::Date,
    /// Sender email address or phone number, without display name.
    pub sender_address: String,
    pub source_id: String,
    /// Email subject.
    pub subject: String,
    /// Tags.
    pub tags: Vec<String>,
    /// Text content.
    pub text: String,
}

pub struct SimulateMessageResult {
    /// Attachments, without the content (email only).
    pub attachments: Vec<Attachment>,
    pub data: Object,
    pub flow: ObjectDescription,
    /// Simulated message HTML.
    pub html: String,
    pub message_type: ty::MessageType,
    /// Simulated message subject.
    pub subject: String,
    /// Simulated message text.
    pub text: String,
}

/// Information about a source system.  A source system can submit messages
/// to the platform.
pub struct Source {
    /// Source description.
    pub description: String,
    /// Email DSN messages will be sent to this address.
    pub dsn_address: String,
    /// Disable sending DSN messages for this source.
    pub dsn_disable: String,
    /// Email feedback loop messages will be sent to this address.
    pub feedback_loop_address: String,
    /// Address for human readable notifications for undelivered messages.
    pub human_readalbe_dsn_address: String,
    /// Enable human readable notifications for undelivered messages.
    pub human_readable_dsn_enable: bool,
    /// Source ID.
    pub id: String,
    /// Date this source was last active.
    pub last_active: ty::Date,
    /// Maximum message size in bytes.
    pub max_message_size: u64,
    /// Message statistics summary for this source.
    pub message_summary: MessageSummary,
    /// Message statistics for this source.
    pub statistics: Vec<Sample>,
    pub tis_required: bool,
    pub ty: ty::source::Type,
}

/// An email or sms message that can be submitted to the platform.
pub struct SubmitMessage {
    /// Attachments (email only); omitted from the body when unset.
    pub attachments: Option<Vec<Attachment>>,
    /// Extra data that will be available in templates, as JSON text.
    pub data: Object,
    /// Omitted from the body when unset; wire name
    /// `deliveryNotificationType`.
    pub delivery_notification_type: Option<ty::DeliveryNotificationType>,
    /// Freely configurable value that can be used to select a flow or one of
    /// its variants; omitted when unset; wire name `flowSelector`.
    pub flow_selector: Option<String>,
    /// From header address (email only); wire name `headerFromAddress`.
    pub header_from_address: String,
    /// From header name (email only); wire name `headerFromName`.
    pub header_from_name: String,
    /// To header address (email only); omitted when unset; wire name
    /// `headerToAddress`.
    pub header_to_address: Option<String>,
    /// To header name (email only); wire name `headerToName`.
    pub header_to_name: String,
    /// Email headers.
    pub headers: Vec<Header>,
    /// Email HTML content (email only); omitted when unset.
    pub html: Option<String>,
    /// Wire name `messageType`.
    pub message_type: ty::MessageType,
    /// Complete email MIME message with headers (email only); omitted when
    /// unset.
    pub mimedata: Option<ty::Base64>,
    /// Recipient email address or phone number, without display name; wire
    /// name `recipientAddress`.
    pub recipient_address: String,
    /// Omitted when unset; wire name `scheduleAt`.
    pub schedule_at: Option<ty::Date>,
    /// Sender email address or phone number, without display name; wire
    /// name `senderAddress`.
    pub sender_address: String,
    /// Email subject.
    pub subject: String,
    /// Tags; omitted when unset.
    pub tags: Option<Vec<String>>,
    /// Text content; omitted when unset.
    pub text: Option<String>,
}

/// A content template.
pub struct Template {
    /// Content-ID header (required for disposition related); custom
    /// content-types only.
    pub content_id: String,
    /// Template content.
    pub data: String,
    /// Decode Base64; custom content-types only.
    pub decode_base64: bool,
    /// Template description.
    pub description: String,
    /// Content-Disposition header for the attachment; custom content-types
    /// only.
    pub disposition: ty::template::Disposition,
    /// Content filename; custom content-types and
    /// `application/vnd.flowmailer.itext+pdf` only.
    pub filename: String,
    /// Template ID.
    pub id: String,
    /// Supported mime types: `text/plain`, `text/html` and
    /// `application/vnd.flowmailer.itext+pdf`.
    pub mime_type: ty::template::MimeType,
    /// The only supported template engine is `freemarker-2.3.20`.
    pub template_engine: ty::template::TemplateEngine,
}

} // verus!
