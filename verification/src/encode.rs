//! The platform's JSON body encoding, written out by hand with an exact
//! contract.
//!
//! A message submission body is one JSON object.  Its spec-level text is
//! pinned character by character by [`submit_message_json`]: fields that are
//! always present come first, optional fields follow, each emitted only when
//! set, with the wire names the platform expects.  String content is escaped
//! as JSON requires; `data` is already JSON text and is spliced in verbatim.

use vstd::prelude::*;

use crate::resources::{
    Attachment, Flow, FlowStep, FlowStepAddAttachment, FlowStepAggregate, FlowStepArchive,
    FlowStepExternalContent, FlowStepExternalData, FlowStepExtractData, FlowStepResubmitMessage,
    FlowStepRewriteRecipient, FlowStepSchedule, FlowStepSetHeader, FlowStepSetSender, Header,
    MailPlusAPICredentials, MessageSummary, ObjectDescription, Sample, SubmitMessage,
};
use crate::ty::flow_step_external_data::RequestMethod;
use crate::ty::{Date, DeliveryNotificationType, MessageType};

verus! {

/// Whether the text is one valid JSON document.  Stands for what
/// `serde_json` accepts; no contract states its value on given texts.
pub uninterp spec fn is_json_text(s: Seq<char>) -> bool;

/// Relies on `serde_json::from_str`: whether the text parses as one JSON
/// document, a function of the text alone.
#[verifier::external_body]
pub(crate) fn json_is_valid(s: &str) -> (r: bool)
    ensures
        r == is_json_text(s@),
{
    serde_json::from_str::<serde_json::Value>(s).is_ok()
}

/// Concatenation of character sequences is associative.
proof fn seq_assoc(a: Seq<char>, b: Seq<char>, c: Seq<char>)
    ensures
        (a + b) + c == a + (b + c),
{
    assert((a + b) + c =~= a + (b + c));
}

/// The empty sequence is a right identity of concatenation.
proof fn seq_add_empty(a: Seq<char>)
    ensures
        a + Seq::<char>::empty() == a,
{
    assert(a + Seq::<char>::empty() =~= a);
}

/// The empty sequence is a left identity of concatenation.
proof fn seq_empty_add(a: Seq<char>)
    ensures
        Seq::<char>::empty() + a == a,
{
    assert(Seq::<char>::empty() + a =~= a);
}

/// Relies on `String::push`: appends one character.
#[verifier::external_body]
fn push_char(s: &mut String, c: char)
    ensures
        final(s)@ == old(s)@ + seq![c],
{
    s.push(c);
}

/// The decimal digit character for `n` in `0..10`.
pub open spec fn dec_digit(n: int) -> char {
    if n == 0 {
        '0'
    } else if n == 1 {
        '1'
    } else if n == 2 {
        '2'
    } else if n == 3 {
        '3'
    } else if n == 4 {
        '4'
    } else if n == 5 {
        '5'
    } else if n == 6 {
        '6'
    } else if n == 7 {
        '7'
    } else if n == 8 {
        '8'
    } else {
        '9'
    }
}

/// The decimal digits of `n`, most significant first, no leading zeros.
pub open spec fn dec_digits(n: nat) -> Seq<char>
    decreases n,
{
    if n < 10 {
        seq![dec_digit(n as int)]
    } else {
        dec_digits(n / 10) + seq![dec_digit((n % 10) as int)]
    }
}

/// The lowercase hexadecimal digit character for `n` in `0..16`.
pub open spec fn hex_digit(n: int) -> char {
    if n < 10 {
        dec_digit(n)
    } else if n == 10 {
        'a'
    } else if n == 11 {
        'b'
    } else if n == 12 {
        'c'
    } else if n == 13 {
        'd'
    } else if n == 14 {
        'e'
    } else {
        'f'
    }
}

/// The JSON escape of one character inside a string literal: quote and
/// backslash are escaped, the common control characters get their short
/// escapes, other control characters the `\u00XX` form, and everything else
/// stands for itself.
pub open spec fn json_escape_char(c: char) -> Seq<char> {
    if c == '"' {
        seq!['\\', '"']
    } else if c == '\\' {
        seq!['\\', '\\']
    } else if c == '\n' {
        seq!['\\', 'n']
    } else if c == '\r' {
        seq!['\\', 'r']
    } else if c == '\t' {
        seq!['\\', 't']
    } else if (c as u32) < 32 {
        seq!['\\', 'u', '0', '0', hex_digit((c as u32) as int / 16), hex_digit(
            (c as u32) as int % 16,
        )]
    } else {
        seq![c]
    }
}

/// The JSON escape of a whole string body.
pub open spec fn json_escape(s: Seq<char>) -> Seq<char>
    decreases s.len(),
{
    if s.len() == 0 {
        Seq::empty()
    } else {
        json_escape(s.drop_last()) + json_escape_char(s.last())
    }
}

/// A JSON string literal: the escaped body between quotes.
pub open spec fn json_string(s: Seq<char>) -> Seq<char> {
    seq!['"'] + json_escape(s) + seq!['"']
}

/// The text between the brackets of a JSON array: the items joined by
/// commas, in order.
pub open spec fn array_items(items: Seq<Seq<char>>) -> Seq<char>
    decreases items.len(),
{
    if items.len() == 0 {
        Seq::empty()
    } else {
        array_items(items.drop_last()) + (if items.len() == 1 {
            Seq::<char>::empty()
        } else {
            ","@
        }) + items.last()
    }
}

/// A JSON array of the given item texts, in order.
pub open spec fn array_json(items: Seq<Seq<char>>) -> Seq<char> {
    "["@ + array_items(items) + "]"@
}

/// The JSON object for one email header.
pub open spec fn header_json(h: Header) -> Seq<char> {
    "{\"name\":"@ + json_string(h.name@) + ",\"value\":"@ + json_string(h.value@) + "}"@
}

/// The item texts of a header array.
pub open spec fn header_items(hs: Seq<Header>) -> Seq<Seq<char>> {
    hs.map_values(|h: Header| header_json(h))
}

/// The JSON object for one attachment: the disposition always, the optional
/// fields only when set.
pub open spec fn attachment_json(a: Attachment) -> Seq<char> {
    "{\"disposition\":"@ + json_string(a.disposition@) + (match &a.content {
        Some(b) => ",\"content\":"@ + json_string(b@),
        None => Seq::<char>::empty(),
    }) + (match &a.content_id {
        Some(s) => ",\"content_id\":"@ + json_string(s@),
        None => Seq::<char>::empty(),
    }) + (match &a.content_type {
        Some(s) => ",\"content_type\":"@ + json_string(s@),
        None => Seq::<char>::empty(),
    }) + (match &a.filename {
        Some(s) => ",\"filename\":"@ + json_string(s@),
        None => Seq::<char>::empty(),
    }) + "}"@
}

/// The item texts of an attachment array.
pub open spec fn attachment_items(items: Seq<Attachment>) -> Seq<Seq<char>> {
    items.map_values(|a: Attachment| attachment_json(a))
}

/// The item texts of a string array.
pub open spec fn string_items(items: Seq<String>) -> Seq<Seq<char>> {
    items.map_values(|s: String| json_string(s@))
}

/// The JSON object for a timestamp.
pub open spec fn date_json(d: Date) -> Seq<char> {
    "{\"year\":"@ + dec_digits(d.year as nat) + ",\"month\":"@ + dec_digits(d.month as nat)
        + ",\"day\":"@ + dec_digits(d.day as nat) + ",\"hour\":"@ + dec_digits(d.hour as nat)
        + ",\"minute\":"@ + dec_digits(d.minute as nat) + ",\"second\":"@ + dec_digits(
        d.second as nat,
    ) + "}"@
}

/// The wire name of a message type.
pub open spec fn message_type_name(t: MessageType) -> Seq<char> {
    match t {
        MessageType::Email => "EMAIL"@,
        MessageType::SMS => "SMS"@,
        MessageType::Letter => "LETTER"@,
    }
}

/// The wire name of a delivery notification type.
pub open spec fn delivery_notification_name(t: DeliveryNotificationType) -> Seq<char> {
    match t {
        DeliveryNotificationType::Disabled => "NONE"@,
        DeliveryNotificationType::Failure => "FAILURE"@,
        DeliveryNotificationType::DeliveryAndFailure => "DELIVERY_AND_FAILURE"@,
    }
}

/// The fields of a submission body that are always present, in order:
/// the `data` JSON text verbatim, then the addresses, names, headers,
/// message type and subject.
pub open spec fn submit_message_fixed_json(m: SubmitMessage) -> Seq<char> {
    "{\"data\":"@ + m.data@ + ",\"headerFromAddress\":"@ + json_string(m.header_from_address@)
        + ",\"headerFromName\":"@ + json_string(m.header_from_name@) + ",\"headerToName\":"@
        + json_string(m.header_to_name@) + ",\"headers\":"@ + array_json(header_items(m.headers@))
        + ",\"messageType\":"@ + json_string(message_type_name(m.message_type))
        + ",\"recipientAddress\":"@ + json_string(m.recipient_address@) + ",\"senderAddress\":"@
        + json_string(m.sender_address@) + ",\"subject\":"@ + json_string(m.subject@)
}

/// The first group of optional fields: attachments, delivery notification
/// type and flow selector, each present exactly when set.
pub open spec fn submit_message_optional_a_json(m: SubmitMessage) -> Seq<char> {
    (match &m.attachments {
        Some(a) => ",\"attachments\":"@ + array_json(attachment_items(a@)),
        None => Seq::<char>::empty(),
    }) + (match m.delivery_notification_type {
        Some(d) => ",\"deliveryNotificationType\":"@ + json_string(delivery_notification_name(d)),
        None => Seq::<char>::empty(),
    }) + (match &m.flow_selector {
        Some(s) => ",\"flowSelector\":"@ + json_string(s@),
        None => Seq::<char>::empty(),
    })
}

/// The second group of optional fields: to-header address, HTML content and
/// MIME data, each present exactly when set.
pub open spec fn submit_message_optional_b_json(m: SubmitMessage) -> Seq<char> {
    (match &m.header_to_address {
        Some(s) => ",\"headerToAddress\":"@ + json_string(s@),
        None => Seq::<char>::empty(),
    }) + (match &m.html {
        Some(s) => ",\"html\":"@ + json_string(s@),
        None => Seq::<char>::empty(),
    }) + (match &m.mimedata {
        Some(b) => ",\"mimedata\":"@ + json_string(b@),
        None => Seq::<char>::empty(),
    })
}

/// The third group of optional fields: schedule date, tags and text content,
/// each present exactly when set.
pub open spec fn submit_message_optional_c_json(m: SubmitMessage) -> Seq<char> {
    (match m.schedule_at {
        Some(d) => ",\"scheduleAt\":"@ + date_json(d),
        None => Seq::<char>::empty(),
    }) + (match &m.tags {
        Some(t) => ",\"tags\":"@ + array_json(string_items(t@)),
        None => Seq::<char>::empty(),
    }) + (match &m.text {
        Some(s) => ",\"text\":"@ + json_string(s@),
        None => Seq::<char>::empty(),
    })
}

/// The optional fields of a submission body, each present exactly when set.
pub open spec fn submit_message_optional_json(m: SubmitMessage) -> Seq<char> {
    submit_message_optional_a_json(m) + submit_message_optional_b_json(m)
        + submit_message_optional_c_json(m)
}

/// The complete submission body for a message: one JSON object, the fields
/// that are always present first, then each optional field exactly when it
/// is set.  `data` is already JSON text and appears verbatim.
pub open spec fn submit_message_json(m: SubmitMessage) -> Seq<char> {
    submit_message_fixed_json(m) + submit_message_optional_json(m) + "}"@
}

/// The decimal digit character for `n` in `0..10`.
fn dec_digit_char(n: u64) -> (c: char)
    requires
        n < 10,
    ensures
        c == dec_digit(n as int),
{
    if n == 0 {
        '0'
    } else if n == 1 {
        '1'
    } else if n == 2 {
        '2'
    } else if n == 3 {
        '3'
    } else if n == 4 {
        '4'
    } else if n == 5 {
        '5'
    } else if n == 6 {
        '6'
    } else if n == 7 {
        '7'
    } else if n == 8 {
        '8'
    } else {
        '9'
    }
}

/// The lowercase hexadecimal digit character for `n` in `0..16`.
fn hex_digit_char(n: u32) -> (c: char)
    requires
        n < 16,
    ensures
        c == hex_digit(n as int),
{
    if n < 10 {
        dec_digit_char(n as u64)
    } else if n == 10 {
        'a'
    } else if n == 11 {
        'b'
    } else if n == 12 {
        'c'
    } else if n == 13 {
        'd'
    } else if n == 14 {
        'e'
    } else {
        'f'
    }
}

/// Appends the decimal digits of `n`.
fn push_dec_u64(out: &mut String, n: u64)
    ensures
        final(out)@ == old(out)@ + dec_digits(n as nat),
    decreases n,
{
    if n < 10 {
        push_char(out, dec_digit_char(n));
    } else {
        push_dec_u64(out, n / 10);
        push_char(out, dec_digit_char(n % 10));
        proof {
            assert(out@ =~= old(out)@ + dec_digits(n as nat));
        }
    }
}

/// Appends the JSON escape of one character.
fn push_escaped_char(out: &mut String, c: char)
    ensures
        final(out)@ == old(out)@ + json_escape_char(c),
{
    if c == '"' {
        push_char(out, '\\');
        push_char(out, '"');
    } else if c == '\\' {
        push_char(out, '\\');
        push_char(out, '\\');
    } else if c == '\n' {
        push_char(out, '\\');
        push_char(out, 'n');
    } else if c == '\r' {
        push_char(out, '\\');
        push_char(out, 'r');
    } else if c == '\t' {
        push_char(out, '\\');
        push_char(out, 't');
    } else if (c as u32) < 32 {
        let code = c as u32;
        push_char(out, '\\');
        push_char(out, 'u');
        push_char(out, '0');
        push_char(out, '0');
        push_char(out, hex_digit_char(code / 16));
        push_char(out, hex_digit_char(code % 16));
    } else {
        push_char(out, c);
    }
    proof {
        assert(out@ =~= old(out)@ + json_escape_char(c));
    }
}

/// Appends the JSON string literal for `s`.
fn push_json_string(out: &mut String, s: &str)
    ensures
        final(out)@ == old(out)@ + json_string(s@),
{
    let ghost orig: Seq<char> = out@;
    push_char(out, '"');
    let n = s.unicode_len();
    let mut i: usize = 0;
    while i < n
        invariant
            i <= n,
            n == s@.len(),
            out@ == orig + seq!['"'] + json_escape(s@.take(i as int)),
        decreases n - i,
    {
        let c = s.get_char(i);
        push_escaped_char(out, c);
        proof {
            assert(s@.take(i as int + 1).drop_last() =~= s@.take(i as int));
            assert(s@.take(i as int + 1).last() == s@[i as int]);
            assert(out@ =~= orig + seq!['"'] + json_escape(s@.take(i as int + 1)));
        }
        i = i + 1;
    }
    push_char(out, '"');
    proof {
        assert(s@.take(n as int) =~= s@);
        assert(out@ =~= orig + json_string(s@));
    }
}

/// Appends the JSON object for one email header.
fn push_header_json(out: &mut String, h: &Header)
    ensures
        final(out)@ == old(out)@ + header_json(*h),
{
    out.append("{\"name\":");
    push_json_string(out, h.name.as_str());
    out.append(",\"value\":");
    push_json_string(out, h.value.as_str());
    out.append("}");
    proof {
        assert(out@ =~= old(out)@ + header_json(*h));
    }
}

/// Appends the JSON array of email headers.
fn push_headers_json(out: &mut String, hs: &Vec<Header>)
    ensures
        final(out)@ == old(out)@ + array_json(header_items(hs@)),
{
    let ghost orig: Seq<char> = out@;
    let ghost items: Seq<Seq<char>> = header_items(hs@);
    out.append("[");
    let n = hs.len();
    let mut i: usize = 0;
    while i < n
        invariant
            i <= n,
            n == hs@.len(),
            items == header_items(hs@),
            out@ == orig + "["@ + array_items(items.take(i as int)),
        decreases n - i,
    {
        if i > 0 {
            out.append(",");
        }
        push_header_json(out, &hs[i]);
        proof {
            assert(items.take(i as int + 1).drop_last() =~= items.take(i as int));
            assert(items.take(i as int + 1).last() == header_json(hs@[i as int]));
            assert(out@ =~= orig + "["@ + array_items(items.take(i as int + 1)));
        }
        i = i + 1;
    }
    out.append("]");
    proof {
        assert(items.take(n as int) =~= items);
        assert(out@ =~= orig + array_json(items));
    }
}

/// Appends the JSON object for one attachment.
fn push_attachment_json(out: &mut String, a: &Attachment)
    ensures
        final(out)@ == old(out)@ + attachment_json(*a),
{
    let ghost mut acc: Seq<char> = "{\"disposition\":"@ + json_string(a.disposition@);
    out.append("{\"disposition\":");
    push_json_string(out, a.disposition.as_str());
    proof {
        seq_assoc(old(out)@, "{\"disposition\":"@, json_string(a.disposition@));
        assert(out@ == old(out)@ + acc);
    }
    if let Some(b) = &a.content {
        out.append(",\"content\":");
        push_json_string(out, b.as_str());
    }
    proof {
        match &a.content {
            Some(b) => {
                seq_assoc(old(out)@, acc, ",\"content\":"@);
                seq_assoc(old(out)@, acc + ",\"content\":"@, json_string(b@));
                seq_assoc(acc, ",\"content\":"@, json_string(b@));
            },
            None => {
                seq_add_empty(acc);
            },
        }
        acc = acc + (match &a.content {
            Some(b) => ",\"content\":"@ + json_string(b@),
            None => Seq::<char>::empty(),
        });
        assert(out@ == old(out)@ + acc);
    }
    if let Some(s) = &a.content_id {
        out.append(",\"content_id\":");
        push_json_string(out, s.as_str());
    }
    proof {
        match &a.content_id {
            Some(s) => {
                seq_assoc(old(out)@, acc, ",\"content_id\":"@);
                seq_assoc(old(out)@, acc + ",\"content_id\":"@, json_string(s@));
                seq_assoc(acc, ",\"content_id\":"@, json_string(s@));
            },
            None => {
                seq_add_empty(acc);
            },
        }
        acc = acc + (match &a.content_id {
            Some(s) => ",\"content_id\":"@ + json_string(s@),
            None => Seq::<char>::empty(),
        });
        assert(out@ == old(out)@ + acc);
    }
    if let Some(s) = &a.content_type {
        out.append(",\"content_type\":");
        push_json_string(out, s.as_str());
    }
    proof {
        match &a.content_type {
            Some(s) => {
                seq_assoc(old(out)@, acc, ",\"content_type\":"@);
                seq_assoc(old(out)@, acc + ",\"content_type\":"@, json_string(s@));
                seq_assoc(acc, ",\"content_type\":"@, json_string(s@));
            },
            None => {
                seq_add_empty(acc);
            },
        }
        acc = acc + (match &a.content_type {
            Some(s) => ",\"content_type\":"@ + json_string(s@),
            None => Seq::<char>::empty(),
        });
        assert(out@ == old(out)@ + acc);
    }
    if let Some(s) = &a.filename {
        out.append(",\"filename\":");
        push_json_string(out, s.as_str());
    }
    proof {
        match &a.filename {
            Some(s) => {
                seq_assoc(old(out)@, acc, ",\"filename\":"@);
                seq_assoc(old(out)@, acc + ",\"filename\":"@, json_string(s@));
                seq_assoc(acc, ",\"filename\":"@, json_string(s@));
            },
            None => {
                seq_add_empty(acc);
            },
        }
        acc = acc + (match &a.filename {
            Some(s) => ",\"filename\":"@ + json_string(s@),
            None => Seq::<char>::empty(),
        });
        assert(out@ == old(out)@ + acc);
    }
    out.append("}");
    proof {
        seq_assoc(old(out)@, acc, "}"@);
        acc = acc + "}"@;
        assert(out@ == old(out)@ + acc);
        assert(acc == attachment_json(*a));
    }
}

/// Appends the JSON array of attachments.
fn push_attachments_json(out: &mut String, items: &Vec<Attachment>)
    ensures
        final(out)@ == old(out)@ + array_json(attachment_items(items@)),
{
    let ghost orig: Seq<char> = out@;
    let ghost texts: Seq<Seq<char>> = attachment_items(items@);
    out.append("[");
    let n = items.len();
    let mut i: usize = 0;
    while i < n
        invariant
            i <= n,
            n == items@.len(),
            texts == attachment_items(items@),
            out@ == orig + "["@ + array_items(texts.take(i as int)),
        decreases n - i,
    {
        if i > 0 {
            out.append(",");
        }
        push_attachment_json(out, &items[i]);
        proof {
            assert(texts.take(i as int + 1).drop_last() =~= texts.take(i as int));
            assert(texts.take(i as int + 1).last() == attachment_json(items@[i as int]));
            assert(out@ =~= orig + "["@ + array_items(texts.take(i as int + 1)));
        }
        i = i + 1;
    }
    out.append("]");
    proof {
        assert(texts.take(n as int) =~= texts);
        assert(out@ =~= orig + array_json(texts));
    }
}

/// Appends the JSON array of strings.
fn push_strings_json(out: &mut String, items: &Vec<String>)
    ensures
        final(out)@ == old(out)@ + array_json(string_items(items@)),
{
    let ghost orig: Seq<char> = out@;
    let ghost texts: Seq<Seq<char>> = string_items(items@);
    out.append("[");
    let n = items.len();
    let mut i: usize = 0;
    while i < n
        invariant
            i <= n,
            n == items@.len(),
            texts == string_items(items@),
            out@ == orig + "["@ + array_items(texts.take(i as int)),
        decreases n - i,
    {
        if i > 0 {
            out.append(",");
        }
        push_json_string(out, items[i].as_str());
        proof {
            assert(texts.take(i as int + 1).drop_last() =~= texts.take(i as int));
            assert(texts.take(i as int + 1).last() == json_string(items@[i as int]@));
            assert(out@ =~= orig + "["@ + array_items(texts.take(i as int + 1)));
        }
        i = i + 1;
    }
    out.append("]");
    proof {
        assert(texts.take(n as int) =~= texts);
        assert(out@ =~= orig + array_json(texts));
    }
}

/// Appends the JSON object for a timestamp.
fn push_date_json(out: &mut String, d: &Date)
    ensures
        final(out)@ == old(out)@ + date_json(*d),
{
    out.append("{\"year\":");
    push_dec_u64(out, d.year as u64);
    out.append(",\"month\":");
    push_dec_u64(out, d.month as u64);
    out.append(",\"day\":");
    push_dec_u64(out, d.day as u64);
    out.append(",\"hour\":");
    push_dec_u64(out, d.hour as u64);
    out.append(",\"minute\":");
    push_dec_u64(out, d.minute as u64);
    out.append(",\"second\":");
    push_dec_u64(out, d.second as u64);
    out.append("}");
    proof {
        assert(out@ =~= old(out)@ + date_json(*d));
    }
}

/// Appends the always-present fields of the submission body.
fn push_submit_fixed(out: &mut String, m: &SubmitMessage)
    ensures
        final(out)@ == old(out)@ + submit_message_fixed_json(*m),
{
    let ghost mut acc: Seq<char> = "{\"data\":"@ + m.data@;
    out.append("{\"data\":");
    out.append(m.data.as_str());
    proof {
        seq_assoc(old(out)@, "{\"data\":"@, m.data@);
        assert(out@ == old(out)@ + acc);
    }
    out.append(",\"headerFromAddress\":");
    push_json_string(out, m.header_from_address.as_str());
    proof {
        seq_assoc(old(out)@, acc, ",\"headerFromAddress\":"@);
        seq_assoc(old(out)@, acc + ",\"headerFromAddress\":"@, json_string(m.header_from_address@));
        acc = acc + ",\"headerFromAddress\":"@ + json_string(m.header_from_address@);
        assert(out@ == old(out)@ + acc);
    }
    out.append(",\"headerFromName\":");
    push_json_string(out, m.header_from_name.as_str());
    proof {
        seq_assoc(old(out)@, acc, ",\"headerFromName\":"@);
        seq_assoc(old(out)@, acc + ",\"headerFromName\":"@, json_string(m.header_from_name@));
        acc = acc + ",\"headerFromName\":"@ + json_string(m.header_from_name@);
        assert(out@ == old(out)@ + acc);
    }
    out.append(",\"headerToName\":");
    push_json_string(out, m.header_to_name.as_str());
    proof {
        seq_assoc(old(out)@, acc, ",\"headerToName\":"@);
        seq_assoc(old(out)@, acc + ",\"headerToName\":"@, json_string(m.header_to_name@));
        acc = acc + ",\"headerToName\":"@ + json_string(m.header_to_name@);
        assert(out@ == old(out)@ + acc);
    }
    out.append(",\"headers\":");
    push_headers_json(out, &m.headers);
    proof {
        seq_assoc(old(out)@, acc, ",\"headers\":"@);
        seq_assoc(old(out)@, acc + ",\"headers\":"@, array_json(header_items(m.headers@)));
        acc = acc + ",\"headers\":"@ + array_json(header_items(m.headers@));
        assert(out@ == old(out)@ + acc);
    }
    out.append(",\"messageType\":");
    match m.message_type {
        MessageType::Email => push_json_string(out, "EMAIL"),
        MessageType::SMS => push_json_string(out, "SMS"),
        MessageType::Letter => push_json_string(out, "LETTER"),
    }
    proof {
        seq_assoc(old(out)@, acc, ",\"messageType\":"@);
        seq_assoc(
            old(out)@,
            acc + ",\"messageType\":"@,
            json_string(message_type_name(m.message_type)),
        );
        acc = acc + ",\"messageType\":"@ + json_string(message_type_name(m.message_type));
        assert(out@ == old(out)@ + acc);
    }
    out.append(",\"recipientAddress\":");
    push_json_string(out, m.recipient_address.as_str());
    proof {
        seq_assoc(old(out)@, acc, ",\"recipientAddress\":"@);
        seq_assoc(old(out)@, acc + ",\"recipientAddress\":"@, json_string(m.recipient_address@));
        acc = acc + ",\"recipientAddress\":"@ + json_string(m.recipient_address@);
        assert(out@ == old(out)@ + acc);
    }
    out.append(",\"senderAddress\":");
    push_json_string(out, m.sender_address.as_str());
    proof {
        seq_assoc(old(out)@, acc, ",\"senderAddress\":"@);
        seq_assoc(old(out)@, acc + ",\"senderAddress\":"@, json_string(m.sender_address@));
        acc = acc + ",\"senderAddress\":"@ + json_string(m.sender_address@);
        assert(out@ == old(out)@ + acc);
    }
    out.append(",\"subject\":");
    push_json_string(out, m.subject.as_str());
    proof {
        seq_assoc(old(out)@, acc, ",\"subject\":"@);
        seq_assoc(old(out)@, acc + ",\"subject\":"@, json_string(m.subject@));
        acc = acc + ",\"subject\":"@ + json_string(m.subject@);
        assert(out@ == old(out)@ + acc);
        assert(acc == submit_message_fixed_json(*m));
    }
}

/// Appends the first group of optional submission fields.
fn push_submit_optional_a(out: &mut String, m: &SubmitMessage)
    ensures
        final(out)@ == old(out)@ + submit_message_optional_a_json(*m),
{
    let ghost mut acc: Seq<char> = Seq::<char>::empty();
    proof {
        seq_add_empty(old(out)@);
        assert(out@ == old(out)@ + acc);
    }
    if let Some(a) = &m.attachments {
        out.append(",\"attachments\":");
        push_attachments_json(out, a);
    }
    proof {
        match &m.attachments {
            Some(a) => {
                seq_assoc(old(out)@, acc, ",\"attachments\":"@);
                seq_assoc(
                    old(out)@,
                    acc + ",\"attachments\":"@,
                    array_json(attachment_items(a@)),
                );
                seq_assoc(acc, ",\"attachments\":"@, array_json(attachment_items(a@)));
            },
            None => {
                seq_add_empty(acc);
            },
        }
        acc = acc + (match &m.attachments {
            Some(a) => ",\"attachments\":"@ + array_json(attachment_items(a@)),
            None => Seq::<char>::empty(),
        });
        assert(out@ == old(out)@ + acc);
    }
    if let Some(d) = &m.delivery_notification_type {
        out.append(",\"deliveryNotificationType\":");
        match d {
            DeliveryNotificationType::Disabled => push_json_string(out, "NONE"),
            DeliveryNotificationType::Failure => push_json_string(out, "FAILURE"),
            DeliveryNotificationType::DeliveryAndFailure => push_json_string(
                out,
                "DELIVERY_AND_FAILURE",
            ),
        }
    }
    proof {
        match m.delivery_notification_type {
            Some(d) => {
                seq_assoc(old(out)@, acc, ",\"deliveryNotificationType\":"@);
                seq_assoc(
                    old(out)@,
                    acc + ",\"deliveryNotificationType\":"@,
                    json_string(delivery_notification_name(d)),
                );
                seq_assoc(
                    acc,
                    ",\"deliveryNotificationType\":"@,
                    json_string(delivery_notification_name(d)),
                );
            },
            None => {
                seq_add_empty(acc);
            },
        }
        acc = acc + (match m.delivery_notification_type {
            Some(d) => ",\"deliveryNotificationType\":"@ + json_string(
                delivery_notification_name(d),
            ),
            None => Seq::<char>::empty(),
        });
        assert(out@ == old(out)@ + acc);
    }
    if let Some(s) = &m.flow_selector {
        out.append(",\"flowSelector\":");
        push_json_string(out, s.as_str());
    }
    proof {
        match &m.flow_selector {
            Some(s) => {
                seq_assoc(old(out)@, acc, ",\"flowSelector\":"@);
                seq_assoc(old(out)@, acc + ",\"flowSelector\":"@, json_string(s@));
                seq_assoc(acc, ",\"flowSelector\":"@, json_string(s@));
            },
            None => {
                seq_add_empty(acc);
            },
        }
        acc = acc + (match &m.flow_selector {
            Some(s) => ",\"flowSelector\":"@ + json_string(s@),
            None => Seq::<char>::empty(),
        });
        assert(out@ == old(out)@ + acc);
    }
    proof {
        assert(acc == submit_message_optional_a_json(*m));
    }
}

/// Appends the second group of optional submission fields.
fn push_submit_optional_b(out: &mut String, m: &SubmitMessage)
    ensures
        final(out)@ == old(out)@ + submit_message_optional_b_json(*m),
{
    let ghost mut acc: Seq<char> = Seq::<char>::empty();
    proof {
        seq_add_empty(old(out)@);
        assert(out@ == old(out)@ + acc);
    }
    if let Some(s) = &m.header_to_address {
        out.append(",\"headerToAddress\":");
        push_json_string(out, s.as_str());
    }
    proof {
        match &m.header_to_address {
            Some(s) => {
                seq_assoc(old(out)@, acc, ",\"headerToAddress\":"@);
                seq_assoc(old(out)@, acc + ",\"headerToAddress\":"@, json_string(s@));
                seq_assoc(acc, ",\"headerToAddress\":"@, json_string(s@));
            },
            None => {
                seq_add_empty(acc);
            },
        }
        acc = acc + (match &m.header_to_address {
            Some(s) => ",\"headerToAddress\":"@ + json_string(s@),
            None => Seq::<char>::empty(),
        });
        assert(out@ == old(out)@ + acc);
    }
    if let Some(s) = &m.html {
        out.append(",\"html\":");
        push_json_string(out, s.as_str());
    }
    proof {
        match &m.html {
            Some(s) => {
                seq_assoc(old(out)@, acc, ",\"html\":"@);
                seq_assoc(old(out)@, acc + ",\"html\":"@, json_string(s@));
                seq_assoc(acc, ",\"html\":"@, json_string(s@));
            },
            None => {
                seq_add_empty(acc);
            },
        }
        acc = acc + (match &m.html {
            Some(s) => ",\"html\":"@ + json_string(s@),
            None => Seq::<char>::empty(),
        });
        assert(out@ == old(out)@ + acc);
    }
    if let Some(b) = &m.mimedata {
        out.append(",\"mimedata\":");
        push_json_string(out, b.as_str());
    }
    proof {
        match &m.mimedata {
            Some(b) => {
                seq_assoc(old(out)@, acc, ",\"mimedata\":"@);
                seq_assoc(old(out)@, acc + ",\"mimedata\":"@, json_string(b@));
                seq_assoc(acc, ",\"mimedata\":"@, json_string(b@));
            },
            None => {
                seq_add_empty(acc);
            },
        }
        acc = acc + (match &m.mimedata {
            Some(b) => ",\"mimedata\":"@ + json_string(b@),
            None => Seq::<char>::empty(),
        });
        assert(out@ == old(out)@ + acc);
    }
    proof {
        assert(acc == submit_message_optional_b_json(*m));
    }
}

/// Appends the third group of optional submission fields.
fn push_submit_optional_c(out: &mut String, m: &SubmitMessage)
    ensures
        final(out)@ == old(out)@ + submit_message_optional_c_json(*m),
{
    let ghost mut acc: Seq<char> = Seq::<char>::empty();
    proof {
        seq_add_empty(old(out)@);
        assert(out@ == old(out)@ + acc);
    }
    if let Some(d) = &m.schedule_at {
        out.append(",\"scheduleAt\":");
        push_date_json(out, d);
    }
    proof {
        match m.schedule_at {
            Some(d) => {
                seq_assoc(old(out)@, acc, ",\"scheduleAt\":"@);
                seq_assoc(old(out)@, acc + ",\"scheduleAt\":"@, date_json(d));
                seq_assoc(acc, ",\"scheduleAt\":"@, date_json(d));
            },
            None => {
                seq_add_empty(acc);
            },
        }
        acc = acc + (match m.schedule_at {
            Some(d) => ",\"scheduleAt\":"@ + date_json(d),
            None => Seq::<char>::empty(),
        });
        assert(out@ == old(out)@ + acc);
    }
    if let Some(t) = &m.tags {
        out.append(",\"tags\":");
        push_strings_json(out, t);
    }
    proof {
        match &m.tags {
            Some(t) => {
                seq_assoc(old(out)@, acc, ",\"tags\":"@);
                seq_assoc(old(out)@, acc + ",\"tags\":"@, array_json(string_items(t@)));
                seq_assoc(acc, ",\"tags\":"@, array_json(string_items(t@)));
            },
            None => {
                seq_add_empty(acc);
            },
        }
        acc = acc + (match &m.tags {
            Some(t) => ",\"tags\":"@ + array_json(string_items(t@)),
            None => Seq::<char>::empty(),
        });
        assert(out@ == old(out)@ + acc);
    }
    if let Some(s) = &m.text {
        out.append(",\"text\":");
        push_json_string(out, s.as_str());
    }
    proof {
        match &m.text {
            Some(s) => {
                seq_assoc(old(out)@, acc, ",\"text\":"@);
                seq_assoc(old(out)@, acc + ",\"text\":"@, json_string(s@));
                seq_assoc(acc, ",\"text\":"@, json_string(s@));
            },
            None => {
                seq_add_empty(acc);
            },
        }
        acc = acc + (match &m.text {
            Some(s) => ",\"text\":"@ + json_string(s@),
            None => Seq::<char>::empty(),
        });
        assert(out@ == old(out)@ + acc);
        assert(acc == submit_message_optional_c_json(*m));
    }
}

/// Encodes a message submission as the platform's JSON body.
pub fn encode_submit_message(m: &SubmitMessage) -> (r: String)
    ensures
        r@ == submit_message_json(*m),
{
    let mut out = String::new();
    push_submit_fixed(&mut out, m);
    push_submit_optional_a(&mut out, m);
    push_submit_optional_b(&mut out, m);
    push_submit_optional_c(&mut out, m);
    out.append("}");
    proof {
        seq_empty_add(submit_message_fixed_json(*m));
        seq_assoc(
            submit_message_fixed_json(*m),
            submit_message_optional_a_json(*m),
            submit_message_optional_b_json(*m),
        );
        seq_assoc(
            submit_message_fixed_json(*m),
            submit_message_optional_a_json(*m) + submit_message_optional_b_json(*m),
            submit_message_optional_c_json(*m),
        );
        assert(out@ == submit_message_json(*m));
    }
    out
}
/// The JSON text of a boolean.
pub open spec fn bool_json(b: bool) -> Seq<char> {
    if b {
        "true"@
    } else {
        "false"@
    }
}

/// Appends the JSON text of a boolean.
fn push_bool(out: &mut String, b: bool)
    ensures
        final(out)@ == old(out)@ + bool_json(b),
{
    if b {
        out.append("true");
    } else {
        out.append("false");
    }
}

/// The wire name of an external-data request method.
pub open spec fn request_method_name(m: RequestMethod) -> Seq<char> {
    match m {
        RequestMethod::Get => "GET"@,
        RequestMethod::Post => "POST"@,
        RequestMethod::Put => "PUT"@,
        RequestMethod::Patch => "PATCH"@,
        RequestMethod::Delete => "DELETE"@,
    }
}

/// The JSON object for a resource id with its optional description.
pub open spec fn object_description_json(x: ObjectDescription) -> Seq<char> {
    "{\"id\":"@ + json_string(x.id@) + (match &x.description {
        Some(d) => ",\"description\":"@ + json_string(d@),
        None => Seq::<char>::empty(),
    }) + "}"@
}

/// Appends the JSON object for a resource id with its optional description.
fn push_object_description_json(out: &mut String, x: &ObjectDescription)
    ensures
        final(out)@ == old(out)@ + object_description_json(*x),
{
    let ghost mut acc: Seq<char> = "{\"id\":"@ + json_string(x.id@);
    out.append("{\"id\":");
    push_json_string(out, x.id.as_str());
    proof {
        seq_assoc(old(out)@, "{\"id\":"@, json_string(x.id@));
        assert(out@ == old(out)@ + acc);
    }
    if let Some(d) = &x.description {
        out.append(",\"description\":");
        push_json_string(out, d.as_str());
    }
    proof {
        match &x.description {
            Some(d) => {
                seq_assoc(old(out)@, acc, ",\"description\":"@);
                seq_assoc(old(out)@, acc + ",\"description\":"@, json_string(d@));
                seq_assoc(acc, ",\"description\":"@, json_string(d@));
            },
            None => {
                seq_add_empty(acc);
            },
        }
        acc = acc + (match &x.description {
            Some(d) => ",\"description\":"@ + json_string(d@),
            None => Seq::<char>::empty(),
        });
        assert(out@ == old(out)@ + acc);
    }
    out.append("}");
    proof {
        seq_assoc(old(out)@, acc, "}"@);
        acc = acc + "}"@;
        assert(out@ == old(out)@ + acc);
        assert(acc == object_description_json(*x));
    }
}

/// The JSON object for a message statistics summary.
pub open spec fn message_summary_json(x: MessageSummary) -> Seq<char> {
    "{\"avarage_deliver_time_millis\":"@ + dec_digits(x.avarage_deliver_time_millis as nat) + ",\"clicked\":"@ + dec_digits(x.clicked as nat) + ",\"delivered\":"@ + dec_digits(x.delivered as nat) + ",\"opened\":"@ + dec_digits(x.opened as nat) + ",\"processed\":"@ + dec_digits(x.processed as nat) + ",\"sent\":"@ + dec_digits(x.sent as nat) + ",\"unique_clicked\":"@ + dec_digits(x.unique_clicked as nat) + ",\"unique_opened\":"@ + dec_digits(x.unique_opened as nat) + "}"@
}

/// Appends the JSON object for a message statistics summary.
fn push_message_summary_json(out: &mut String, x: &MessageSummary)
    ensures
        final(out)@ == old(out)@ + message_summary_json(*x),
{
    let ghost mut acc: Seq<char> = "{\"avarage_deliver_time_millis\":"@ + dec_digits(x.avarage_deliver_time_millis as nat);
    out.append("{\"avarage_deliver_time_millis\":");
    push_dec_u64(out, x.avarage_deliver_time_millis);
    proof {
        seq_assoc(old(out)@, "{\"avarage_deliver_time_millis\":"@, dec_digits(x.avarage_deliver_time_millis as nat));
        assert(out@ == old(out)@ + acc);
    }
    out.append(",\"clicked\":");
    push_dec_u64(out, x.clicked);
    proof {
        seq_assoc(old(out)@, acc, ",\"clicked\":"@);
        seq_assoc(old(out)@, acc + ",\"clicked\":"@, dec_digits(x.clicked as nat));
        acc = acc + ",\"clicked\":"@ + dec_digits(x.clicked as nat);
        assert(out@ == old(out)@ + acc);
    }
    out.append(",\"delivered\":");
    push_dec_u64(out, x.delivered);
    proof {
        seq_assoc(old(out)@, acc, ",\"delivered\":"@);
        seq_assoc(old(out)@, acc + ",\"delivered\":"@, dec_digits(x.delivered as nat));
        acc = acc + ",\"delivered\":"@ + dec_digits(x.delivered as nat);
        assert(out@ == old(out)@ + acc);
    }
    out.append(",\"opened\":");
    push_dec_u64(out, x.opened);
    proof {
        seq_assoc(old(out)@, acc, ",\"opened\":"@);
        seq_assoc(old(out)@, acc + ",\"opened\":"@, dec_digits(x.opened as nat));
        acc = acc + ",\"opened\":"@ + dec_digits(x.opened as nat);
        assert(out@ == old(out)@ + acc);
    }
    out.append(",\"processed\":");
    push_dec_u64(out, x.processed);
    proof {
        seq_assoc(old(out)@, acc, ",\"processed\":"@);
        seq_assoc(old(out)@, acc + ",\"processed\":"@, dec_digits(x.processed as nat));
        acc = acc + ",\"processed\":"@ + dec_digits(x.processed as nat);
        assert(out@ == old(out)@ + acc);
    }
    out.append(",\"sent\":");
    push_dec_u64(out, x.sent);
    proof {
        seq_assoc(old(out)@, acc, ",\"sent\":"@);
        seq_assoc(old(out)@, acc + ",\"sent\":"@, dec_digits(x.sent as nat));
        acc = acc + ",\"sent\":"@ + dec_digits(x.sent as nat);
        assert(out@ == old(out)@ + acc);
    }
    out.append(",\"unique_clicked\":");
    push_dec_u64(out, x.unique_clicked);
    proof {
        seq_assoc(old(out)@, acc, ",\"unique_clicked\":"@);
        seq_assoc(old(out)@, acc + ",\"unique_clicked\":"@, dec_digits(x.unique_clicked as nat));
        acc = acc + ",\"unique_clicked\":"@ + dec_digits(x.unique_clicked as nat);
        assert(out@ == old(out)@ + acc);
    }
    out.append(",\"unique_opened\":");
    push_dec_u64(out, x.unique_opened);
    proof {
        seq_assoc(old(out)@, acc, ",\"unique_opened\":"@);
        seq_assoc(old(out)@, acc + ",\"unique_opened\":"@, dec_digits(x.unique_opened as nat));
        acc = acc + ",\"unique_opened\":"@ + dec_digits(x.unique_opened as nat);
        assert(out@ == old(out)@ + acc);
    }
    out.append("}");
    proof {
        seq_assoc(old(out)@, acc, "}"@);
        acc = acc + "}"@;
        assert(out@ == old(out)@ + acc);
        assert(acc == message_summary_json(*x));
    }
}

/// The JSON object for one statistics sample.
pub open spec fn sample_json(x: Sample) -> Seq<char> {
    "{\"timestamp\":"@ + date_json(x.timestamp) + ",\"value\":"@ + dec_digits(x.value as nat) + "}"@
}

/// Appends the JSON object for one statistics sample.
fn push_sample_json(out: &mut String, x: &Sample)
    ensures
        final(out)@ == old(out)@ + sample_json(*x),
{
    let ghost mut acc: Seq<char> = "{\"timestamp\":"@ + date_json(x.timestamp);
    out.append("{\"timestamp\":");
    push_date_json(out, &x.timestamp);
    proof {
        seq_assoc(old(out)@, "{\"timestamp\":"@, date_json(x.timestamp));
        assert(out@ == old(out)@ + acc);
    }
    out.append(",\"value\":");
    push_dec_u64(out, x.value);
    proof {
        seq_assoc(old(out)@, acc, ",\"value\":"@);
        seq_assoc(old(out)@, acc + ",\"value\":"@, dec_digits(x.value as nat));
        acc = acc + ",\"value\":"@ + dec_digits(x.value as nat);
        assert(out@ == old(out)@ + acc);
    }
    out.append("}");
    proof {
        seq_assoc(old(out)@, acc, "}"@);
        acc = acc + "}"@;
        assert(out@ == old(out)@ + acc);
        assert(acc == sample_json(*x));
    }
}

/// The item texts of a sample array.
pub open spec fn sample_items(items: Seq<Sample>) -> Seq<Seq<char>> {
    items.map_values(|x: Sample| sample_json(x))
}

/// Appends the JSON array of statistics samples.
fn push_samples_json(out: &mut String, items: &Vec<Sample>)
    ensures
        final(out)@ == old(out)@ + array_json(sample_items(items@)),
{
    let ghost orig: Seq<char> = out@;
    let ghost texts: Seq<Seq<char>> = sample_items(items@);
    out.append("[");
    let n = items.len();
    let mut i: usize = 0;
    while i < n
        invariant
            i <= n,
            n == items@.len(),
            texts == sample_items(items@),
            out@ == orig + "["@ + array_items(texts.take(i as int)),
        decreases n - i,
    {
        if i > 0 {
            out.append(",");
        }
        push_sample_json(out, &items[i]);
        proof {
            assert(texts.take(i as int + 1).drop_last() =~= texts.take(i as int));
            assert(texts.take(i as int + 1).last() == sample_json(items@[i as int]));
            assert(out@ =~= orig + "["@ + array_items(texts.take(i as int + 1)));
        }
        i = i + 1;
    }
    out.append("]");
    proof {
        assert(texts.take(n as int) =~= texts);
        assert(out@ =~= orig + array_json(texts));
    }
}

/// The JSON object for Spotler API credentials.
pub open spec fn mail_plus_credentials_json(x: MailPlusAPICredentials) -> Seq<char> {
    "{\"consumer_key\":"@ + json_string(x.consumer_key@) + ",\"consumer_secret\":"@ + json_string(x.consumer_secret@) + "}"@
}

/// Appends the JSON object for Spotler API credentials.
fn push_mail_plus_credentials_json(out: &mut String, x: &MailPlusAPICredentials)
    ensures
        final(out)@ == old(out)@ + mail_plus_credentials_json(*x),
{
    let ghost mut acc: Seq<char> = "{\"consumer_key\":"@ + json_string(x.consumer_key@);
    out.append("{\"consumer_key\":");
    push_json_string(out, x.consumer_key.as_str());
    proof {
        seq_assoc(old(out)@, "{\"consumer_key\":"@, json_string(x.consumer_key@));
        assert(out@ == old(out)@ + acc);
    }
    out.append(",\"consumer_secret\":");
    push_json_string(out, x.consumer_secret.as_str());
    proof {
        seq_assoc(old(out)@, acc, ",\"consumer_secret\":"@);
        seq_assoc(old(out)@, acc + ",\"consumer_secret\":"@, json_string(x.consumer_secret@));
        acc = acc + ",\"consumer_secret\":"@ + json_string(x.consumer_secret@);
        assert(out@ == old(out)@ + acc);
    }
    out.append("}");
    proof {
        seq_assoc(old(out)@, acc, "}"@);
        acc = acc + "}"@;
        assert(out@ == old(out)@ + acc);
        assert(acc == mail_plus_credentials_json(*x));
    }
}

/// The JSON object for an add-attachment step.
pub open spec fn add_attachment_step_json(x: FlowStepAddAttachment) -> Seq<char> {
    "{\"url_template\":"@ + json_string(x.url_template@) + "}"@
}

/// Appends the JSON object for an add-attachment step.
fn push_add_attachment_step_json(out: &mut String, x: &FlowStepAddAttachment)
    ensures
        final(out)@ == old(out)@ + add_attachment_step_json(*x),
{
    let ghost mut acc: Seq<char> = "{\"url_template\":"@ + json_string(x.url_template@);
    out.append("{\"url_template\":");
    push_json_string(out, x.url_template.as_str());
    proof {
        seq_assoc(old(out)@, "{\"url_template\":"@, json_string(x.url_template@));
        assert(out@ == old(out)@ + acc);
    }
    out.append("}");
    proof {
        seq_assoc(old(out)@, acc, "}"@);
        acc = acc + "}"@;
        assert(out@ == old(out)@ + acc);
        assert(acc == add_attachment_step_json(*x));
    }
}

/// The JSON object for an aggregate step.
pub open spec fn aggregate_step_json(x: FlowStepAggregate) -> Seq<char> {
    "{\"always_send_first\":"@ + bool_json(x.always_send_first) + ",\"max_time_seconds\":"@ + dec_digits(x.max_time_seconds as nat) + ",\"quiet_time_seconds\":"@ + dec_digits(x.quiet_time_seconds as nat) + "}"@
}

/// Appends the JSON object for an aggregate step.
fn push_aggregate_step_json(out: &mut String, x: &FlowStepAggregate)
    ensures
        final(out)@ == old(out)@ + aggregate_step_json(*x),
{
    let ghost mut acc: Seq<char> = "{\"always_send_first\":"@ + bool_json(x.always_send_first);
    out.append("{\"always_send_first\":");
    push_bool(out, x.always_send_first);
    proof {
        seq_assoc(old(out)@, "{\"always_send_first\":"@, bool_json(x.always_send_first));
        assert(out@ == old(out)@ + acc);
    }
    out.append(",\"max_time_seconds\":");
    push_dec_u64(out, x.max_time_seconds);
    proof {
        seq_assoc(old(out)@, acc, ",\"max_time_seconds\":"@);
        seq_assoc(old(out)@, acc + ",\"max_time_seconds\":"@, dec_digits(x.max_time_seconds as nat));
        acc = acc + ",\"max_time_seconds\":"@ + dec_digits(x.max_time_seconds as nat);
        assert(out@ == old(out)@ + acc);
    }
    out.append(",\"quiet_time_seconds\":");
    push_dec_u64(out, x.quiet_time_seconds);
    proof {
        seq_assoc(old(out)@, acc, ",\"quiet_time_seconds\":"@);
        seq_assoc(old(out)@, acc + ",\"quiet_time_seconds\":"@, dec_digits(x.quiet_time_seconds as nat));
        acc = acc + ",\"quiet_time_seconds\":"@ + dec_digits(x.quiet_time_seconds as nat);
        assert(out@ == old(out)@ + acc);
    }
    out.append("}");
    proof {
        seq_assoc(old(out)@, acc, "}"@);
        acc = acc + "}"@;
        assert(out@ == old(out)@ + acc);
        assert(acc == aggregate_step_json(*x));
    }
}

/// The JSON object for an archive step.
pub open spec fn archive_step_json(x: FlowStepArchive) -> Seq<char> {
    "{\"online_link\":"@ + bool_json(x.online_link) + ",\"retention\":"@ + json_string(x.retention@) + "}"@
}

/// Appends the JSON object for an archive step.
fn push_archive_step_json(out: &mut String, x: &FlowStepArchive)
    ensures
        final(out)@ == old(out)@ + archive_step_json(*x),
{
    let ghost mut acc: Seq<char> = "{\"online_link\":"@ + bool_json(x.online_link);
    out.append("{\"online_link\":");
    push_bool(out, x.online_link);
    proof {
        seq_assoc(old(out)@, "{\"online_link\":"@, bool_json(x.online_link));
        assert(out@ == old(out)@ + acc);
    }
    out.append(",\"retention\":");
    push_json_string(out, x.retention.as_str());
    proof {
        seq_assoc(old(out)@, acc, ",\"retention\":"@);
        seq_assoc(old(out)@, acc + ",\"retention\":"@, json_string(x.retention@));
        acc = acc + ",\"retention\":"@ + json_string(x.retention@);
        assert(out@ == old(out)@ + acc);
    }
    out.append("}");
    proof {
        seq_assoc(old(out)@, acc, "}"@);
        acc = acc + "}"@;
        assert(out@ == old(out)@ + acc);
        assert(acc == archive_step_json(*x));
    }
}

/// The JSON object for an external-content step.
pub open spec fn external_content_step_json(x: FlowStepExternalContent) -> Seq<char> {
    "{\"result_variable\":"@ + json_string(x.result_variable@) + ",\"url_template\":"@ + json_string(x.url_template@) + "}"@
}

/// Appends the JSON object for an external-content step.
fn push_external_content_step_json(out: &mut String, x: &FlowStepExternalContent)
    ensures
        final(out)@ == old(out)@ + external_content_step_json(*x),
{
    let ghost mut acc: Seq<char> = "{\"result_variable\":"@ + json_string(x.result_variable@);
    out.append("{\"result_variable\":");
    push_json_string(out, x.result_variable.as_str());
    proof {
        seq_assoc(old(out)@, "{\"result_variable\":"@, json_string(x.result_variable@));
        assert(out@ == old(out)@ + acc);
    }
    out.append(",\"url_template\":");
    push_json_string(out, x.url_template.as_str());
    proof {
        seq_assoc(old(out)@, acc, ",\"url_template\":"@);
        seq_assoc(old(out)@, acc + ",\"url_template\":"@, json_string(x.url_template@));
        acc = acc + ",\"url_template\":"@ + json_string(x.url_template@);
        assert(out@ == old(out)@ + acc);
    }
    out.append("}");
    proof {
        seq_assoc(old(out)@, acc, "}"@);
        acc = acc + "}"@;
        assert(out@ == old(out)@ + acc);
        assert(acc == external_content_step_json(*x));
    }
}

/// The JSON object for an external-data step.
pub open spec fn external_data_step_json(x: FlowStepExternalData) -> Seq<char> {
    "{\"full_response_in_variable\":"@ + bool_json(x.full_response_in_variable) + ",\"request_body_template\":"@ + json_string(x.request_body_template@) + ",\"request_headers\":"@ + array_json(header_items(x.request_headers@)) + ",\"request_method\":"@ + json_string(request_method_name(x.request_method)) + ",\"result_format\":"@ + json_string(x.result_format@) + ",\"result_variable\":"@ + json_string(x.result_variable@) + ",\"url_template\":"@ + json_string(x.url_template@) + "}"@
}

/// Appends the JSON object for an external-data step.
fn push_external_data_step_json(out: &mut String, x: &FlowStepExternalData)
    ensures
        final(out)@ == old(out)@ + external_data_step_json(*x),
{
    let ghost mut acc: Seq<char> = "{\"full_response_in_variable\":"@ + bool_json(x.full_response_in_variable);
    out.append("{\"full_response_in_variable\":");
    push_bool(out, x.full_response_in_variable);
    proof {
        seq_assoc(old(out)@, "{\"full_response_in_variable\":"@, bool_json(x.full_response_in_variable));
        assert(out@ == old(out)@ + acc);
    }
    out.append(",\"request_body_template\":");
    push_json_string(out, x.request_body_template.as_str());
    proof {
        seq_assoc(old(out)@, acc, ",\"request_body_template\":"@);
        seq_assoc(old(out)@, acc + ",\"request_body_template\":"@, json_string(x.request_body_template@));
        acc = acc + ",\"request_body_template\":"@ + json_string(x.request_body_template@);
        assert(out@ == old(out)@ + acc);
    }
    out.append(",\"request_headers\":");
    push_headers_json(out, &x.request_headers);
    proof {
        seq_assoc(old(out)@, acc, ",\"request_headers\":"@);
        seq_assoc(old(out)@, acc + ",\"request_headers\":"@, array_json(header_items(x.request_headers@)));
        acc = acc + ",\"request_headers\":"@ + array_json(header_items(x.request_headers@));
        assert(out@ == old(out)@ + acc);
    }
    out.append(",\"request_method\":");
    match x.request_method {
        RequestMethod::Get => push_json_string(out, "GET"),
        RequestMethod::Post => push_json_string(out, "POST"),
        RequestMethod::Put => push_json_string(out, "PUT"),
        RequestMethod::Patch => push_json_string(out, "PATCH"),
        RequestMethod::Delete => push_json_string(out, "DELETE"),
    }
    proof {
        seq_assoc(old(out)@, acc, ",\"request_method\":"@);
        seq_assoc(old(out)@, acc + ",\"request_method\":"@, json_string(request_method_name(x.request_method)));
        acc = acc + ",\"request_method\":"@ + json_string(request_method_name(x.request_method));
        assert(out@ == old(out)@ + acc);
    }
    out.append(",\"result_format\":");
    push_json_string(out, x.result_format.as_str());
    proof {
        seq_assoc(old(out)@, acc, ",\"result_format\":"@);
        seq_assoc(old(out)@, acc + ",\"result_format\":"@, json_string(x.result_format@));
        acc = acc + ",\"result_format\":"@ + json_string(x.result_format@);
        assert(out@ == old(out)@ + acc);
    }
    out.append(",\"result_variable\":");
    push_json_string(out, x.result_variable.as_str());
    proof {
        seq_assoc(old(out)@, acc, ",\"result_variable\":"@);
        seq_assoc(old(out)@, acc + ",\"result_variable\":"@, json_string(x.result_variable@));
        acc = acc + ",\"result_variable\":"@ + json_string(x.result_variable@);
        assert(out@ == old(out)@ + acc);
    }
    out.append(",\"url_template\":");
    push_json_string(out, x.url_template.as_str());
    proof {
        seq_assoc(old(out)@, acc, ",\"url_template\":"@);
        seq_assoc(old(out)@, acc + ",\"url_template\":"@, json_string(x.url_template@));
        acc = acc + ",\"url_template\":"@ + json_string(x.url_template@);
        assert(out@ == old(out)@ + acc);
    }
    out.append("}");
    proof {
        seq_assoc(old(out)@, acc, "}"@);
        acc = acc + "}"@;
        assert(out@ == old(out)@ + acc);
        assert(acc == external_data_step_json(*x));
    }
}

/// The JSON object for an extract-data step.
pub open spec fn extract_data_step_json(x: FlowStepExtractData) -> Seq<char> {
    "{\"data_type\":"@ + json_string(x.data_type@) + ",\"filename\":"@ + json_string(x.filename@) + ",\"html_decode_text\":"@ + bool_json(x.html_decode_text) + ",\"mime_type\":"@ + json_string(x.mime_type@) + ",\"remove_mime_part\":"@ + bool_json(x.remove_mime_part) + ",\"selector\":"@ + json_string(x.selector@) + "}"@
}

/// Appends the JSON object for an extract-data step.
fn push_extract_data_step_json(out: &mut String, x: &FlowStepExtractData)
    ensures
        final(out)@ == old(out)@ + extract_data_step_json(*x),
{
    let ghost mut acc: Seq<char> = "{\"data_type\":"@ + json_string(x.data_type@);
    out.append("{\"data_type\":");
    push_json_string(out, x.data_type.as_str());
    proof {
        seq_assoc(old(out)@, "{\"data_type\":"@, json_string(x.data_type@));
        assert(out@ == old(out)@ + acc);
    }
    out.append(",\"filename\":");
    push_json_string(out, x.filename.as_str());
    proof {
        seq_assoc(old(out)@, acc, ",\"filename\":"@);
        seq_assoc(old(out)@, acc + ",\"filename\":"@, json_string(x.filename@));
        acc = acc + ",\"filename\":"@ + json_string(x.filename@);
        assert(out@ == old(out)@ + acc);
    }
    out.append(",\"html_decode_text\":");
    push_bool(out, x.html_decode_text);
    proof {
        seq_assoc(old(out)@, acc, ",\"html_decode_text\":"@);
        seq_assoc(old(out)@, acc + ",\"html_decode_text\":"@, bool_json(x.html_decode_text));
        acc = acc + ",\"html_decode_text\":"@ + bool_json(x.html_decode_text);
        assert(out@ == old(out)@ + acc);
    }
    out.append(",\"mime_type\":");
    push_json_string(out, x.mime_type.as_str());
    proof {
        seq_assoc(old(out)@, acc, ",\"mime_type\":"@);
        seq_assoc(old(out)@, acc + ",\"mime_type\":"@, json_string(x.mime_type@));
        acc = acc + ",\"mime_type\":"@ + json_string(x.mime_type@);
        assert(out@ == old(out)@ + acc);
    }
    out.append(",\"remove_mime_part\":");
    push_bool(out, x.remove_mime_part);
    proof {
        seq_assoc(old(out)@, acc, ",\"remove_mime_part\":"@);
        seq_assoc(old(out)@, acc + ",\"remove_mime_part\":"@, bool_json(x.remove_mime_part));
        acc = acc + ",\"remove_mime_part\":"@ + bool_json(x.remove_mime_part);
        assert(out@ == old(out)@ + acc);
    }
    out.append(",\"selector\":");
    push_json_string(out, x.selector.as_str());
    proof {
        seq_assoc(old(out)@, acc, ",\"selector\":"@);
        seq_assoc(old(out)@, acc + ",\"selector\":"@, json_string(x.selector@));
        acc = acc + ",\"selector\":"@ + json_string(x.selector@);
        assert(out@ == old(out)@ + acc);
    }
    out.append("}");
    proof {
        seq_assoc(old(out)@, acc, "}"@);
        acc = acc + "}"@;
        assert(out@ == old(out)@ + acc);
        assert(acc == extract_data_step_json(*x));
    }
}

/// The JSON object for a resubmit-message step.
pub open spec fn resubmit_message_step_json(x: FlowStepResubmitMessage) -> Seq<char> {
    "{\"account\":"@ + object_description_json(x.account) + ",\"duplicate_message\":"@ + bool_json(x.duplicate_message) + ",\"flow_selector\":"@ + json_string(x.flow_selector@) + ",\"header_name\":"@ + json_string(x.header_name@) + ",\"header_value\":"@ + json_string(x.header_value@) + ",\"source\":"@ + object_description_json(x.source) + "}"@
}

/// Appends the JSON object for a resubmit-message step.
fn push_resubmit_message_step_json(out: &mut String, x: &FlowStepResubmitMessage)
    ensures
        final(out)@ == old(out)@ + resubmit_message_step_json(*x),
{
    let ghost mut acc: Seq<char> = "{\"account\":"@ + object_description_json(x.account);
    out.append("{\"account\":");
    push_object_description_json(out, &x.account);
    proof {
        seq_assoc(old(out)@, "{\"account\":"@, object_description_json(x.account));
        assert(out@ == old(out)@ + acc);
    }
    out.append(",\"duplicate_message\":");
    push_bool(out, x.duplicate_message);
    proof {
        seq_assoc(old(out)@, acc, ",\"duplicate_message\":"@);
        seq_assoc(old(out)@, acc + ",\"duplicate_message\":"@, bool_json(x.duplicate_message));
        acc = acc + ",\"duplicate_message\":"@ + bool_json(x.duplicate_message);
        assert(out@ == old(out)@ + acc);
    }
    out.append(",\"flow_selector\":");
    push_json_string(out, x.flow_selector.as_str());
    proof {
        seq_assoc(old(out)@, acc, ",\"flow_selector\":"@);
        seq_assoc(old(out)@, acc + ",\"flow_selector\":"@, json_string(x.flow_selector@));
        acc = acc + ",\"flow_selector\":"@ + json_string(x.flow_selector@);
        assert(out@ == old(out)@ + acc);
    }
    out.append(",\"header_name\":");
    push_json_string(out, x.header_name.as_str());
    proof {
        seq_assoc(old(out)@, acc, ",\"header_name\":"@);
        seq_assoc(old(out)@, acc + ",\"header_name\":"@, json_string(x.header_name@));
        acc = acc + ",\"header_name\":"@ + json_string(x.header_name@);
        assert(out@ == old(out)@ + acc);
    }
    out.append(",\"header_value\":");
    push_json_string(out, x.header_value.as_str());
    proof {
        seq_assoc(old(out)@, acc, ",\"header_value\":"@);
        seq_assoc(old(out)@, acc + ",\"header_value\":"@, json_string(x.header_value@));
        acc = acc + ",\"header_value\":"@ + json_string(x.header_value@);
        assert(out@ == old(out)@ + acc);
    }
    out.append(",\"source\":");
    push_object_description_json(out, &x.source);
    proof {
        seq_assoc(old(out)@, acc, ",\"source\":"@);
        seq_assoc(old(out)@, acc + ",\"source\":"@, object_description_json(x.source));
        acc = acc + ",\"source\":"@ + object_description_json(x.source);
        assert(out@ == old(out)@ + acc);
    }
    out.append("}");
    proof {
        seq_assoc(old(out)@, acc, "}"@);
        acc = acc + "}"@;
        assert(out@ == old(out)@ + acc);
        assert(acc == resubmit_message_step_json(*x));
    }
}

/// The JSON object for a rewrite-recipient step.
pub open spec fn rewrite_recipient_step_json(x: FlowStepRewriteRecipient) -> Seq<char> {
    "{\"message_type\":"@ + json_string(x.message_type@) + ",\"recipient_name_template\":"@ + json_string(x.recipient_name_template@) + ",\"recipient_template\":"@ + json_string(x.recipient_template@) + "}"@
}

/// Appends the JSON object for a rewrite-recipient step.
fn push_rewrite_recipient_step_json(out: &mut String, x: &FlowStepRewriteRecipient)
    ensures
        final(out)@ == old(out)@ + rewrite_recipient_step_json(*x),
{
    let ghost mut acc: Seq<char> = "{\"message_type\":"@ + json_string(x.message_type@);
    out.append("{\"message_type\":");
    push_json_string(out, x.message_type.as_str());
    proof {
        seq_assoc(old(out)@, "{\"message_type\":"@, json_string(x.message_type@));
        assert(out@ == old(out)@ + acc);
    }
    out.append(",\"recipient_name_template\":");
    push_json_string(out, x.recipient_name_template.as_str());
    proof {
        seq_assoc(old(out)@, acc, ",\"recipient_name_template\":"@);
        seq_assoc(old(out)@, acc + ",\"recipient_name_template\":"@, json_string(x.recipient_name_template@));
        acc = acc + ",\"recipient_name_template\":"@ + json_string(x.recipient_name_template@);
        assert(out@ == old(out)@ + acc);
    }
    out.append(",\"recipient_template\":");
    push_json_string(out, x.recipient_template.as_str());
    proof {
        seq_assoc(old(out)@, acc, ",\"recipient_template\":"@);
        seq_assoc(old(out)@, acc + ",\"recipient_template\":"@, json_string(x.recipient_template@));
        acc = acc + ",\"recipient_template\":"@ + json_string(x.recipient_template@);
        assert(out@ == old(out)@ + acc);
    }
    out.append("}");
    proof {
        seq_assoc(old(out)@, acc, "}"@);
        acc = acc + "}"@;
        assert(out@ == old(out)@ + acc);
        assert(acc == rewrite_recipient_step_json(*x));
    }
}

/// The JSON object for a schedule step.
pub open spec fn schedule_step_json(x: FlowStepSchedule) -> Seq<char> {
    "{\"max_messages_per_hour\":"@ + dec_digits(x.max_messages_per_hour as nat) + ",\"offset_type\":"@ + json_string(x.offset_type@) + ",\"offset_value\":"@ + dec_digits(x.offset_value as nat) + ",\"scheduled_time_template\":"@ + json_string(x.scheduled_time_template@) + ",\"time_range_day0\":"@ + json_string(x.time_range_day0@) + ",\"time_range_day1\":"@ + json_string(x.time_range_day1@) + ",\"time_range_day2\":"@ + json_string(x.time_range_day2@) + ",\"time_range_day3\":"@ + json_string(x.time_range_day3@) + ",\"time_range_day4\":"@ + json_string(x.time_range_day4@) + ",\"time_range_day5\":"@ + json_string(x.time_range_day5@) + ",\"time_range_day6\":"@ + json_string(x.time_range_day6@) + ",\"time_zone\":"@ + json_string(x.time_zone@) + "}"@
}

/// Appends the JSON object for a schedule step.
fn push_schedule_step_json(out: &mut String, x: &FlowStepSchedule)
    ensures
        final(out)@ == old(out)@ + schedule_step_json(*x),
{
    let ghost mut acc: Seq<char> = "{\"max_messages_per_hour\":"@ + dec_digits(x.max_messages_per_hour as nat);
    out.append("{\"max_messages_per_hour\":");
    push_dec_u64(out, x.max_messages_per_hour);
    proof {
        seq_assoc(old(out)@, "{\"max_messages_per_hour\":"@, dec_digits(x.max_messages_per_hour as nat));
        assert(out@ == old(out)@ + acc);
    }
    out.append(",\"offset_type\":");
    push_json_string(out, x.offset_type.as_str());
    proof {
        seq_assoc(old(out)@, acc, ",\"offset_type\":"@);
        seq_assoc(old(out)@, acc + ",\"offset_type\":"@, json_string(x.offset_type@));
        acc = acc + ",\"offset_type\":"@ + json_string(x.offset_type@);
        assert(out@ == old(out)@ + acc);
    }
    out.append(",\"offset_value\":");
    push_dec_u64(out, x.offset_value);
    proof {
        seq_assoc(old(out)@, acc, ",\"offset_value\":"@);
        seq_assoc(old(out)@, acc + ",\"offset_value\":"@, dec_digits(x.offset_value as nat));
        acc = acc + ",\"offset_value\":"@ + dec_digits(x.offset_value as nat);
        assert(out@ == old(out)@ + acc);
    }
    out.append(",\"scheduled_time_template\":");
    push_json_string(out, x.scheduled_time_template.as_str());
    proof {
        seq_assoc(old(out)@, acc, ",\"scheduled_time_template\":"@);
        seq_assoc(old(out)@, acc + ",\"scheduled_time_template\":"@, json_string(x.scheduled_time_template@));
        acc = acc + ",\"scheduled_time_template\":"@ + json_string(x.scheduled_time_template@);
        assert(out@ == old(out)@ + acc);
    }
    out.append(",\"time_range_day0\":");
    push_json_string(out, x.time_range_day0.as_str());
    proof {
        seq_assoc(old(out)@, acc, ",\"time_range_day0\":"@);
        seq_assoc(old(out)@, acc + ",\"time_range_day0\":"@, json_string(x.time_range_day0@));
        acc = acc + ",\"time_range_day0\":"@ + json_string(x.time_range_day0@);
        assert(out@ == old(out)@ + acc);
    }
    out.append(",\"time_range_day1\":");
    push_json_string(out, x.time_range_day1.as_str());
    proof {
        seq_assoc(old(out)@, acc, ",\"time_range_day1\":"@);
        seq_assoc(old(out)@, acc + ",\"time_range_day1\":"@, json_string(x.time_range_day1@));
        acc = acc + ",\"time_range_day1\":"@ + json_string(x.time_range_day1@);
        assert(out@ == old(out)@ + acc);
    }
    out.append(",\"time_range_day2\":");
    push_json_string(out, x.time_range_day2.as_str());
    proof {
        seq_assoc(old(out)@, acc, ",\"time_range_day2\":"@);
        seq_assoc(old(out)@, acc + ",\"time_range_day2\":"@, json_string(x.time_range_day2@));
        acc = acc + ",\"time_range_day2\":"@ + json_string(x.time_range_day2@);
        assert(out@ == old(out)@ + acc);
    }
    out.append(",\"time_range_day3\":");
    push_json_string(out, x.time_range_day3.as_str());
    proof {
        seq_assoc(old(out)@, acc, ",\"time_range_day3\":"@);
        seq_assoc(old(out)@, acc + ",\"time_range_day3\":"@, json_string(x.time_range_day3@));
        acc = acc + ",\"time_range_day3\":"@ + json_string(x.time_range_day3@);
        assert(out@ == old(out)@ + acc);
    }
    out.append(",\"time_range_day4\":");
    push_json_string(out, x.time_range_day4.as_str());
    proof {
        seq_assoc(old(out)@, acc, ",\"time_range_day4\":"@);
        seq_assoc(old(out)@, acc + ",\"time_range_day4\":"@, json_string(x.time_range_day4@));
        acc = acc + ",\"time_range_day4\":"@ + json_string(x.time_range_day4@);
        assert(out@ == old(out)@ + acc);
    }
    out.append(",\"time_range_day5\":");
    push_json_string(out, x.time_range_day5.as_str());
    proof {
        seq_assoc(old(out)@, acc, ",\"time_range_day5\":"@);
        seq_assoc(old(out)@, acc + ",\"time_range_day5\":"@, json_string(x.time_range_day5@));
        acc = acc + ",\"time_range_day5\":"@ + json_string(x.time_range_day5@);
        assert(out@ == old(out)@ + acc);
    }
    out.append(",\"time_range_day6\":");
    push_json_string(out, x.time_range_day6.as_str());
    proof {
        seq_assoc(old(out)@, acc, ",\"time_range_day6\":"@);
        seq_assoc(old(out)@, acc + ",\"time_range_day6\":"@, json_string(x.time_range_day6@));
        acc = acc + ",\"time_range_day6\":"@ + json_string(x.time_range_day6@);
        assert(out@ == old(out)@ + acc);
    }
    out.append(",\"time_zone\":");
    push_json_string(out, x.time_zone.as_str());
    proof {
        seq_assoc(old(out)@, acc, ",\"time_zone\":"@);
        seq_assoc(old(out)@, acc + ",\"time_zone\":"@, json_string(x.time_zone@));
        acc = acc + ",\"time_zone\":"@ + json_string(x.time_zone@);
        assert(out@ == old(out)@ + acc);
    }
    out.append("}");
    proof {
        seq_assoc(old(out)@, acc, "}"@);
        acc = acc + "}"@;
        assert(out@ == old(out)@ + acc);
        assert(acc == schedule_step_json(*x));
    }
}

/// The JSON object for a set-header step.
pub open spec fn set_header_step_json(x: FlowStepSetHeader) -> Seq<char> {
    "{\"header_name\":"@ + json_string(x.header_name@) + ",\"header_value\":"@ + json_string(x.header_value@) + "}"@
}

/// Appends the JSON object for a set-header step.
fn push_set_header_step_json(out: &mut String, x: &FlowStepSetHeader)
    ensures
        final(out)@ == old(out)@ + set_header_step_json(*x),
{
    let ghost mut acc: Seq<char> = "{\"header_name\":"@ + json_string(x.header_name@);
    out.append("{\"header_name\":");
    push_json_string(out, x.header_name.as_str());
    proof {
        seq_assoc(old(out)@, "{\"header_name\":"@, json_string(x.header_name@));
        assert(out@ == old(out)@ + acc);
    }
    out.append(",\"header_value\":");
    push_json_string(out, x.header_value.as_str());
    proof {
        seq_assoc(old(out)@, acc, ",\"header_value\":"@);
        seq_assoc(old(out)@, acc + ",\"header_value\":"@, json_string(x.header_value@));
        acc = acc + ",\"header_value\":"@ + json_string(x.header_value@);
        assert(out@ == old(out)@ + acc);
    }
    out.append("}");
    proof {
        seq_assoc(old(out)@, acc, "}"@);
        acc = acc + "}"@;
        assert(out@ == old(out)@ + acc);
        assert(acc == set_header_step_json(*x));
    }
}

/// The JSON object for a set-sender step.
pub open spec fn set_sender_step_json(x: FlowStepSetSender) -> Seq<char> {
    "{\"sender_name_template\":"@ + json_string(x.sender_name_template@) + ",\"sender_set_name\":"@ + bool_json(x.sender_set_name) + ",\"sender_template\":"@ + json_string(x.sender_template@) + "}"@
}

/// Appends the JSON object for a set-sender step.
fn push_set_sender_step_json(out: &mut String, x: &FlowStepSetSender)
    ensures
        final(out)@ == old(out)@ + set_sender_step_json(*x),
{
    let ghost mut acc: Seq<char> = "{\"sender_name_template\":"@ + json_string(x.sender_name_template@);
    out.append("{\"sender_name_template\":");
    push_json_string(out, x.sender_name_template.as_str());
    proof {
        seq_assoc(old(out)@, "{\"sender_name_template\":"@, json_string(x.sender_name_template@));
        assert(out@ == old(out)@ + acc);
    }
    out.append(",\"sender_set_name\":");
    push_bool(out, x.sender_set_name);
    proof {
        seq_assoc(old(out)@, acc, ",\"sender_set_name\":"@);
        seq_assoc(old(out)@, acc + ",\"sender_set_name\":"@, bool_json(x.sender_set_name));
        acc = acc + ",\"sender_set_name\":"@ + bool_json(x.sender_set_name);
        assert(out@ == old(out)@ + acc);
    }
    out.append(",\"sender_template\":");
    push_json_string(out, x.sender_template.as_str());
    proof {
        seq_assoc(old(out)@, acc, ",\"sender_template\":"@);
        seq_assoc(old(out)@, acc + ",\"sender_template\":"@, json_string(x.sender_template@));
        acc = acc + ",\"sender_template\":"@ + json_string(x.sender_template@);
        assert(out@ == old(out)@ + acc);
    }
    out.append("}");
    proof {
        seq_assoc(old(out)@, acc, "}"@);
        acc = acc + "}"@;
        assert(out@ == old(out)@ + acc);
        assert(acc == set_sender_step_json(*x));
    }
}

/// The wire name of a flow step type.
pub open spec fn flow_step_type_name(t: crate::ty::flow_step::Type) -> Seq<char> {
    match t {
        crate::ty::flow_step::Type::Analytics => "analytics"@,
        crate::ty::flow_step::Type::QAmail => "qamail"@,
        crate::ty::flow_step::Type::Template => "template"@,
        crate::ty::flow_step::Type::Subject => "subject"@,
        crate::ty::flow_step::Type::SetSender => "setSender"@,
        crate::ty::flow_step::Type::AddHeader => "addHeader"@,
        crate::ty::flow_step::Type::Schedule => "schedule"@,
        crate::ty::flow_step::Type::RewriteRecipient => "rewriteRecipient"@,
        crate::ty::flow_step::Type::ResubmitMessage => "resubmitMessage"@,
        crate::ty::flow_step::Type::MailPlusContact => "mailPlusContact"@,
        crate::ty::flow_step::Type::ExtractData => "extractdata"@,
        crate::ty::flow_step::Type::ExternalData => "externalData"@,
        crate::ty::flow_step::Type::ExternalContent => "externalContent"@,
        crate::ty::flow_step::Type::Archive => "archive"@,
        crate::ty::flow_step::Type::Aggregate => "aggregate"@,
        crate::ty::flow_step::Type::AddAttachment => "addAttachment"@,
    }
}

/// The first group of optional flow step fields: the per-type payloads for attachments, aggregation, analytics domains and archiving.
pub open spec fn flow_step_g1_json(x: FlowStep) -> Seq<char> {
    (match &x.add_attachment {
        Some(v) => ",\"addAttachment\":"@ + add_attachment_step_json(*v),
        None => Seq::<char>::empty(),
    }) + (match &x.aggregate {
        Some(v) => ",\"aggregate\":"@ + aggregate_step_json(*v),
        None => Seq::<char>::empty(),
    }) + (match &x.apply_to_link_domains {
        Some(v) => ",\"applyToLinkDomains\":"@ + json_string(v@),
        None => Seq::<char>::empty(),
    }) + (match &x.archive {
        Some(v) => ",\"archive\":"@ + archive_step_json(*v),
        None => Seq::<char>::empty(),
    })
}

/// Appends the first group of optional flow step fields: the per-type payloads for attachments, aggregation, analytics domains and archiving.
fn push_flow_step_g1(out: &mut String, x: &FlowStep)
    ensures
        final(out)@ == old(out)@ + flow_step_g1_json(*x),
{
    let ghost mut acc: Seq<char> = Seq::<char>::empty();
    proof {
        seq_add_empty(old(out)@);
        assert(out@ == old(out)@ + acc);
    }
    if let Some(v) = &x.add_attachment {
        out.append(",\"addAttachment\":");
        push_add_attachment_step_json(out, v);
    }
    proof {
        match &x.add_attachment {
            Some(v) => {
                seq_assoc(old(out)@, acc, ",\"addAttachment\":"@);
                seq_assoc(old(out)@, acc + ",\"addAttachment\":"@, add_attachment_step_json(*v));
                seq_assoc(acc, ",\"addAttachment\":"@, add_attachment_step_json(*v));
            },
            None => {
                seq_add_empty(acc);
            },
        }
        acc = acc + (match &x.add_attachment {
            Some(v) => ",\"addAttachment\":"@ + add_attachment_step_json(*v),
            None => Seq::<char>::empty(),
        });
        assert(out@ == old(out)@ + acc);
    }
    if let Some(v) = &x.aggregate {
        out.append(",\"aggregate\":");
        push_aggregate_step_json(out, v);
    }
    proof {
        match &x.aggregate {
            Some(v) => {
                seq_assoc(old(out)@, acc, ",\"aggregate\":"@);
                seq_assoc(old(out)@, acc + ",\"aggregate\":"@, aggregate_step_json(*v));
                seq_assoc(acc, ",\"aggregate\":"@, aggregate_step_json(*v));
            },
            None => {
                seq_add_empty(acc);
            },
        }
        acc = acc + (match &x.aggregate {
            Some(v) => ",\"aggregate\":"@ + aggregate_step_json(*v),
            None => Seq::<char>::empty(),
        });
        assert(out@ == old(out)@ + acc);
    }
    if let Some(v) = &x.apply_to_link_domains {
        out.append(",\"applyToLinkDomains\":");
        push_json_string(out, v.as_str());
    }
    proof {
        match &x.apply_to_link_domains {
            Some(v) => {
                seq_assoc(old(out)@, acc, ",\"applyToLinkDomains\":"@);
                seq_assoc(old(out)@, acc + ",\"applyToLinkDomains\":"@, json_string(v@));
                seq_assoc(acc, ",\"applyToLinkDomains\":"@, json_string(v@));
            },
            None => {
                seq_add_empty(acc);
            },
        }
        acc = acc + (match &x.apply_to_link_domains {
            Some(v) => ",\"applyToLinkDomains\":"@ + json_string(v@),
            None => Seq::<char>::empty(),
        });
        assert(out@ == old(out)@ + acc);
    }
    if let Some(v) = &x.archive {
        out.append(",\"archive\":");
        push_archive_step_json(out, v);
    }
    proof {
        match &x.archive {
            Some(v) => {
                seq_assoc(old(out)@, acc, ",\"archive\":"@);
                seq_assoc(old(out)@, acc + ",\"archive\":"@, archive_step_json(*v));
                seq_assoc(acc, ",\"archive\":"@, archive_step_json(*v));
            },
            None => {
                seq_add_empty(acc);
            },
        }
        acc = acc + (match &x.archive {
            Some(v) => ",\"archive\":"@ + archive_step_json(*v),
            None => Seq::<char>::empty(),
        });
        assert(out@ == old(out)@ + acc);
    }
    proof {
        assert(acc == flow_step_g1_json(*x));
    }
}

/// The second group of optional flow step fields: qamail divisor, enabled expression and contact requirement.
pub open spec fn flow_step_g2_json(x: FlowStep) -> Seq<char> {
    (match x.divisor {
        Some(v) => ",\"divisor\":"@ + dec_digits(v as nat),
        None => Seq::<char>::empty(),
    }) + (match &x.enabled_expression {
        Some(v) => ",\"enabledExpression\":"@ + json_string(v@),
        None => Seq::<char>::empty(),
    }) + (match x.error_on_not_found {
        Some(v) => ",\"errorOnNotFound\":"@ + bool_json(v),
        None => Seq::<char>::empty(),
    })
}

/// Appends the second group of optional flow step fields: qamail divisor, enabled expression and contact requirement.
fn push_flow_step_g2(out: &mut String, x: &FlowStep)
    ensures
        final(out)@ == old(out)@ + flow_step_g2_json(*x),
{
    let ghost mut acc: Seq<char> = Seq::<char>::empty();
    proof {
        seq_add_empty(old(out)@);
        assert(out@ == old(out)@ + acc);
    }
    if let Some(v) = x.divisor {
        out.append(",\"divisor\":");
        push_dec_u64(out, v);
    }
    proof {
        match x.divisor {
            Some(v) => {
                seq_assoc(old(out)@, acc, ",\"divisor\":"@);
                seq_assoc(old(out)@, acc + ",\"divisor\":"@, dec_digits(v as nat));
                seq_assoc(acc, ",\"divisor\":"@, dec_digits(v as nat));
            },
            None => {
                seq_add_empty(acc);
            },
        }
        acc = acc + (match x.divisor {
            Some(v) => ",\"divisor\":"@ + dec_digits(v as nat),
            None => Seq::<char>::empty(),
        });
        assert(out@ == old(out)@ + acc);
    }
    if let Some(v) = &x.enabled_expression {
        out.append(",\"enabledExpression\":");
        push_json_string(out, v.as_str());
    }
    proof {
        match &x.enabled_expression {
            Some(v) => {
                seq_assoc(old(out)@, acc, ",\"enabledExpression\":"@);
                seq_assoc(old(out)@, acc + ",\"enabledExpression\":"@, json_string(v@));
                seq_assoc(acc, ",\"enabledExpression\":"@, json_string(v@));
            },
            None => {
                seq_add_empty(acc);
            },
        }
        acc = acc + (match &x.enabled_expression {
            Some(v) => ",\"enabledExpression\":"@ + json_string(v@),
            None => Seq::<char>::empty(),
        });
        assert(out@ == old(out)@ + acc);
    }
    if let Some(v) = x.error_on_not_found {
        out.append(",\"errorOnNotFound\":");
        push_bool(out, v);
    }
    proof {
        match x.error_on_not_found {
            Some(v) => {
                seq_assoc(old(out)@, acc, ",\"errorOnNotFound\":"@);
                seq_assoc(old(out)@, acc + ",\"errorOnNotFound\":"@, bool_json(v));
                seq_assoc(acc, ",\"errorOnNotFound\":"@, bool_json(v));
            },
            None => {
                seq_add_empty(acc);
            },
        }
        acc = acc + (match x.error_on_not_found {
            Some(v) => ",\"errorOnNotFound\":"@ + bool_json(v),
            None => Seq::<char>::empty(),
        });
        assert(out@ == old(out)@ + acc);
    }
    proof {
        assert(acc == flow_step_g2_json(*x));
    }
}

/// The third group of optional flow step fields: the external-content, external-data and extract-data payloads.
pub open spec fn flow_step_g3_json(x: FlowStep) -> Seq<char> {
    (match &x.external_content {
        Some(v) => ",\"externalContent\":"@ + external_content_step_json(*v),
        None => Seq::<char>::empty(),
    }) + (match &x.external_data {
        Some(v) => ",\"externalData\":"@ + external_data_step_json(*v),
        None => Seq::<char>::empty(),
    }) + (match &x.extract_data {
        Some(v) => ",\"extractData\":"@ + extract_data_step_json(*v),
        None => Seq::<char>::empty(),
    })
}

/// Appends the third group of optional flow step fields: the external-content, external-data and extract-data payloads.
fn push_flow_step_g3(out: &mut String, x: &FlowStep)
    ensures
        final(out)@ == old(out)@ + flow_step_g3_json(*x),
{
    let ghost mut acc: Seq<char> = Seq::<char>::empty();
    proof {
        seq_add_empty(old(out)@);
        assert(out@ == old(out)@ + acc);
    }
    if let Some(v) = &x.external_content {
        out.append(",\"externalContent\":");
        push_external_content_step_json(out, v);
    }
    proof {
        match &x.external_content {
            Some(v) => {
                seq_assoc(old(out)@, acc, ",\"externalContent\":"@);
                seq_assoc(old(out)@, acc + ",\"externalContent\":"@, external_content_step_json(*v));
                seq_assoc(acc, ",\"externalContent\":"@, external_content_step_json(*v));
            },
            None => {
                seq_add_empty(acc);
            },
        }
        acc = acc + (match &x.external_content {
            Some(v) => ",\"externalContent\":"@ + external_content_step_json(*v),
            None => Seq::<char>::empty(),
        });
        assert(out@ == old(out)@ + acc);
    }
    if let Some(v) = &x.external_data {
        out.append(",\"externalData\":");
        push_external_data_step_json(out, v);
    }
    proof {
        match &x.external_data {
            Some(v) => {
                seq_assoc(old(out)@, acc, ",\"externalData\":"@);
                seq_assoc(old(out)@, acc + ",\"externalData\":"@, external_data_step_json(*v));
                seq_assoc(acc, ",\"externalData\":"@, external_data_step_json(*v));
            },
            None => {
                seq_add_empty(acc);
            },
        }
        acc = acc + (match &x.external_data {
            Some(v) => ",\"externalData\":"@ + external_data_step_json(*v),
            None => Seq::<char>::empty(),
        });
        assert(out@ == old(out)@ + acc);
    }
    if let Some(v) = &x.extract_data {
        out.append(",\"extractData\":");
        push_extract_data_step_json(out, v);
    }
    proof {
        match &x.extract_data {
            Some(v) => {
                seq_assoc(old(out)@, acc, ",\"extractData\":"@);
                seq_assoc(old(out)@, acc + ",\"extractData\":"@, extract_data_step_json(*v));
                seq_assoc(acc, ",\"extractData\":"@, extract_data_step_json(*v));
            },
            None => {
                seq_add_empty(acc);
            },
        }
        acc = acc + (match &x.extract_data {
            Some(v) => ",\"extractData\":"@ + extract_data_step_json(*v),
            None => Seq::<char>::empty(),
        });
        assert(out@ == old(out)@ + acc);
    }
    proof {
        assert(acc == flow_step_g3_json(*x));
    }
}

/// The fourth group of optional flow step fields: step id, MailPlus credentials, URL parameter overwriting and resubmission.
pub open spec fn flow_step_g4_json(x: FlowStep) -> Seq<char> {
    (match &x.id {
        Some(v) => ",\"id\":"@ + json_string(v@),
        None => Seq::<char>::empty(),
    }) + (match &x.mail_plus_api_credentials {
        Some(v) => ",\"mailPlusApiCredentials\":"@ + mail_plus_credentials_json(*v),
        None => Seq::<char>::empty(),
    }) + (match x.overwrite_url_parameters {
        Some(v) => ",\"overwriteUrlParameters\":"@ + bool_json(v),
        None => Seq::<char>::empty(),
    }) + (match &x.resubmit_message {
        Some(v) => ",\"resubmitMessage\":"@ + resubmit_message_step_json(*v),
        None => Seq::<char>::empty(),
    })
}

/// Appends the fourth group of optional flow step fields: step id, MailPlus credentials, URL parameter overwriting and resubmission.
fn push_flow_step_g4(out: &mut String, x: &FlowStep)
    ensures
        final(out)@ == old(out)@ + flow_step_g4_json(*x),
{
    let ghost mut acc: Seq<char> = Seq::<char>::empty();
    proof {
        seq_add_empty(old(out)@);
        assert(out@ == old(out)@ + acc);
    }
    if let Some(v) = &x.id {
        out.append(",\"id\":");
        push_json_string(out, v.as_str());
    }
    proof {
        match &x.id {
            Some(v) => {
                seq_assoc(old(out)@, acc, ",\"id\":"@);
                seq_assoc(old(out)@, acc + ",\"id\":"@, json_string(v@));
                seq_assoc(acc, ",\"id\":"@, json_string(v@));
            },
            None => {
                seq_add_empty(acc);
            },
        }
        acc = acc + (match &x.id {
            Some(v) => ",\"id\":"@ + json_string(v@),
            None => Seq::<char>::empty(),
        });
        assert(out@ == old(out)@ + acc);
    }
    if let Some(v) = &x.mail_plus_api_credentials {
        out.append(",\"mailPlusApiCredentials\":");
        push_mail_plus_credentials_json(out, v);
    }
    proof {
        match &x.mail_plus_api_credentials {
            Some(v) => {
                seq_assoc(old(out)@, acc, ",\"mailPlusApiCredentials\":"@);
                seq_assoc(old(out)@, acc + ",\"mailPlusApiCredentials\":"@, mail_plus_credentials_json(*v));
                seq_assoc(acc, ",\"mailPlusApiCredentials\":"@, mail_plus_credentials_json(*v));
            },
            None => {
                seq_add_empty(acc);
            },
        }
        acc = acc + (match &x.mail_plus_api_credentials {
            Some(v) => ",\"mailPlusApiCredentials\":"@ + mail_plus_credentials_json(*v),
            None => Seq::<char>::empty(),
        });
        assert(out@ == old(out)@ + acc);
    }
    if let Some(v) = x.overwrite_url_parameters {
        out.append(",\"overwriteUrlParameters\":");
        push_bool(out, v);
    }
    proof {
        match x.overwrite_url_parameters {
            Some(v) => {
                seq_assoc(old(out)@, acc, ",\"overwriteUrlParameters\":"@);
                seq_assoc(old(out)@, acc + ",\"overwriteUrlParameters\":"@, bool_json(v));
                seq_assoc(acc, ",\"overwriteUrlParameters\":"@, bool_json(v));
            },
            None => {
                seq_add_empty(acc);
            },
        }
        acc = acc + (match x.overwrite_url_parameters {
            Some(v) => ",\"overwriteUrlParameters\":"@ + bool_json(v),
            None => Seq::<char>::empty(),
        });
        assert(out@ == old(out)@ + acc);
    }
    if let Some(v) = &x.resubmit_message {
        out.append(",\"resubmitMessage\":");
        push_resubmit_message_step_json(out, v);
    }
    proof {
        match &x.resubmit_message {
            Some(v) => {
                seq_assoc(old(out)@, acc, ",\"resubmitMessage\":"@);
                seq_assoc(old(out)@, acc + ",\"resubmitMessage\":"@, resubmit_message_step_json(*v));
                seq_assoc(acc, ",\"resubmitMessage\":"@, resubmit_message_step_json(*v));
            },
            None => {
                seq_add_empty(acc);
            },
        }
        acc = acc + (match &x.resubmit_message {
            Some(v) => ",\"resubmitMessage\":"@ + resubmit_message_step_json(*v),
            None => Seq::<char>::empty(),
        });
        assert(out@ == old(out)@ + acc);
    }
    proof {
        assert(acc == flow_step_g4_json(*x));
    }
}

/// The fifth group of optional flow step fields: recipient rewriting, scheduling and header/sender setting.
pub open spec fn flow_step_g5_json(x: FlowStep) -> Seq<char> {
    (match &x.rewrite_recipient {
        Some(v) => ",\"rewriteRecipient\":"@ + rewrite_recipient_step_json(*v),
        None => Seq::<char>::empty(),
    }) + (match &x.schedule {
        Some(v) => ",\"schedule\":"@ + schedule_step_json(*v),
        None => Seq::<char>::empty(),
    }) + (match &x.set_header {
        Some(v) => ",\"setHeader\":"@ + set_header_step_json(*v),
        None => Seq::<char>::empty(),
    }) + (match &x.set_sender {
        Some(v) => ",\"setSender\":"@ + set_sender_step_json(*v),
        None => Seq::<char>::empty(),
    })
}

/// Appends the fifth group of optional flow step fields: recipient rewriting, scheduling and header/sender setting.
fn push_flow_step_g5(out: &mut String, x: &FlowStep)
    ensures
        final(out)@ == old(out)@ + flow_step_g5_json(*x),
{
    let ghost mut acc: Seq<char> = Seq::<char>::empty();
    proof {
        seq_add_empty(old(out)@);
        assert(out@ == old(out)@ + acc);
    }
    if let Some(v) = &x.rewrite_recipient {
        out.append(",\"rewriteRecipient\":");
        push_rewrite_recipient_step_json(out, v);
    }
    proof {
        match &x.rewrite_recipient {
            Some(v) => {
                seq_assoc(old(out)@, acc, ",\"rewriteRecipient\":"@);
                seq_assoc(old(out)@, acc + ",\"rewriteRecipient\":"@, rewrite_recipient_step_json(*v));
                seq_assoc(acc, ",\"rewriteRecipient\":"@, rewrite_recipient_step_json(*v));
            },
            None => {
                seq_add_empty(acc);
            },
        }
        acc = acc + (match &x.rewrite_recipient {
            Some(v) => ",\"rewriteRecipient\":"@ + rewrite_recipient_step_json(*v),
            None => Seq::<char>::empty(),
        });
        assert(out@ == old(out)@ + acc);
    }
    if let Some(v) = &x.schedule {
        out.append(",\"schedule\":");
        push_schedule_step_json(out, v);
    }
    proof {
        match &x.schedule {
            Some(v) => {
                seq_assoc(old(out)@, acc, ",\"schedule\":"@);
                seq_assoc(old(out)@, acc + ",\"schedule\":"@, schedule_step_json(*v));
                seq_assoc(acc, ",\"schedule\":"@, schedule_step_json(*v));
            },
            None => {
                seq_add_empty(acc);
            },
        }
        acc = acc + (match &x.schedule {
            Some(v) => ",\"schedule\":"@ + schedule_step_json(*v),
            None => Seq::<char>::empty(),
        });
        assert(out@ == old(out)@ + acc);
    }
    if let Some(v) = &x.set_header {
        out.append(",\"setHeader\":");
        push_set_header_step_json(out, v);
    }
    proof {
        match &x.set_header {
            Some(v) => {
                seq_assoc(old(out)@, acc, ",\"setHeader\":"@);
                seq_assoc(old(out)@, acc + ",\"setHeader\":"@, set_header_step_json(*v));
                seq_assoc(acc, ",\"setHeader\":"@, set_header_step_json(*v));
            },
            None => {
                seq_add_empty(acc);
            },
        }
        acc = acc + (match &x.set_header {
            Some(v) => ",\"setHeader\":"@ + set_header_step_json(*v),
            None => Seq::<char>::empty(),
        });
        assert(out@ == old(out)@ + acc);
    }
    if let Some(v) = &x.set_sender {
        out.append(",\"setSender\":");
        push_set_sender_step_json(out, v);
    }
    proof {
        match &x.set_sender {
            Some(v) => {
                seq_assoc(old(out)@, acc, ",\"setSender\":"@);
                seq_assoc(old(out)@, acc + ",\"setSender\":"@, set_sender_step_json(*v));
                seq_assoc(acc, ",\"setSender\":"@, set_sender_step_json(*v));
            },
            None => {
                seq_add_empty(acc);
            },
        }
        acc = acc + (match &x.set_sender {
            Some(v) => ",\"setSender\":"@ + set_sender_step_json(*v),
            None => Seq::<char>::empty(),
        });
        assert(out@ == old(out)@ + acc);
    }
    proof {
        assert(acc == flow_step_g5_json(*x));
    }
}

/// The sixth group of optional flow step fields: subject template, template, qamail address and URL parameters.
pub open spec fn flow_step_g6_json(x: FlowStep) -> Seq<char> {
    (match &x.subject_template {
        Some(v) => ",\"subjectTemplate\":"@ + json_string(v@),
        None => Seq::<char>::empty(),
    }) + (match &x.template {
        Some(v) => ",\"template\":"@ + object_description_json(*v),
        None => Seq::<char>::empty(),
    }) + (match &x.to {
        Some(v) => ",\"to\":"@ + json_string(v@),
        None => Seq::<char>::empty(),
    }) + (match &x.url_parameters_template {
        Some(v) => ",\"urlParametersTemplate\":"@ + json_string(v@),
        None => Seq::<char>::empty(),
    })
}

/// Appends the sixth group of optional flow step fields: subject template, template, qamail address and URL parameters.
fn push_flow_step_g6(out: &mut String, x: &FlowStep)
    ensures
        final(out)@ == old(out)@ + flow_step_g6_json(*x),
{
    let ghost mut acc: Seq<char> = Seq::<char>::empty();
    proof {
        seq_add_empty(old(out)@);
        assert(out@ == old(out)@ + acc);
    }
    if let Some(v) = &x.subject_template {
        out.append(",\"subjectTemplate\":");
        push_json_string(out, v.as_str());
    }
    proof {
        match &x.subject_template {
            Some(v) => {
                seq_assoc(old(out)@, acc, ",\"subjectTemplate\":"@);
                seq_assoc(old(out)@, acc + ",\"subjectTemplate\":"@, json_string(v@));
                seq_assoc(acc, ",\"subjectTemplate\":"@, json_string(v@));
            },
            None => {
                seq_add_empty(acc);
            },
        }
        acc = acc + (match &x.subject_template {
            Some(v) => ",\"subjectTemplate\":"@ + json_string(v@),
            None => Seq::<char>::empty(),
        });
        assert(out@ == old(out)@ + acc);
    }
    if let Some(v) = &x.template {
        out.append(",\"template\":");
        push_object_description_json(out, v);
    }
    proof {
        match &x.template {
            Some(v) => {
                seq_assoc(old(out)@, acc, ",\"template\":"@);
                seq_assoc(old(out)@, acc + ",\"template\":"@, object_description_json(*v));
                seq_assoc(acc, ",\"template\":"@, object_description_json(*v));
            },
            None => {
                seq_add_empty(acc);
            },
        }
        acc = acc + (match &x.template {
            Some(v) => ",\"template\":"@ + object_description_json(*v),
            None => Seq::<char>::empty(),
        });
        assert(out@ == old(out)@ + acc);
    }
    if let Some(v) = &x.to {
        out.append(",\"to\":");
        push_json_string(out, v.as_str());
    }
    proof {
        match &x.to {
            Some(v) => {
                seq_assoc(old(out)@, acc, ",\"to\":"@);
                seq_assoc(old(out)@, acc + ",\"to\":"@, json_string(v@));
                seq_assoc(acc, ",\"to\":"@, json_string(v@));
            },
            None => {
                seq_add_empty(acc);
            },
        }
        acc = acc + (match &x.to {
            Some(v) => ",\"to\":"@ + json_string(v@),
            None => Seq::<char>::empty(),
        });
        assert(out@ == old(out)@ + acc);
    }
    if let Some(v) = &x.url_parameters_template {
        out.append(",\"urlParametersTemplate\":");
        push_json_string(out, v.as_str());
    }
    proof {
        match &x.url_parameters_template {
            Some(v) => {
                seq_assoc(old(out)@, acc, ",\"urlParametersTemplate\":"@);
                seq_assoc(old(out)@, acc + ",\"urlParametersTemplate\":"@, json_string(v@));
                seq_assoc(acc, ",\"urlParametersTemplate\":"@, json_string(v@));
            },
            None => {
                seq_add_empty(acc);
            },
        }
        acc = acc + (match &x.url_parameters_template {
            Some(v) => ",\"urlParametersTemplate\":"@ + json_string(v@),
            None => Seq::<char>::empty(),
        });
        assert(out@ == old(out)@ + acc);
    }
    proof {
        assert(acc == flow_step_g6_json(*x));
    }
}

/// The JSON object for one flow step: the type discriminator first, then
/// each optional field exactly when it is set.
pub open spec fn flow_step_json(x: FlowStep) -> Seq<char> {
    "{\"type\":"@ + json_string(flow_step_type_name(x.ty)) + flow_step_g1_json(x)
        + flow_step_g2_json(x) + flow_step_g3_json(x) + flow_step_g4_json(x) + flow_step_g5_json(x)
        + flow_step_g6_json(x) + "}"@
}

/// Appends the JSON object for one flow step.
fn push_flow_step_json(out: &mut String, x: &FlowStep)
    ensures
        final(out)@ == old(out)@ + flow_step_json(*x),
{
    let ghost mut acc: Seq<char> = "{\"type\":"@ + json_string(flow_step_type_name(x.ty));
    out.append("{\"type\":");
    match x.ty {
        crate::ty::flow_step::Type::Analytics => push_json_string(out, "analytics"),
        crate::ty::flow_step::Type::QAmail => push_json_string(out, "qamail"),
        crate::ty::flow_step::Type::Template => push_json_string(out, "template"),
        crate::ty::flow_step::Type::Subject => push_json_string(out, "subject"),
        crate::ty::flow_step::Type::SetSender => push_json_string(out, "setSender"),
        crate::ty::flow_step::Type::AddHeader => push_json_string(out, "addHeader"),
        crate::ty::flow_step::Type::Schedule => push_json_string(out, "schedule"),
        crate::ty::flow_step::Type::RewriteRecipient => push_json_string(out, "rewriteRecipient"),
        crate::ty::flow_step::Type::ResubmitMessage => push_json_string(out, "resubmitMessage"),
        crate::ty::flow_step::Type::MailPlusContact => push_json_string(out, "mailPlusContact"),
        crate::ty::flow_step::Type::ExtractData => push_json_string(out, "extractdata"),
        crate::ty::flow_step::Type::ExternalData => push_json_string(out, "externalData"),
        crate::ty::flow_step::Type::ExternalContent => push_json_string(out, "externalContent"),
        crate::ty::flow_step::Type::Archive => push_json_string(out, "archive"),
        crate::ty::flow_step::Type::Aggregate => push_json_string(out, "aggregate"),
        crate::ty::flow_step::Type::AddAttachment => push_json_string(out, "addAttachment"),
    }
    proof {
        seq_assoc(old(out)@, "{\"type\":"@, json_string(flow_step_type_name(x.ty)));
        assert(out@ == old(out)@ + acc);
    }
    push_flow_step_g1(out, x);
    proof {
        seq_assoc(old(out)@, acc, flow_step_g1_json(*x));
        acc = acc + flow_step_g1_json(*x);
        assert(out@ == old(out)@ + acc);
    }
    push_flow_step_g2(out, x);
    proof {
        seq_assoc(old(out)@, acc, flow_step_g2_json(*x));
        acc = acc + flow_step_g2_json(*x);
        assert(out@ == old(out)@ + acc);
    }
    push_flow_step_g3(out, x);
    proof {
        seq_assoc(old(out)@, acc, flow_step_g3_json(*x));
        acc = acc + flow_step_g3_json(*x);
        assert(out@ == old(out)@ + acc);
    }
    push_flow_step_g4(out, x);
    proof {
        seq_assoc(old(out)@, acc, flow_step_g4_json(*x));
        acc = acc + flow_step_g4_json(*x);
        assert(out@ == old(out)@ + acc);
    }
    push_flow_step_g5(out, x);
    proof {
        seq_assoc(old(out)@, acc, flow_step_g5_json(*x));
        acc = acc + flow_step_g5_json(*x);
        assert(out@ == old(out)@ + acc);
    }
    push_flow_step_g6(out, x);
    proof {
        seq_assoc(old(out)@, acc, flow_step_g6_json(*x));
        acc = acc + flow_step_g6_json(*x);
        assert(out@ == old(out)@ + acc);
    }
    out.append("}");
    proof {
        seq_assoc(old(out)@, acc, "}"@);
        acc = acc + "}"@;
        assert(out@ == old(out)@ + acc);
        assert(acc == flow_step_json(*x));
    }
}

/// The item texts of a flow step array.
pub open spec fn flow_step_items(items: Seq<FlowStep>) -> Seq<Seq<char>> {
    items.map_values(|x: FlowStep| flow_step_json(x))
}

/// Appends the JSON array of flow steps.
fn push_flow_steps_json(out: &mut String, items: &Vec<FlowStep>)
    ensures
        final(out)@ == old(out)@ + array_json(flow_step_items(items@)),
{
    let ghost orig: Seq<char> = out@;
    let ghost texts: Seq<Seq<char>> = flow_step_items(items@);
    out.append("[");
    let n = items.len();
    let mut i: usize = 0;
    proof {
        seq_add_empty(orig + "["@);
        assert(texts.take(0) =~= Seq::<Seq<char>>::empty());
        assert(out@ == orig + "["@ + array_items(texts.take(0)));
    }
    while i < n
        invariant
            i <= n,
            n == items@.len(),
            texts == flow_step_items(items@),
            out@ == orig + "["@ + array_items(texts.take(i as int)),
        decreases n - i,
    {
        if i > 0 {
            out.append(",");
        }
        push_flow_step_json(out, &items[i]);
        proof {
            let base = orig + "["@;
            let ai = array_items(texts.take(i as int));
            let sep: Seq<char> = if i == 0 {
                Seq::empty()
            } else {
                ","@
            };
            let txt = texts[i as int];
            assert(texts.take(i as int + 1).drop_last() =~= texts.take(i as int));
            assert(texts.take(i as int + 1).last() == flow_step_json(items@[i as int]));
            assert(array_items(texts.take(i as int + 1)) == ai + sep + txt);
            if i == 0 {
                seq_add_empty(ai);
            }
            seq_assoc(base, ai, sep);
            seq_assoc(base, ai + sep, txt);
            assert(out@ == base + array_items(texts.take(i as int + 1)));
        }
        i = i + 1;
    }
    out.append("]");
    proof {
        assert(texts.take(n as int) =~= texts);
        seq_assoc(orig, "["@, array_items(texts));
        seq_assoc(orig, "["@ + array_items(texts), "]"@);
        assert(out@ == orig + array_json(texts));
    }
}

/// The complete body for creating a message flow: description, steps and
/// template id always; flow id, statistics summary and samples exactly when
/// set.
pub open spec fn flow_json(f: Flow) -> Seq<char> {
    "{\"description\":"@ + json_string(f.description@) + ",\"steps\":"@ + array_json(
        flow_step_items(f.steps@),
    ) + ",\"templateId\":"@ + json_string(f.template_id@) + (match &f.id {
        Some(v) => ",\"id\":"@ + json_string(v@),
        None => Seq::<char>::empty(),
    }) + (match &f.message_summary {
        Some(v) => ",\"messageSummary\":"@ + message_summary_json(*v),
        None => Seq::<char>::empty(),
    }) + (match &f.statistics {
        Some(v) => ",\"statistics\":"@ + array_json(sample_items(v@)),
        None => Seq::<char>::empty(),
    }) + "}"@
}

/// Encodes a message flow as the platform's JSON body.
pub fn encode_flow(f: &Flow) -> (r: String)
    ensures
        r@ == flow_json(*f),
{
    let mut out = String::new();
    let ghost mut acc: Seq<char> = "{\"description\":"@ + json_string(f.description@);
    out.append("{\"description\":");
    push_json_string(&mut out, f.description.as_str());
    proof {
        seq_empty_add("{\"description\":"@);
        assert(out@ == acc);
    }
    out.append(",\"steps\":");
    push_flow_steps_json(&mut out, &f.steps);
    proof {
        acc = acc + ",\"steps\":"@ + array_json(flow_step_items(f.steps@));
        assert(out@ == acc);
    }
    out.append(",\"templateId\":");
    push_json_string(&mut out, f.template_id.as_str());
    proof {
        acc = acc + ",\"templateId\":"@ + json_string(f.template_id@);
        assert(out@ == acc);
    }
    if let Some(v) = &f.id {
        out.append(",\"id\":");
        push_json_string(&mut out, v.as_str());
    }
    proof {
        match &f.id {
            Some(v) => {
                seq_assoc(acc, ",\"id\":"@, json_string(v@));
            },
            None => {
                seq_add_empty(acc);
            },
        }
        acc = acc + (match &f.id {
            Some(v) => ",\"id\":"@ + json_string(v@),
            None => Seq::<char>::empty(),
        });
        assert(out@ == acc);
    }
    if let Some(v) = &f.message_summary {
        out.append(",\"messageSummary\":");
        push_message_summary_json(&mut out, v);
    }
    proof {
        match &f.message_summary {
            Some(v) => {
                seq_assoc(acc, ",\"messageSummary\":"@, message_summary_json(*v));
            },
            None => {
                seq_add_empty(acc);
            },
        }
        acc = acc + (match &f.message_summary {
            Some(v) => ",\"messageSummary\":"@ + message_summary_json(*v),
            None => Seq::<char>::empty(),
        });
        assert(out@ == acc);
    }
    if let Some(v) = &f.statistics {
        out.append(",\"statistics\":");
        push_samples_json(&mut out, v);
    }
    proof {
        match &f.statistics {
            Some(v) => {
                seq_assoc(acc, ",\"statistics\":"@, array_json(sample_items(v@)));
            },
            None => {
                seq_add_empty(acc);
            },
        }
        acc = acc + (match &f.statistics {
            Some(v) => ",\"statistics\":"@ + array_json(sample_items(v@)),
            None => Seq::<char>::empty(),
        });
        assert(out@ == acc);
    }
    out.append("}");
    proof {
        acc = acc + "}"@;
        assert(out@ == acc);
        assert(acc == flow_json(*f));
    }
    out
}

} // verus!
