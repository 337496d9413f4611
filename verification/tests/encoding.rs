use flowmailer::encode::{encode_flow, encode_submit_message};
use flowmailer::resources::{
    Attachment, Flow, FlowStep, FlowStepExternalData, FlowStepSetHeader, Header, MessageSummary,
    ObjectDescription, Sample, SubmitMessage,
};
use flowmailer::ty::flow_step_external_data::RequestMethod;
use flowmailer::ty::{flow_step, Base64, Date, DeliveryNotificationType, MessageType};
use flowmailer::{MailAddress, MailBuilder};

fn minimal_message() -> SubmitMessage {
    SubmitMessage {
        attachments: None,
        data: "{}".to_string(),
        delivery_notification_type: None,
        flow_selector: None,
        header_from_address: "a@x.com".to_string(),
        header_from_name: String::new(),
        header_to_address: None,
        header_to_name: String::new(),
        headers: Vec::new(),
        html: None,
        message_type: MessageType::Email,
        mimedata: None,
        recipient_address: "b@x.com".to_string(),
        schedule_at: None,
        sender_address: "a@x.com".to_string(),
        subject: "hi".to_string(),
        tags: None,
        text: Some("hello".to_string()),
    }
}

fn decode(text: &str) -> serde_json::Value {
    serde_json::from_str(text).expect("the encoder must produce valid json")
}

#[test]
fn text_mail_body_has_expected_fields() {
    let mail = MailBuilder::new_text(
        MailAddress::new("a@x.com".to_string()),
        MailAddress::new("b@x.com".to_string()),
        "hello".to_string(),
    )
    .set_subject("hi".to_string());
    let msg = mail.submit_message();
    let v = decode(&encode_submit_message(&msg));
    assert_eq!(v.get("senderAddress").and_then(|x| x.as_str()), Some("a@x.com"));
    assert_eq!(
        v.get("recipientAddress").and_then(|x| x.as_str()),
        Some("b@x.com")
    );
    assert_eq!(v.get("subject").and_then(|x| x.as_str()), Some("hi"));
    assert_eq!(v.get("text").and_then(|x| x.as_str()), Some("hello"));
    assert!(v.get("html").is_none());
    assert!(v.get("attachments").is_none());
    assert_eq!(v.get("messageType").and_then(|x| x.as_str()), Some("EMAIL"));
    assert_eq!(
        v.get("headerFromAddress").and_then(|x| x.as_str()),
        Some("a@x.com")
    );
    assert_eq!(v.get("headerFromName").and_then(|x| x.as_str()), Some(""));
    assert_eq!(v.get("headerToName").and_then(|x| x.as_str()), Some(""));
    assert!(v.get("data").expect("data is present").is_object());
}

#[test]
fn html_mail_has_html_and_no_text() {
    let mail = MailBuilder::new_hmtl(
        MailAddress::new("a@x.com".to_string()),
        MailAddress::new("b@x.com".to_string()),
        "<p>hey</p>".to_string(),
    );
    let v = decode(&encode_submit_message(&mail.submit_message()));
    assert_eq!(v.get("html").and_then(|x| x.as_str()), Some("<p>hey</p>"));
    assert!(v.get("text").is_none());
    assert!(v.get("flowSelector").is_none());
}

#[test]
fn template_mail_has_flow_selector() {
    let mail = MailBuilder::new_template(
        MailAddress::new("a@x.com".to_string()),
        MailAddress::new("b@x.com".to_string()),
        "invoice".to_string(),
    );
    let v = decode(&encode_submit_message(&mail.submit_message()));
    assert_eq!(
        v.get("flowSelector").and_then(|x| x.as_str()),
        Some("invoice")
    );
    assert!(v.get("text").is_none());
    assert!(v.get("html").is_none());
}

#[test]
fn mail_data_is_spliced_verbatim() {
    let mail = MailBuilder::new_text(
        MailAddress::new("a@x.com".to_string()),
        MailAddress::new("b@x.com".to_string()),
        "hello".to_string(),
    )
    .set_data("{\"order\":42}".to_string())
    .expect("valid json data");
    let v = decode(&encode_submit_message(&mail.submit_message()));
    assert_eq!(
        v.get("data")
            .and_then(|d| d.get("order"))
            .and_then(|x| x.as_u64()),
        Some(42)
    );
}

#[test]
fn string_escaping_survives_a_json_round_trip() {
    let mut msg = minimal_message();
    let tricky = "q\"uote \\back\nnew\rret\ttab \u{1}ctl ünïcode";
    msg.subject = tricky.to_string();
    msg.text = Some(tricky.to_string());
    let v = decode(&encode_submit_message(&msg));
    assert_eq!(v.get("subject").and_then(|x| x.as_str()), Some(tricky));
    assert_eq!(v.get("text").and_then(|x| x.as_str()), Some(tricky));
}

#[test]
fn full_message_encodes_every_optional_field() {
    let msg = SubmitMessage {
        attachments: Some(vec![Attachment {
            content: Some(Base64::new("Zm9v".to_string())),
            content_id: Some("<cid>".to_string()),
            content_type: Some("application/pdf".to_string()),
            disposition: "attachment".to_string(),
            filename: Some("f.pdf".to_string()),
        }]),
        data: "{\"k\":true}".to_string(),
        delivery_notification_type: Some(DeliveryNotificationType::DeliveryAndFailure),
        flow_selector: Some("previsit".to_string()),
        header_from_address: "from@x.com".to_string(),
        header_from_name: "From".to_string(),
        header_to_address: Some("to@x.com".to_string()),
        header_to_name: "To".to_string(),
        headers: vec![Header {
            name: "X-Custom".to_string(),
            value: "yes".to_string(),
        }],
        html: Some("<b>h</b>".to_string()),
        message_type: MessageType::SMS,
        mimedata: Some(Base64::new("bWltZQ==".to_string())),
        recipient_address: "+31612345678".to_string(),
        schedule_at: Some(Date {
            year: 24,
            month: 12,
            day: 31,
            hour: 23,
            minute: 59,
            second: 7,
        }),
        sender_address: "s@x.com".to_string(),
        subject: "s".to_string(),
        tags: Some(vec!["one".to_string(), "two".to_string()]),
        text: Some("t".to_string()),
    };
    let v = decode(&encode_submit_message(&msg));
    let atts = v.get("attachments").expect("attachments").as_array().unwrap();
    assert_eq!(atts.len(), 1);
    assert_eq!(atts[0].get("content").and_then(|x| x.as_str()), Some("Zm9v"));
    assert_eq!(
        atts[0].get("disposition").and_then(|x| x.as_str()),
        Some("attachment")
    );
    assert_eq!(
        atts[0].get("filename").and_then(|x| x.as_str()),
        Some("f.pdf")
    );
    assert_eq!(
        v.get("deliveryNotificationType").and_then(|x| x.as_str()),
        Some("DELIVERY_AND_FAILURE")
    );
    assert_eq!(v.get("messageType").and_then(|x| x.as_str()), Some("SMS"));
    assert_eq!(
        v.get("headerToAddress").and_then(|x| x.as_str()),
        Some("to@x.com")
    );
    let headers = v.get("headers").unwrap().as_array().unwrap();
    assert_eq!(
        headers[0].get("name").and_then(|x| x.as_str()),
        Some("X-Custom")
    );
    assert_eq!(
        v.get("mimedata").and_then(|x| x.as_str()),
        Some("bWltZQ==")
    );
    let sched = v.get("scheduleAt").expect("scheduleAt");
    assert_eq!(sched.get("year").and_then(|x| x.as_u64()), Some(24));
    assert_eq!(sched.get("month").and_then(|x| x.as_u64()), Some(12));
    assert_eq!(sched.get("day").and_then(|x| x.as_u64()), Some(31));
    assert_eq!(sched.get("hour").and_then(|x| x.as_u64()), Some(23));
    assert_eq!(sched.get("minute").and_then(|x| x.as_u64()), Some(59));
    assert_eq!(sched.get("second").and_then(|x| x.as_u64()), Some(7));
    let tags = v.get("tags").unwrap().as_array().unwrap();
    assert_eq!(tags.len(), 2);
    assert_eq!(tags[0].as_str(), Some("one"));
    assert_eq!(tags[1].as_str(), Some("two"));
    assert_eq!(
        v.get("data").and_then(|d| d.get("k")).and_then(|x| x.as_bool()),
        Some(true)
    );
}

#[test]
fn flow_step_template_sets_only_the_template() {
    let step = FlowStep::template(ObjectDescription {
        description: None,
        id: "68489".to_string(),
    });
    assert!(matches!(step.ty, flow_step::Type::Template));
    assert_eq!(
        step.template.as_ref().map(|t| t.id.as_str()),
        Some("68489")
    );
    assert!(step.add_attachment.is_none());
    assert!(step.aggregate.is_none());
    assert!(step.archive.is_none());
    assert!(step.external_data.is_none());
    assert!(step.schedule.is_none());
    assert!(step.set_header.is_none());
    assert!(step.to.is_none());
}

#[test]
fn fill_none_clears_every_optional_field() {
    let step = FlowStep::fill_none(flow_step::Type::Analytics);
    assert!(matches!(step.ty, flow_step::Type::Analytics));
    assert!(step.template.is_none());
    assert!(step.apply_to_link_domains.is_none());
    assert!(step.divisor.is_none());
    assert!(step.enabled_expression.is_none());
    assert!(step.id.is_none());
}

#[test]
fn flow_encodes_steps_and_wire_names() {
    let mut external = FlowStep::fill_none(flow_step::Type::ExternalData);
    external.external_data = Some(FlowStepExternalData {
        full_response_in_variable: false,
        request_body_template: "body".to_string(),
        request_headers: vec![Header {
            name: "Accept".to_string(),
            value: "application/json".to_string(),
        }],
        request_method: RequestMethod::Put,
        result_format: "json".to_string(),
        result_variable: "res".to_string(),
        url_template: "https://example.test".to_string(),
    });
    let mut with_header = FlowStep::fill_none(flow_step::Type::AddHeader);
    with_header.set_header = Some(FlowStepSetHeader {
        header_name: "X-H".to_string(),
        header_value: "v".to_string(),
    });
    with_header.divisor = Some(250);
    let flow = Flow {
        description: "description".to_string(),
        id: None,
        message_summary: Some(MessageSummary {
            avarage_deliver_time_millis: 1200,
            clicked: 1,
            delivered: 2,
            opened: 3,
            processed: 4,
            sent: 5,
            unique_clicked: 6,
            unique_opened: 7,
        }),
        statistics: Some(vec![Sample {
            timestamp: Date::test(),
            value: 9,
        }]),
        steps: vec![
            FlowStep::template(ObjectDescription {
                description: Some("tpl".to_string()),
                id: "68489".to_string(),
            }),
            external,
            with_header,
        ],
        template_id: "1".to_string(),
    };
    let v = decode(&encode_flow(&flow));
    assert_eq!(
        v.get("description").and_then(|x| x.as_str()),
        Some("description")
    );
    assert_eq!(v.get("templateId").and_then(|x| x.as_str()), Some("1"));
    assert!(v.get("id").is_none());
    let summary = v.get("messageSummary").expect("summary");
    assert_eq!(
        summary
            .get("avarage_deliver_time_millis")
            .and_then(|x| x.as_u64()),
        Some(1200)
    );
    let stats = v.get("statistics").unwrap().as_array().unwrap();
    assert_eq!(stats[0].get("value").and_then(|x| x.as_u64()), Some(9));
    assert_eq!(
        stats[0]
            .get("timestamp")
            .and_then(|t| t.get("year"))
            .and_then(|x| x.as_u64()),
        Some(0)
    );
    let steps = v.get("steps").unwrap().as_array().unwrap();
    assert_eq!(steps.len(), 3);
    assert_eq!(
        steps[0].get("type").and_then(|x| x.as_str()),
        Some("template")
    );
    assert_eq!(
        steps[0]
            .get("template")
            .and_then(|t| t.get("id"))
            .and_then(|x| x.as_str()),
        Some("68489")
    );
    assert_eq!(
        steps[0]
            .get("template")
            .and_then(|t| t.get("description"))
            .and_then(|x| x.as_str()),
        Some("tpl")
    );
    assert_eq!(
        steps[1].get("type").and_then(|x| x.as_str()),
        Some("externalData")
    );
    let ext = steps[1].get("externalData").expect("externalData");
    assert_eq!(
        ext.get("request_method").and_then(|x| x.as_str()),
        Some("PUT")
    );
    assert_eq!(
        ext.get("full_response_in_variable").and_then(|x| x.as_bool()),
        Some(false)
    );
    assert_eq!(
        ext.get("request_headers")
            .and_then(|h| h.as_array())
            .map(|a| a.len()),
        Some(1)
    );
    assert_eq!(
        steps[2].get("type").and_then(|x| x.as_str()),
        Some("addHeader")
    );
    assert_eq!(
        steps[2]
            .get("setHeader")
            .and_then(|h| h.get("header_name"))
            .and_then(|x| x.as_str()),
        Some("X-H")
    );
    assert_eq!(steps[2].get("divisor").and_then(|x| x.as_u64()), Some(250));
    assert!(steps[2].get("aggregate").is_none());
}

#[test]
fn base64_and_date_accessors() {
    let b = Base64::new("Zm9v".to_string());
    assert_eq!(b.as_str(), "Zm9v");
    let d = Date::test();
    assert_eq!(d.year, 0);
    assert_eq!(d.second, 0);
}
