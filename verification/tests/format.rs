use resend_client::mail::{write_attachments, Attachment, Mail, MailHtml, MailText};

#[test]
fn format() {
    let mail = MailText {
        from: "a",
        to: vec!["a"],
        subject: "a",
        text: "a",
        attachments: None,
    };

    assert_eq!(
        mail.to_json(),
        r#"{"from":"a","to":["a"],"subject":"a","text":"a","attachments":null}"#
    );
}

#[test]
fn format_attachment() {
    let image = Attachment {
        content: vec![],
        filename: "image.png",
    };

    let mail = MailText {
        from: "a",
        to: vec!["a"],
        subject: "a",
        text: "a",
        attachments: Some(vec![image]),
    };

    assert_eq!(
        mail.to_json(),
        r#"{"from":"a","to":["a"],"subject":"a","text":"a","attachments":[{"content":[],"filename":"image.png"}]}"#
    );
}

#[test]
fn format_html() {
    let mail = MailHtml {
        from: "Acme <onboarding@resend.dev>",
        to: vec!["someone@example.com"],
        subject: "a",
        html: "<p>hola</p>",
        attachments: None,
    };

    assert_eq!(
        mail.to_json(),
        r#"{"from":"Acme <onboarding@resend.dev>","to":["someone@example.com"],"subject":"a","html":"<p>hola</p>","attachments":null}"#
    );
}

#[test]
fn empty_attachment_list_is_an_empty_array() {
    let mail = MailText {
        from: "a",
        to: vec!["a"],
        subject: "a",
        text: "a",
        attachments: Some(vec![]),
    };

    assert_eq!(
        mail.to_json(),
        r#"{"from":"a","to":["a"],"subject":"a","text":"a","attachments":[]}"#
    );
}

#[test]
fn absent_and_empty_attachments_differ() {
    let mut absent = String::new();
    write_attachments(&mut absent, &None);
    assert_eq!(absent, "null");

    let mut empty = String::new();
    write_attachments(&mut empty, &Some(vec![]));
    assert_eq!(empty, "[]");
}

#[test]
fn no_recipients_is_an_empty_array() {
    let mail = MailText {
        from: "a",
        to: vec![],
        subject: "s",
        text: "t",
        attachments: None,
    };

    assert_eq!(
        mail.to_json(),
        r#"{"from":"a","to":[],"subject":"s","text":"t","attachments":null}"#
    );
}

#[test]
fn several_recipients_and_attachments() {
    let mail = MailHtml {
        from: "a@x",
        to: vec!["b@x", "c@x", "d@x"],
        subject: "hi",
        html: "<b>x</b>",
        attachments: Some(vec![
            Attachment {
                content: vec![0, 9, 10, 99, 100, 255],
                filename: "one.bin",
            },
            Attachment {
                content: vec![7],
                filename: "two.bin",
            },
        ]),
    };

    assert_eq!(
        mail.to_json(),
        r#"{"from":"a@x","to":["b@x","c@x","d@x"],"subject":"hi","html":"<b>x</b>","attachments":[{"content":[0,9,10,99,100,255],"filename":"one.bin"},{"content":[7],"filename":"two.bin"}]}"#
    );
}

#[test]
fn attachment_object() {
    let attachment = Attachment {
        content: vec![1, 2, 3],
        filename: "a \"b\".txt",
    };
    let mut out = String::from("x");
    attachment.write_json(&mut out);
    assert_eq!(out, r#"x{"content":[1,2,3],"filename":"a \"b\".txt"}"#);
}

#[test]
fn body_names_exactly_one_of_text_and_html() {
    let text = MailText {
        from: "a",
        to: vec!["a"],
        subject: "a",
        text: "a",
        attachments: None,
    }
    .to_json();
    let html = MailHtml {
        from: "a",
        to: vec!["a"],
        subject: "a",
        html: "a",
        attachments: None,
    }
    .to_json();

    let text: serde_json::Value = serde_json::from_str(&text).unwrap();
    let html: serde_json::Value = serde_json::from_str(&html).unwrap();
    let text = text.as_object().unwrap();
    let html = html.as_object().unwrap();

    assert_eq!(text.len(), 5);
    assert!(text.contains_key("text"));
    assert!(!text.contains_key("html"));
    assert_eq!(html.len(), 5);
    assert!(html.contains_key("html"));
    assert!(!html.contains_key("text"));
}

#[test]
fn members_come_in_the_stated_order() {
    let body = MailHtml {
        from: "f",
        to: vec!["t"],
        subject: "s",
        html: "h",
        attachments: Some(vec![]),
    }
    .to_json();

    let from = body.find(r#""from":"#).unwrap();
    let to = body.find(r#""to":"#).unwrap();
    let subject = body.find(r#""subject":"#).unwrap();
    let html = body.find(r#""html":"#).unwrap();
    let attachments = body.find(r#""attachments":"#).unwrap();

    assert_eq!(from, 1);
    assert!(from < to && to < subject && subject < html && html < attachments);
}

#[test]
fn body_reads_back_as_the_message() {
    let mail = MailText {
        from: "Ann \"the\" Sender <ann@example.com>",
        to: vec!["bob@example.com", "carol\\dave@example.com"],
        subject: "tab\there, line\nbreak, bell\u{7}, é, 日本, \u{1f600}",
        text: "\u{0}\u{1f}\u{7f}\r\n",
        attachments: Some(vec![Attachment {
            content: vec![0, 127, 128, 255],
            filename: "päck\u{8}\u{c}.bin",
        }]),
    };

    let value: serde_json::Value = serde_json::from_str(&mail.to_json()).unwrap();

    assert_eq!(value["from"].as_str(), Some(mail.from));
    assert_eq!(value["to"][0].as_str(), Some(mail.to[0]));
    assert_eq!(value["to"][1].as_str(), Some(mail.to[1]));
    assert_eq!(value["to"].as_array().unwrap().len(), 2);
    assert_eq!(value["subject"].as_str(), Some(mail.subject));
    assert_eq!(value["text"].as_str(), Some(mail.text));
    let attachment = &value["attachments"][0];
    assert_eq!(attachment["filename"].as_str(), Some("päck\u{8}\u{c}.bin"));
    let content: Vec<u64> = attachment["content"]
        .as_array()
        .unwrap()
        .iter()
        .map(|n| n.as_u64().unwrap())
        .collect();
    assert_eq!(content, vec![0, 127, 128, 255]);
}
