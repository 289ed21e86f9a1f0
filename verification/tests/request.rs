use mockmail::{Body, Content, Destination, Email, Message, SendEmailRequest};

fn sample() -> Email {
    Email {
        sender: "a@x.com".to_string(),
        receiver: "b@x.com".to_string(),
        subject: "Hi".to_string(),
        plaintext: "hello".to_string(),
        html: "<p>hello</p>".to_string(),
    }
}

#[test]
fn request_for_email_is_exact() {
    let request = SendEmailRequest::for_email(sample());
    let expected = SendEmailRequest {
        source: "a@x.com".to_string(),
        destination: Destination {
            to_addresses: Some(vec!["b@x.com".to_string()]),
            cc_addresses: None,
            bcc_addresses: None,
        },
        message: Message {
            subject: Content { data: "Hi".to_string(), charset: None },
            body: Body {
                text: Some(Content { data: "hello".to_string(), charset: None }),
                html: Some(Content { data: "<p>hello</p>".to_string(), charset: None }),
            },
        },
    };
    assert_eq!(request, expected);
}

#[test]
fn request_goes_to_the_receiver_alone() {
    let request = SendEmailRequest::for_email(sample());
    let to = request.destination.to_addresses.unwrap();
    assert_eq!(to.len(), 1);
    assert_eq!(to[0], "b@x.com");
    assert!(request.destination.cc_addresses.is_none());
    assert!(request.destination.bcc_addresses.is_none());
    assert_ne!(to[0], request.source);
}

#[test]
fn request_keeps_text_and_html_apart() {
    let request = SendEmailRequest::for_email(sample());
    let text = request.message.body.text.unwrap();
    let html = request.message.body.html.unwrap();
    assert_eq!(text.data, "hello");
    assert_eq!(html.data, "<p>hello</p>");
    assert_ne!(text, html);
    assert!(text.charset.is_none());
    assert!(html.charset.is_none());
}

#[test]
fn request_source_is_the_sender() {
    let request = SendEmailRequest::for_email(sample());
    assert_eq!(request.source, "a@x.com");
    assert_eq!(request.message.subject.data, "Hi");
    assert!(request.message.subject.charset.is_none());
}

#[test]
fn request_for_the_empty_email_has_one_empty_recipient() {
    let request = SendEmailRequest::for_email(Email::default());
    assert_eq!(request.source, "");
    assert_eq!(request.destination.to_addresses, Some(vec![String::new()]));
    assert_eq!(request.destination.cc_addresses, None);
    assert_eq!(request.destination.bcc_addresses, None);
    assert_eq!(request.message.subject, Content { data: String::new(), charset: None });
    assert_eq!(request.message.body.text, Some(Content { data: String::new(), charset: None }));
    assert_eq!(request.message.body.html, Some(Content { data: String::new(), charset: None }));
}

#[test]
fn request_does_not_mix_up_equal_looking_fields() {
    let email = Email {
        sender: "one".to_string(),
        receiver: "two".to_string(),
        subject: "three".to_string(),
        plaintext: "four".to_string(),
        html: "five".to_string(),
    };
    let request = SendEmailRequest::for_email(email);
    assert_eq!(request.source, "one");
    assert_eq!(request.destination.to_addresses, Some(vec!["two".to_string()]));
    assert_eq!(request.message.subject.data, "three");
    assert_eq!(request.message.body.text.unwrap().data, "four");
    assert_eq!(request.message.body.html.unwrap().data, "five");
}

#[test]
fn plain_content_names_no_charset() {
    let content = Content::plain("text".to_string());
    assert_eq!(content, Content { data: "text".to_string(), charset: None });
}
