use mockmail::Email;

#[test]
fn default_email_is_all_empty() {
    let email = Email::default();
    assert_eq!(email.sender, "");
    assert_eq!(email.receiver, "");
    assert_eq!(email.subject, "");
    assert_eq!(email.plaintext, "");
    assert_eq!(email.html, "");
}

#[test]
fn email_fields_are_plain_data() {
    let mut email = Email::default();
    email.sender = "a@x.com".to_string();
    email.receiver = "b@x.com".to_string();
    email.subject = "Hi".to_string();
    email.plaintext = "hello".to_string();
    email.html = "<p>hello</p>".to_string();
    assert_eq!(email.sender, "a@x.com");
    assert_eq!(email.receiver, "b@x.com");
    assert_eq!(email.subject, "Hi");
    assert_eq!(email.plaintext, "hello");
    assert_eq!(email.html, "<p>hello</p>");
}

#[test]
fn email_takes_any_text_without_validation() {
    let email = Email {
        sender: "not an address".to_string(),
        receiver: "empf\u{e4}nger@b\u{fc}cher.example".to_string(),
        subject: String::new(),
        plaintext: "line one\nline two".to_string(),
        html: "<".to_string(),
    };
    assert_eq!(email.sender, "not an address");
    assert_eq!(email.receiver, "empf\u{e4}nger@b\u{fc}cher.example");
    assert_eq!(email.receiver.chars().count(), 24);
    assert_eq!(email.subject, "");
    assert_eq!(email.html, "<");
    assert_eq!(email.plaintext.lines().count(), 2);
}

#[test]
fn email_debug_names_every_field() {
    let email = Email {
        sender: "a@x.com".to_string(),
        receiver: "b@x.com".to_string(),
        subject: "Hi".to_string(),
        plaintext: "hello".to_string(),
        html: "<p>hello</p>".to_string(),
    };
    let shown = format!("{:?}", email);
    assert_eq!(
        shown,
        "Email { sender: \"a@x.com\", receiver: \"b@x.com\", subject: \"Hi\", \
         plaintext: \"hello\", html: \"<p>hello</p>\" }"
    );
}
