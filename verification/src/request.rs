//! The request that a live client hands to the mail provider: a source
//! address, the destination lists, and a message made of a subject and a body
//! with a plain-text and an HTML part.

use crate::email::{Email, EmailView};
use vstd::prelude::*;

verus! {

/// A piece of text with an optional character set.
#[derive(Debug, PartialEq, Eq)]
pub struct Content {
    pub data: String,
    pub charset: Option<String>,
}

/// The body of a message: a plain-text part and an HTML part, each optional.
#[derive(Debug, PartialEq, Eq)]
pub struct Body {
    pub text: Option<Content>,
    pub html: Option<Content>,
}

/// A subject and a body.
#[derive(Debug, PartialEq, Eq)]
pub struct Message {
    pub subject: Content,
    pub body: Body,
}

/// The To, CC and BCC lists of a message.
#[derive(Debug, PartialEq, Eq)]
pub struct Destination {
    pub to_addresses: Option<Vec<String>>,
    pub cc_addresses: Option<Vec<String>>,
    pub bcc_addresses: Option<Vec<String>>,
}

/// One request to send one message.
#[derive(Debug, PartialEq, Eq)]
pub struct SendEmailRequest {
    pub source: String,
    pub destination: Destination,
    pub message: Message,
}

/// The mathematical content of a [`Content`].
pub ghost struct ContentView {
    pub data: Seq<char>,
    pub charset: Option<Seq<char>>,
}

/// The mathematical content of a [`Body`].
pub ghost struct BodyView {
    pub text: Option<ContentView>,
    pub html: Option<ContentView>,
}

/// The mathematical content of a [`Message`].
pub ghost struct MessageView {
    pub subject: ContentView,
    pub body: BodyView,
}

/// The mathematical content of a [`Destination`]: each list as a sequence of
/// addresses.
pub ghost struct DestinationView {
    pub to_addresses: Option<Seq<Seq<char>>>,
    pub cc_addresses: Option<Seq<Seq<char>>>,
    pub bcc_addresses: Option<Seq<Seq<char>>>,
}

/// The mathematical content of a [`SendEmailRequest`].
pub ghost struct SendEmailRequestView {
    pub source: Seq<char>,
    pub destination: DestinationView,
    pub message: MessageView,
}

/// The content of an optional body part.
pub open spec fn part_view(part: Option<Content>) -> Option<ContentView> {
    match part {
        Some(content) => Some(content@),
        None => None,
    }
}

/// The addresses of an optional list, in order; none for an absent list.
pub open spec fn listed(list: Option<Seq<Seq<char>>>) -> Seq<Seq<char>> {
    match list {
        Some(addresses) => addresses,
        None => Seq::empty(),
    }
}

impl View for Content {
    type V = ContentView;

    open spec fn view(&self) -> ContentView {
        ContentView { data: self.data@, charset: self.charset.deep_view() }
    }
}

impl View for Body {
    type V = BodyView;

    open spec fn view(&self) -> BodyView {
        BodyView { text: part_view(self.text), html: part_view(self.html) }
    }
}

impl View for Message {
    type V = MessageView;

    open spec fn view(&self) -> MessageView {
        MessageView { subject: self.subject@, body: self.body@ }
    }
}

impl View for Destination {
    type V = DestinationView;

    open spec fn view(&self) -> DestinationView {
        DestinationView {
            to_addresses: self.to_addresses.deep_view(),
            cc_addresses: self.cc_addresses.deep_view(),
            bcc_addresses: self.bcc_addresses.deep_view(),
        }
    }
}

impl View for SendEmailRequest {
    type V = SendEmailRequestView;

    open spec fn view(&self) -> SendEmailRequestView {
        SendEmailRequestView {
            source: self.source@,
            destination: self.destination@,
            message: self.message@,
        }
    }
}

impl ContentView {
    /// `data` with no character set named.
    pub open spec fn plain(data: Seq<char>) -> ContentView {
        ContentView { data, charset: None }
    }
}

impl DestinationView {
    /// Everyone the message is addressed to: the To list, then CC, then BCC.
    pub open spec fn recipients(self) -> Seq<Seq<char>> {
        listed(self.to_addresses) + listed(self.cc_addresses) + listed(self.bcc_addresses)
    }
}

impl SendEmailRequestView {
    /// The request that delivers `email`: from its sender, to its receiver
    /// alone, with its subject, and with its plain-text and HTML bodies as two
    /// separate parts.
    pub open spec fn for_email(email: EmailView) -> SendEmailRequestView {
        SendEmailRequestView {
            source: email.sender,
            destination: DestinationView {
                to_addresses: Some(seq![email.receiver]),
                cc_addresses: None,
                bcc_addresses: None,
            },
            message: MessageView {
                subject: ContentView::plain(email.subject),
                body: BodyView {
                    text: Some(ContentView::plain(email.plaintext)),
                    html: Some(ContentView::plain(email.html)),
                },
            },
        }
    }
}

impl Content {
    /// `data` with no character set named.
    pub fn plain(data: String) -> (content: Content)
        ensures
            content@ == ContentView::plain(data@),
    {
        Content { data, charset: None }
    }
}

impl SendEmailRequest {
    /// Maps `email` into the provider's request shape.
    pub fn for_email(email: Email) -> (request: SendEmailRequest)
        ensures
            request@ == SendEmailRequestView::for_email(email@),
            request@.destination.recipients() == seq![email@.receiver],
    {
        let mut to_addresses: Vec<String> = Vec::new();
        to_addresses.push(email.receiver);
        assert(to_addresses.deep_view() =~= seq![email@.receiver]);
        let request = SendEmailRequest {
            source: email.sender,
            destination: Destination {
                to_addresses: Some(to_addresses),
                cc_addresses: None,
                bcc_addresses: None,
            },
            message: Message {
                subject: Content::plain(email.subject),
                body: Body {
                    text: Some(Content::plain(email.plaintext)),
                    html: Some(Content::plain(email.html)),
                },
            },
        };
        proof {
            lemma_request_reaches_receiver_only(email@);
        }
        request
    }
}

/// Whatever the email, the request built for it is addressed to the email's
/// receiver and to nobody else, with nothing on the CC and BCC lists, and its
/// body holds the email's plain text and its HTML as two separate parts.
pub proof fn lemma_request_reaches_receiver_only(email: EmailView)
    ensures
        SendEmailRequestView::for_email(email).destination.recipients() == seq![email.receiver],
        SendEmailRequestView::for_email(email).destination.cc_addresses is None,
        SendEmailRequestView::for_email(email).destination.bcc_addresses is None,
        SendEmailRequestView::for_email(email).message.body.text == Some(
            ContentView::plain(email.plaintext),
        ),
        SendEmailRequestView::for_email(email).message.body.html == Some(
            ContentView::plain(email.html),
        ),
        SendEmailRequestView::for_email(email).message.subject.data == email.subject,
        SendEmailRequestView::for_email(email).source == email.sender,
{
    let destination = SendEmailRequestView::for_email(email).destination;
    assert(listed(destination.to_addresses) + listed(destination.cc_addresses) + listed(
        destination.bcc_addresses,
    ) =~= seq![email.receiver]);
}

} // verus!
