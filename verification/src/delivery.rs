//! One send, in two steps. A client first says what has to happen outside the
//! library, its [`Delivery`]; once that has been carried out, the client turns
//! what came of it into the result of the send. The library itself performs
//! no I/O, and every send stands alone: nothing is retried or remembered.

use crate::client::{EmailClient, MockClient, RealClient};
use crate::email::{Email, EmailView};
use crate::error::{SendError, SendErrorView};
use crate::request::{SendEmailRequest, SendEmailRequestView};
use rusoto_ses::SesClient;
use vstd::prelude::*;

verus! {

/// What a client asks of its surroundings in order to send one email.
pub enum Delivery<'a> {
    /// Issue the request through the handle, once.
    Transmit(&'a SesClient, SendEmailRequest),
    /// Show the email for inspection. Nothing leaves the process.
    Print(Email),
}

/// The mathematical content of a [`Delivery`].
pub ghost enum DeliveryView {
    Transmit(SesClient, SendEmailRequestView),
    Print(EmailView),
}

impl<'a> View for Delivery<'a> {
    type V = DeliveryView;

    open spec fn view(&self) -> DeliveryView {
        match self {
            Delivery::Transmit(ses_client, request) => DeliveryView::Transmit(
                **ses_client,
                request@,
            ),
            Delivery::Print(email) => DeliveryView::Print(email@),
        }
    }
}

/// What came of a delivery, as text: success, or the cause of the failure.
pub open spec fn reply_view(reply: Result<(), String>) -> Result<(), Seq<char>> {
    match reply {
        Ok(_) => Ok(()),
        Err(cause) => Err(cause@),
    }
}

/// The mathematical content of the result of a send.
pub open spec fn sent_view(sent: Result<(), SendError>) -> Result<(), SendErrorView> {
    match sent {
        Ok(_) => Ok(()),
        Err(error) => Err(error@),
    }
}

impl RealClient {
    /// The delivery of `email`: one request, built by
    /// [`SendEmailRequest::for_email`], through this client's handle.
    pub fn prepare<'a>(&'a self, email: Email) -> (delivery: Delivery<'a>)
        ensures
            delivery@ == DeliveryView::Transmit(
                self.ses_client,
                SendEmailRequestView::for_email(email@),
            ),
    {
        Delivery::Transmit(&self.ses_client, SendEmailRequest::for_email(email))
    }

    /// The result of a send whose request met with `reply`: success where the
    /// provider accepted it, and otherwise the cause, wrapped in a
    /// [`SendError`].
    pub fn conclude(&self, reply: Result<(), String>) -> (sent: Result<(), SendError>)
        ensures
            (match reply {
                Ok(_) => sent is Ok,
                Err(cause) => sent matches Err(error) && error@ == SendErrorView::wrapping(cause@),
            }),
    {
        match reply {
            Ok(_) => Ok(()),
            Err(cause) => Err(SendError::new(cause)),
        }
    }
}

impl MockClient {
    /// The delivery of `email`: the email itself, to be shown.
    pub fn prepare(&self, email: Email) -> (delivery: Delivery<'static>)
        ensures
            delivery@ == DeliveryView::Print(email@),
    {
        Delivery::Print(email)
    }

    /// The result of a send: success, whatever came of showing the email.
    pub fn conclude(&self, _reply: Result<(), String>) -> (sent: Result<(), SendError>)
        ensures
            sent is Ok,
    {
        Ok(())
    }
}

impl EmailClient {
    /// What this client asks for in order to send an email with the content
    /// `email`.
    pub open spec fn spec_prepare(&self, email: EmailView) -> DeliveryView {
        match self {
            EmailClient::Real(real_client) => DeliveryView::Transmit(
                real_client.ses_client,
                SendEmailRequestView::for_email(email),
            ),
            EmailClient::Mock(_) => DeliveryView::Print(email),
        }
    }

    /// The result of a send of this client whose delivery met with `reply`.
    pub open spec fn spec_conclude(&self, reply: Result<(), Seq<char>>) -> Result<
        (),
        SendErrorView,
    > {
        match (self, reply) {
            (EmailClient::Real(_), Err(cause)) => Err(SendErrorView::wrapping(cause)),
            _ => Ok(()),
        }
    }

    /// The first step of a send: the delivery of `email`, as the client that
    /// this is prepares it.
    pub fn prepare<'a>(&'a self, email: Email) -> (delivery: Delivery<'a>)
        ensures
            delivery@ == self.spec_prepare(email@),
    {
        match self {
            EmailClient::Real(real_client) => real_client.prepare(email),
            EmailClient::Mock(mock_client) => mock_client.prepare(email),
        }
    }

    /// The second step of a send: its result, given what came of the
    /// delivery, as the client that this is concludes it.
    pub fn conclude(&self, reply: Result<(), String>) -> (sent: Result<(), SendError>)
        ensures
            sent_view(sent) == self.spec_conclude(reply_view(reply)),
    {
        match self {
            EmailClient::Real(real_client) => real_client.conclude(reply),
            EmailClient::Mock(mock_client) => mock_client.conclude(reply),
        }
    }
}

/// The first step of the sample service: the delivery of the all-empty email.
/// The service's result is `client.conclude` of what came of that delivery.
pub fn email_service<'a>(client: &'a EmailClient) -> (delivery: Delivery<'a>)
    ensures
        delivery@ == client.spec_prepare(EmailView::empty()),
{
    let email = Email::default();
    client.prepare(email)
}

/// A send through a mock client asks for no request to the provider, and it
/// succeeds whatever the email and whatever came of showing it.
pub proof fn lemma_mock_send_succeeds_offline(
    client: EmailClient,
    email: EmailView,
    reply: Result<(), Seq<char>>,
)
    requires
        !client.is_live(),
    ensures
        client.spec_prepare(email) == DeliveryView::Print(email),
        client.spec_conclude(reply) == Ok::<(), SendErrorView>(()),
{
}

/// Putting one client in the place of another changes the result of a send
/// only through what came of the delivery. Every client takes every email;
/// where the delivery succeeded every client reports success; and a send fails
/// only where the client is live and its delivery failed, and then with that
/// failure's cause. So two clients of the same kind never differ, and a mock
/// and a live client differ only on a delivery that failed.
pub proof fn lemma_swap_changes_only_delivery(
    one: EmailClient,
    other: EmailClient,
    email: EmailView,
    reply: Result<(), Seq<char>>,
)
    ensures
        one.spec_prepare(email) is Transmit <==> one.is_live(),
        reply is Ok ==> one.spec_conclude(reply) == other.spec_conclude(reply),
        reply is Ok ==> one.spec_conclude(reply) is Ok,
        one.spec_conclude(reply) is Err <==> one.is_live() && reply is Err,
        one.spec_conclude(reply) matches Err(error) ==> error == SendErrorView::wrapping(
            reply->Err_0,
        ),
        one.is_live() == other.is_live() ==> one.spec_conclude(reply) == other.spec_conclude(
            reply,
        ),
        one.spec_conclude(reply) != other.spec_conclude(reply) ==> reply is Err && one.is_live()
            != other.is_live(),
{
}

} // verus!
