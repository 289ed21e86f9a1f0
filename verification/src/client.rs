//! The two clients, and the closed type that is one or the other.

use crate::error::{ConfigError, ConfigErrorView};
use rusoto_ses::SesClient;
use vstd::prelude::*;

verus! {

/// `rusoto_ses::SesClient`, the provider's client handle. Nothing is claimed of
/// it: a live client only carries it, and whoever performs a delivery uses it.
#[verifier::external_type_specification]
#[verifier::external_body]
pub struct ExSesClient(rusoto_ses::SesClient);

/// `Clone::clone` of `rusoto_ses::SesClient`, which the derived `Clone` of the
/// clients calls. Nothing is claimed of the copy.
pub assume_specification[ <rusoto_ses::SesClient as Clone>::clone ](
    ses_client: &SesClient,
) -> (copy: SesClient)
;

/// A client that delivers through the mail provider.
#[derive(Clone)]
pub struct RealClient {
    /// The configured handle: region and credentials are settled when it is
    /// made.
    pub ses_client: SesClient,
}

/// A client that delivers nothing: it stands in for [`RealClient`] in tests.
#[derive(Clone)]
pub struct MockClient;

/// A mail client: exactly one of the two.
#[derive(Clone)]
pub enum EmailClient {
    Real(RealClient),
    Mock(MockClient),
}

impl RealClient {
    /// Makes a live client of what the handle's setup gave: the client that
    /// holds the handle, or the setup's failure as a [`ConfigError`].
    pub fn new(setup: Result<SesClient, String>) -> (made: Result<RealClient, ConfigError>)
        ensures
            (match setup {
                Ok(ses_client) => made == Ok::<RealClient, ConfigError>(RealClient { ses_client }),
                Err(cause) => made matches Err(error) && error@ == (ConfigErrorView {
                    cause: cause@,
                }),
            }),
    {
        match setup {
            Ok(ses_client) => Ok(RealClient { ses_client }),
            Err(cause) => Err(ConfigError::new(cause)),
        }
    }
}

impl MockClient {
    /// Makes a mock client. This never fails.
    pub fn new() -> (made: Result<MockClient, ConfigError>)
        ensures
            made == Ok::<MockClient, ConfigError>(MockClient),
    {
        Ok(MockClient)
    }
}

impl EmailClient {
    /// Whether deliveries of this client go to the mail provider.
    pub open spec fn is_live(&self) -> bool {
        self is Real
    }

    /// Makes a live client of what the handle's setup gave, as
    /// [`RealClient::new`] does.
    pub fn new(setup: Result<SesClient, String>) -> (made: Result<EmailClient, ConfigError>)
        ensures
            (match setup {
                Ok(ses_client) => made == Ok::<EmailClient, ConfigError>(
                    EmailClient::Real(RealClient { ses_client }),
                ),
                Err(cause) => made matches Err(error) && error@ == (ConfigErrorView {
                    cause: cause@,
                }),
            }),
    {
        let real_client = RealClient::new(setup)?;
        Ok(EmailClient::Real(real_client))
    }

    /// Makes a mock client. This never fails.
    pub fn mock() -> (made: Result<EmailClient, ConfigError>)
        ensures
            made == Ok::<EmailClient, ConfigError>(EmailClient::Mock(MockClient)),
    {
        let mock_client = MockClient::new()?;
        Ok(EmailClient::Mock(mock_client))
    }
}

} // verus!
