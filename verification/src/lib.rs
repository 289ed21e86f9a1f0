//! A pluggable mail-delivery facade: application code hands an [`Email`] to an
//! [`EmailClient`] without knowing whether delivery is live or an in-memory
//! stand-in.

pub mod client;
pub mod delivery;
pub mod email;
pub mod error;
pub mod request;

pub use client::{EmailClient, MockClient, RealClient};
pub use delivery::{email_service, Delivery, DeliveryView};
pub use email::{Email, EmailView};
pub use error::{ConfigError, ConfigErrorView, SendError, SendErrorView, SEND_CONTEXT};
pub use request::{Body, Content, Destination, Message, SendEmailRequest};
