//! A client library for dispatching push notifications to a cloud messaging
//! gateway: a builder assembles a typed message description, `finalize`
//! produces the immutable wire-shaped message, and the transport layer
//! classifies HTTP outcomes into a small typed error set.

pub mod client;
pub mod message;
pub mod response;
pub mod ser;

pub use client::Client;

pub use message::AndroidConfig;
pub use message::AndroidNotification;
pub use message::ApnsConfig;
pub use message::ApnsFcmOptions;
pub use message::LightSettings;
pub use message::MessageBodyV2;
pub use message::MessageBuilder;
pub use message::MessageV2;
pub use message::NotificationV2;
pub use message::Priority;
pub use message::Proxy;
pub use message::SerializationError;
pub use message::Visibility;
pub use response::ErrorReason;
pub use response::FcmError;
pub use response::FcmResponse;
pub use response::HttpDate;
pub use response::RetryAfter;
