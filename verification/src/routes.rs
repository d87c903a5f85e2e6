//! What the service's endpoints decide.

pub mod admin;
pub mod login;
pub mod newsletters;
pub mod subscriptions;
pub mod subscriptions_confirm;

pub use newsletters::BodyData;
pub use newsletters::Content;
pub use newsletters::FormData;
pub use newsletters::Publication;
pub use newsletters::PublishOutcome;
pub use subscriptions_confirm::ConfirmError;
pub use subscriptions_confirm::ConfirmParameters;
pub use login::LoginError;
pub use subscriptions::SubscribeError;
