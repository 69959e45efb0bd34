//! Subscription intake for a newsletter: validated subscriber names and
//! emails, the new-subscriber aggregate, and the decisions of the
//! subscription workflow (persist, then notify, then respond).
use vstd::prelude::*;

pub mod configuration;
pub mod new_subscriber;
pub mod subscriber_email;
pub mod subscriber_name;
pub mod subscriptions;

pub use configuration::{DatabaseSettings, Settings};
pub use new_subscriber::NewSubscriber;
pub use subscriber_email::SubscriberEmail;
pub use subscriber_name::SubscriberName;
pub use subscriptions::FormData;

verus! {

} // verus!
