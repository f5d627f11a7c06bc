//! Newsletter publishing with effectively-exactly-once delivery.
//!
//! A publish command is deduplicated by a client-supplied idempotency key
//! scoped to the acting user: the first request persists the newsletter
//! issue together with one delivery task per confirmed subscriber and the
//! captured HTTP response, all in one atomic transaction; any replay of the
//! same key returns the stored response without re-running side effects.
//! A delivery worker claims one task at a time with mutual exclusion across
//! concurrent workers and removes it only on a terminal outcome.

pub mod admin_newsletters;
pub mod admin_password;
pub mod authentication;
pub mod configuration;
pub mod delivery_worker;
pub mod domain;
pub mod idempotency;
pub mod idempotency_key;
pub mod login;
pub mod newsletters;
pub mod response;
pub mod store;
pub mod subscriptions;
pub mod subscriptions_confirm;
pub mod utils;

pub use admin_newsletters::handle_publish;
pub use configuration::Env;
pub use delivery_worker::try_execute_task;
pub use delivery_worker::EmailTransport;
pub use delivery_worker::ExecutionResult;
pub use domain::EmailAddress;
pub use domain::NewSubscriber;
pub use domain::SubscriberName;
pub use idempotency_key::IdempotencyKey;
pub use response::CapturedResponse;
pub use response::HeaderPair;
pub use store::Store;
