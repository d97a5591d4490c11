//! A relay for end-to-end encrypted group chat, with its rules stated and proved.
//!
//! The relay never sees a plaintext or a group key. It keeps users' public keys,
//! channel membership and encrypted messages, and forwards frames between members.
//!
//! Data and outside calls:
//! * [`protocol`]: identifiers, stored records and wire messages.
//! * [`outside`]: the calls into outside crates, and what is believed of them.
//! * [`encoding`]: base64.
//! * [`text`]: decimal numbers in texts.
//! * [`crypto`]: challenges, key validation and signature checks.
//! * [`errors`]: why a request is refused.
//! * [`auth`]: how far a connection has authenticated.
//! * [`fresh`]: what a request takes from chance and from the clock.
//! * [`view_laws`]: what contracts see of these is what they hold.
//!
//! The relay:
//! * [`model`]: the shared state as mathematics.
//! * [`rules`]: what each request does, as mathematics.
//! * [`state`]: the shared state and the primitives on it.
//! * [`dispatch`]: the executable request handler.
//! * [`connection`]: what a connection does with each socket event.
//! * [`request_laws`]: what every request comes to, told by what can be seen.
//! * [`part_laws`]: what holds of the parts that requests are made of.
//! * [`laws`]: properties that span several requests.
//!
//! A minimal relay for development, without signature checks:
//! * [`relay_rules`]: what each request does there.
//! * [`relay`]: its state and its executable request handler.
//! * [`relay_request_laws`]: what every request comes to there.
//! * [`relay_laws`]: properties that span several requests.

pub mod auth;
pub mod connection;
pub mod crypto;
pub mod dispatch;
pub mod encoding;
pub mod errors;
pub mod fresh;
pub mod laws;
pub mod model;
pub mod outside;
pub mod part_laws;
pub mod protocol;
pub mod relay;
pub mod relay_laws;
pub mod relay_request_laws;
pub mod relay_rules;
pub mod request_laws;
pub mod rules;
pub mod state;
pub mod text;
pub mod view_laws;
