//! A single-round tallied vote as a verified state machine.
//!
//! A session is created once with a fixed list of options, a close time and
//! an optional allow-list. Until the close time has passed, every eligible
//! identity may vote once for one option. A session can be closed, which
//! destroys it.
//!
//! The modules: [`record`] holds the session record and its model, [`rules`]
//! the rules as functions on the model, [`instructions`] the entry points,
//! [`laws`] what holds of every session, [`layout`] the room a session takes
//! in storage, [`identity`] the identity tokens, [`error`] the reasons for a
//! refusal and [`host`] what is asked of the host.

pub mod error;
pub mod host;
pub mod identity;
pub mod instructions;
pub mod laws;
pub mod layout;
pub mod record;
pub mod rules;

pub use error::{ErrorCode, VoteError};
pub use identity::Identity;
pub use instructions::{close_session, initialize, vote, vote_at, CloseSession, Initialize, Vote};
pub use layout::ACCOUNT_SPACE;
pub use record::{OptionCount, VoteAccount, MAX_ALLOW, MAX_LABELS, MAX_LABEL_SIZE, MAX_VOTERS};
