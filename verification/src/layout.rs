//! How much room a session takes where it is stored, and the proof that a
//! session never outgrows the room reserved for it.
//!
//! A stored session is the concatenation of: a type tag of 8 bytes; the
//! options, as a count of 4 bytes followed by each option as a length of 4
//! bytes, the label in UTF-8 and the tally in 8 bytes; the voters, as a count
//! of 4 bytes followed by 32 bytes each; the close time in 8 bytes; the
//! allow-list, as a count of 4 bytes followed by 32 bytes each.

use vstd::prelude::*;
use vstd::utf8::encode_utf8;
use crate::identity::IDENTITY_BYTES;
use crate::record::{Session, Tally, MAX_ALLOW, MAX_LABELS, MAX_LABEL_SIZE, MAX_VOTERS};

verus! {

/// The size of the storage that is reserved for a session when it is
/// created, in bytes. The storage never grows.
pub const ACCOUNT_SPACE: usize = 8 + (4 + MAX_LABELS * (4 + MAX_LABEL_SIZE + 8)) + (4 + MAX_VOTERS
    * IDENTITY_BYTES) + 8 + (4 + MAX_ALLOW * IDENTITY_BYTES);

/// The number of bytes that `options` take when stored, without their count.
pub open spec fn options_size(options: Seq<Tally>) -> nat
    decreases options.len(),
{
    if options.len() == 0 {
        0
    } else {
        options_size(options.drop_last()) + 4 + encode_utf8(options.last().label).len() + 8
    }
}

impl Session {
    /// The number of bytes that this session takes when stored.
    pub open spec fn stored_size(self) -> nat {
        let identity = IDENTITY_BYTES as nat;
        8 + (4 + options_size(self.options)) + (4 + self.voters.len() * identity) + 8 + (4
            + self.allow_list.len() * identity)
    }
}

/// Options whose labels all fit take at most 44 bytes each.
pub proof fn lemma_options_size_bound(options: Seq<Tally>)
    requires
        forall|i: int|
            0 <= i < options.len() ==> encode_utf8((#[trigger] options[i]).label).len()
                <= MAX_LABEL_SIZE,
    ensures
        options_size(options) <= 44 * options.len(),
    decreases options.len(),
{
    if options.len() > 0 {
        lemma_options_size_bound(options.drop_last());
    }
}

/// The reserved storage is 5268 bytes, and every session within its capacity
/// fits into it.
pub proof fn session_fits_reserved_storage(session: Session)
    requires
        session.within_capacity(),
    ensures
        ACCOUNT_SPACE == 5268,
        session.stored_size() <= ACCOUNT_SPACE,
{
    lemma_options_size_bound(session.options);
    let identity = IDENTITY_BYTES as nat;
    let voters = session.voters.len();
    let allowed = session.allow_list.len();
    assert(voters * identity <= 3200) by (nonlinear_arith)
        requires
            voters <= 100,
            identity == 32,
    ;
    assert(allowed * identity <= 1600) by (nonlinear_arith)
        requires
            allowed <= 50,
            identity == 32,
    ;
}

} // verus!
