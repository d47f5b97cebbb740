//! The session record: the one persistent entity of a vote, and its
//! mathematical model.

use vstd::prelude::*;
use vstd::utf8::encode_utf8;
use crate::identity::Identity;

verus! {

/// The largest number of options a session may offer.
pub const MAX_LABELS: usize = 10;

/// The largest size of an option's label, in bytes of UTF-8.
pub const MAX_LABEL_SIZE: usize = 32;

/// The largest number of voters a session can record.
pub const MAX_VOTERS: usize = 100;

/// The largest number of entries on an allow-list.
pub const MAX_ALLOW: usize = 50;

/// One option of a session with the votes it has received so far.
#[derive(Clone, Debug, PartialEq, Eq)]
pub struct OptionCount {
    /// What the option is called.
    pub label: String,
    /// How many votes it has.
    pub count: u64,
}

/// The model of an [`OptionCount`]: a label and a tally.
pub struct Tally {
    pub label: Seq<char>,
    pub count: nat,
}

impl View for OptionCount {
    type V = Tally;

    open spec fn view(&self) -> Tally {
        Tally { label: self.label@, count: self.count as nat }
    }
}

/// The state of one voting session.
///
/// The position of an option in `options` is the index by which a vote
/// addresses it. `voters` holds who has voted, each at most once. An empty
/// `allow_list` makes the session public; a non-empty one admits its members
/// only.
#[derive(Clone, Debug, PartialEq, Eq)]
pub struct VoteAccount {
    /// The options with their tallies, in addressable order.
    pub options: Vec<OptionCount>,
    /// The identities that have voted.
    pub voters: Vec<Identity>,
    /// The last instant, in seconds since the epoch, at which a vote counts.
    pub close_time: i64,
    /// Who may vote; empty for a public session.
    pub allow_list: Vec<Identity>,
}

/// The model of a [`VoteAccount`].
pub struct Session {
    pub options: Seq<Tally>,
    pub voters: Seq<Identity>,
    pub close_time: int,
    pub allow_list: Seq<Identity>,
}

impl View for VoteAccount {
    type V = Session;

    open spec fn view(&self) -> Session {
        Session {
            options: self.options@.map_values(|o: OptionCount| o@),
            voters: self.voters@,
            close_time: self.close_time as int,
            allow_list: self.allow_list@,
        }
    }
}

/// The sum of the tallies of `options`.
pub open spec fn tally_sum(options: Seq<Tally>) -> nat
    decreases options.len(),
{
    if options.len() == 0 {
        0
    } else {
        tally_sum(options.drop_last()) + options.last().count
    }
}

/// Whether `label` fits the space reserved for a label.
pub open spec fn label_fits(label: Seq<char>) -> bool {
    encode_utf8(label).len() <= MAX_LABEL_SIZE
}

impl Session {
    /// Whether only the members of the allow-list may vote.
    pub open spec fn is_private(self) -> bool {
        self.allow_list.len() > 0
    }

    /// Whether `voter` may vote in this session at all.
    pub open spec fn eligible(self, voter: Identity) -> bool {
        self.is_private() ==> self.allow_list.contains(voter)
    }

    /// The number of votes that the tallies account for.
    pub open spec fn total_votes(self) -> nat {
        tally_sum(self.options)
    }

    /// Nobody is recorded as a voter twice.
    pub open spec fn voters_unique(self) -> bool {
        self.voters.no_duplicates()
    }

    /// In a private session every recorded voter is on the allow-list.
    pub open spec fn voters_eligible(self) -> bool {
        forall|i: int| 0 <= i < self.voters.len() ==> self.eligible(#[trigger] self.voters[i])
    }

    /// Every recorded voter is counted in exactly one tally.
    pub open spec fn votes_conserved(self) -> bool {
        self.total_votes() == self.voters.len()
    }

    /// No tally exceeds what 64 unsigned bits can hold.
    pub open spec fn tallies_representable(self) -> bool {
        forall|i: int| 0 <= i < self.options.len() ==> (#[trigger] self.options[i]).count <= u64::MAX
    }

    /// The record stays within the capacity its storage was sized for.
    pub open spec fn within_capacity(self) -> bool {
        &&& self.options.len() <= MAX_LABELS
        &&& forall|i: int| 0 <= i < self.options.len() ==> label_fits((#[trigger] self.options[i]).label)
        &&& self.voters.len() <= MAX_VOTERS
        &&& self.allow_list.len() <= MAX_ALLOW
    }

    /// The integrity rules that hold of a session after every successful
    /// operation.
    pub open spec fn well_formed(self) -> bool {
        &&& self.voters_unique()
        &&& self.voters_eligible()
        &&& self.votes_conserved()
        &&& self.tallies_representable()
        &&& self.within_capacity()
    }
}

impl VoteAccount {
    /// The integrity rules, of the record as it is stored.
    pub open spec fn well_formed(&self) -> bool {
        self@.well_formed()
    }
}

} // verus!
