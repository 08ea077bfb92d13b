use vstd::prelude::*;

verus! {

/// A 32-byte account address.
#[derive(Clone, Copy, Debug, PartialEq, Eq)]
pub struct Pubkey {
    pub bytes: [u8; 32],
}

impl View for Pubkey {
    type V = Seq<u8>;

    open spec fn view(&self) -> Seq<u8> {
        self.bytes@
    }
}

impl Pubkey {
    /// Byte-wise comparison of two addresses.
    pub fn equals(&self, other: &Pubkey) -> (r: bool)
        ensures
            r == (self@ == other@),
    {
        let mut i: usize = 0;
        while i < 32
            invariant
                0 <= i <= 32,
                self@.len() == 32,
                other@.len() == 32,
                forall|j: int| 0 <= j < i ==> self@[j] == other@[j],
            decreases 32 - i,
        {
            if self.bytes[i] != other.bytes[i] {
                return false;
            }
            i = i + 1;
        }
        assert(self@ =~= other@);
        true
    }
}

/// Number of bytes that the UTF-8 encoding of `s` takes.
pub open spec fn utf8_len(s: Seq<char>) -> nat {
    vstd::utf8::encode_utf8(s).len()
}

/// Bytes that a serialized campaign with this title and description takes
/// (without the account discriminator): the fixed fields, then each string
/// as a 4-byte length and its UTF-8 bytes.
pub open spec fn serialized_campaign_len(title: Seq<char>, description: Seq<char>) -> nat {
    32 + 8 + 8 + 8 + 1 + 1 + 4 + utf8_len(title) + 4 + utf8_len(description)
}

/// On-chain state of a crowdfunding campaign.
#[derive(Clone, Debug)]
pub struct Campaign {
    pub creator: Pubkey,
    pub goal: u64,
    pub raised: u64,
    pub deadline: i64,
    pub claimed: bool,
    pub cancelled: bool,
    pub title: String,
    pub description: String,
}

impl Campaign {
    pub const MAX_TITLE_LEN: usize = 50;

    pub const MAX_DESC_LEN: usize = 200;

    pub const INIT_SPACE: usize = 32 + 8 + 8 + 8 + 1 + 1 + (4 + 50) + (4 + 200);

    /// The invariant that every campaign created by this program keeps:
    /// it fits its account, its goal is positive, and funds that were
    /// claimed by the creator were neither cancelled nor short of the goal.
    pub open spec fn well_formed(&self) -> bool {
        &&& self.serialized_len() <= Self::INIT_SPACE
        &&& self.goal > 0
        &&& self.claimed ==> !self.cancelled && self.raised >= self.goal
    }

    /// Bytes that the serialized campaign takes (without the account discriminator).
    pub open spec fn serialized_len(&self) -> nat {
        serialized_campaign_len(self.title@, self.description@)
    }

    /// The deadline has passed and the goal was not reached.
    pub open spec fn failed(&self, now: i64) -> bool {
        now >= self.deadline && self.raised < self.goal
    }
}

/// A donor's contribution to a campaign, kept in an account derived from
/// the campaign and donor addresses.
#[derive(Clone, Copy, Debug)]
pub struct Contribution {
    pub donor: Pubkey,
    pub campaign: Pubkey,
    pub amount: u64,
}

impl Contribution {
    pub const INIT_SPACE: usize = 32 + 32 + 8;
}

/// A lamport transfer that the runtime performs on behalf of an instruction.
#[derive(Clone, Copy, Debug)]
pub struct Transfer {
    pub from: Pubkey,
    pub to: Pubkey,
    pub lamports: u64,
}

} // verus!
