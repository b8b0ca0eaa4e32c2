use vstd::prelude::*;

use crate::errors::MultisigError;
use crate::pubkey::{zero_key, Pubkey};

verus! {

/// Bytes of one serialized member: its key and its permission mask.
pub const MEMBER_SIZE: usize = 33;

/// Bytes of a serialized record with no members: account discriminator,
/// create key, config authority, threshold, time lock, transaction index,
/// stale transaction index, vault index, bump and the members' length prefix.
pub const MULTISIG_BASE_SIZE: usize = 100;

/// When the record's storage grows, it grows by at least this many members.
pub const REALLOC_HEADROOM_MEMBERS: usize = 10;

/// Capability bits of a member (propose, vote, execute).
#[derive(Clone, Copy, Debug)]
pub struct Permissions {
    pub mask: u8,
}

/// One identity that takes part in the record's approvals.
#[derive(Clone, Copy, Debug)]
pub struct Member {
    pub key: Pubkey,
    pub permissions: Permissions,
}

/// Mathematical view of a member.
#[verifier::ext_equal]
pub struct MemberView {
    pub key: Seq<u8>,
    pub mask: u8,
}

impl View for Member {
    type V = MemberView;

    open spec fn view(&self) -> MemberView {
        MemberView { key: self.key@, mask: self.permissions.mask }
    }
}

/// The authorization record.
#[derive(Debug)]
pub struct Multisig {
    /// Key that made the record's address unique at creation.
    pub create_key: Pubkey,
    /// Identity that controls configuration; all zero when there is none.
    pub config_authority: Pubkey,
    /// Approvals needed to authorize an action.
    pub threshold: u16,
    /// Seconds between approval and execution.
    pub time_lock: u32,
    /// Index of the last transaction created against the record.
    pub transaction_index: u64,
    /// Transactions up to this index were created against an older
    /// configuration and are stale.
    pub stale_transaction_index: u64,
    /// Highest vault index in use.
    pub vault_index: u8,
    /// Nonce of the record's derived address.
    pub bump: u8,
    /// Members in insertion order.
    pub members: Vec<Member>,
}

/// Mathematical view of the authorization record.
#[verifier::ext_equal]
pub struct MultisigView {
    pub create_key: Seq<u8>,
    pub config_authority: Seq<u8>,
    pub threshold: u16,
    pub time_lock: u32,
    pub transaction_index: u64,
    pub stale_transaction_index: u64,
    pub vault_index: u8,
    pub bump: u8,
    pub members: Seq<MemberView>,
}

impl View for Multisig {
    type V = MultisigView;

    open spec fn view(&self) -> MultisigView {
        MultisigView {
            create_key: self.create_key@,
            config_authority: self.config_authority@,
            threshold: self.threshold,
            time_lock: self.time_lock,
            transaction_index: self.transaction_index,
            stale_transaction_index: self.stale_transaction_index,
            vault_index: self.vault_index,
            bump: self.bump,
            members: self.members@.map_values(|m: Member| m@),
        }
    }
}

/// No two members share an identity.
pub open spec fn unique_keys(s: Seq<MemberView>) -> bool {
    forall|a: int, b: int| 0 <= a < b < s.len() ==> s[a].key != s[b].key
}

/// Some member has identity `k`.
pub open spec fn has_key(s: Seq<MemberView>, k: Seq<u8>) -> bool {
    exists|i: int| 0 <= i < s.len() && s[i].key == k
}

/// `i` is the position of the first member with identity `k`.
pub open spec fn is_first_index(s: Seq<MemberView>, k: Seq<u8>, i: int) -> bool {
    &&& 0 <= i < s.len()
    &&& s[i].key == k
    &&& forall|j: int| 0 <= j < i ==> s[j].key != k
}

/// Position of the first member with identity `k`, where there is one.
pub open spec fn key_index(s: Seq<MemberView>, k: Seq<u8>) -> int {
    choose|i: int| is_first_index(s, k, i)
}

/// The first position with identity `k` is the one `key_index` picks.
pub proof fn lemma_key_index(s: Seq<MemberView>, k: Seq<u8>, i: int)
    requires
        is_first_index(s, k, i),
    ensures
        key_index(s, k) == i,
        has_key(s, k),
{
    let c = key_index(s, k);
    assert(is_first_index(s, k, c));
    if c < i {
        assert(s[c].key != k);
    } else if i < c {
        assert(s[i].key != k);
    }
}

/// Where identity `k` occurs, its first position is well defined.
pub proof fn lemma_has_key_first(s: Seq<MemberView>, k: Seq<u8>)
    requires
        has_key(s, k),
    ensures
        is_first_index(s, k, key_index(s, k)),
    decreases s.len(),
{
    if s[0].key == k {
        lemma_key_index(s, k, 0);
    } else {
        let t = s.drop_first();
        let w = choose|i: int| 0 <= i < s.len() && s[i].key == k;
        assert(t[w - 1].key == k);
        lemma_has_key_first(t, k);
        let j = key_index(t, k);
        assert(is_first_index(s, k, j + 1)) by {
            assert forall|x: int| 0 <= x < j + 1 implies s[x].key != k by {
                if x > 0 {
                    assert(s[x] == t[x - 1]);
                }
            }
        }
        lemma_key_index(s, k, j + 1);
    }
}

/// Storage in bytes that a record with `n` members needs.
pub open spec fn multisig_size(n: int) -> int {
    MULTISIG_BASE_SIZE + n * MEMBER_SIZE
}

/// Storage in bytes after growing from `current` to hold at least `needed`:
/// never less than the headroom above `current`.
pub open spec fn grown_size(current: int, needed: int) -> int {
    let with_headroom = current + REALLOC_HEADROOM_MEMBERS * MEMBER_SIZE;
    if with_headroom >= needed {
        with_headroom
    } else {
        needed
    }
}

impl MultisigView {
    /// The record's invariant.
    pub open spec fn valid(self) -> bool {
        &&& self.members.len() <= u16::MAX
        &&& unique_keys(self.members)
        &&& 1 <= self.threshold
        &&& self.threshold <= self.members.len()
    }

    /// Marks every transaction created so far as stale.
    pub open spec fn config_updated(self) -> MultisigView {
        MultisigView { stale_transaction_index: self.transaction_index, ..self }
    }

    /// The record has a configuration authority.
    pub open spec fn is_controlled(self) -> bool {
        self.config_authority != zero_key()
    }
}

impl Multisig {
    /// Checks the record's invariant.
    pub fn check_invariant(&self) -> (r: Result<(), MultisigError>)
        ensures
            r is Ok <==> self@.valid(),
            r is Err ==> r == Err::<(), MultisigError>(MultisigError::InvalidInvariant),
    {
        let n = self.members.len();
        if n > u16::MAX as usize {
            return Err(MultisigError::InvalidInvariant);
        }
        if self.threshold == 0 || self.threshold as usize > n {
            return Err(MultisigError::InvalidInvariant);
        }
        let ghost ms = self@.members;
        let mut a: usize = 0;
        while a < n
            invariant
                n == self.members.len(),
                ms == self@.members,
                a <= n,
                forall|x: int, y: int| 0 <= x < a && x < y < n ==> ms[x].key != ms[y].key,
            decreases n - a,
        {
            let mut b: usize = a + 1;
            while b < n
                invariant
                    n == self.members.len(),
                    ms == self@.members,
                    a < n,
                    a + 1 <= b <= n,
                    forall|x: int, y: int| 0 <= x < a && x < y < n ==> ms[x].key != ms[y].key,
                    forall|y: int| a < y < b ==> ms[a as int].key != ms[y].key,
                decreases n - b,
            {
                if self.members[a].key == self.members[b].key {
                    assert(ms[a as int].key == ms[b as int].key);
                    return Err(MultisigError::InvalidInvariant);
                }
                b = b + 1;
            }
            a = a + 1;
        }
        Ok(())
    }

    /// Position of the first member with identity `key`.
    pub fn is_member(&self, key: &Pubkey) -> (r: Option<usize>)
        ensures
            match r {
                Some(i) => has_key(self@.members, key@) && i == key_index(self@.members, key@),
                None => !has_key(self@.members, key@),
            },
    {
        let ghost ms = self@.members;
        let mut i: usize = 0;
        while i < self.members.len()
            invariant
                ms == self@.members,
                i <= self.members.len(),
                forall|j: int| 0 <= j < i ==> ms[j].key != key@,
            decreases self.members.len() - i,
        {
            if self.members[i].key == *key {
                assert(is_first_index(ms, key@, i as int));
                proof {
                    lemma_key_index(ms, key@, i as int);
                }
                return Some(i);
            }
            i = i + 1;
        }
        None
    }

    /// Appends a member.
    pub fn add_member(&mut self, new_member: Member)
        ensures
            final(self)@ == (MultisigView { members: old(self)@.members.push(new_member@), ..old(self)@ }),
            final(self).members@ == old(self).members@.push(new_member),
    {
        self.members.push(new_member);
        assert(self@.members =~= old(self)@.members.push(new_member@));
    }

    /// Marks every transaction created so far as stale.
    pub fn config_updated(&mut self)
        ensures
            final(self)@ == old(self)@.config_updated(),
    {
        self.stale_transaction_index = self.transaction_index;
        assert(self@.members =~= old(self)@.members);
    }

    /// Storage in bytes that a record with `members_length` members needs.
    pub fn size(members_length: usize) -> (r: usize)
        requires
            multisig_size(members_length as int) <= usize::MAX,
        ensures
            r == multisig_size(members_length as int),
    {
        MULTISIG_BASE_SIZE + members_length * MEMBER_SIZE
    }

    /// Grows the record's storage, of `data_len` bytes, so that it holds
    /// `members_length` members. Returns whether it grew.
    pub fn realloc_if_needed(
        data_len: &mut usize,
        members_length: usize,
        rent_payer: &Option<Pubkey>,
        system_program: &Option<Pubkey>,
    ) -> (r: Result<bool, MultisigError>)
        requires
            multisig_size(members_length as int) + REALLOC_HEADROOM_MEMBERS * MEMBER_SIZE <= usize::MAX,
        ensures
            *old(data_len) >= multisig_size(members_length as int) ==> r == Ok::<bool, MultisigError>(false),
            *old(data_len) < multisig_size(members_length as int) ==> r == (if rent_payer.is_none() {
                Err(MultisigError::MissingFundingAccount)
            } else if system_program.is_none() {
                Err(MultisigError::MissingSystemCollaborator)
            } else {
                Ok::<bool, MultisigError>(true)
            }),
            r == Ok::<bool, MultisigError>(true) ==> *final(data_len) == grown_size(
                *old(data_len) as int,
                multisig_size(members_length as int),
            ),
            r != Ok::<bool, MultisigError>(true) ==> *final(data_len) == *old(data_len),
    {
        let needed = Multisig::size(members_length);
        if *data_len >= needed {
            return Ok(false);
        }
        if rent_payer.is_none() {
            return Err(MultisigError::MissingFundingAccount);
        }
        if system_program.is_none() {
            return Err(MultisigError::MissingSystemCollaborator);
        }
        let with_headroom = *data_len + REALLOC_HEADROOM_MEMBERS * MEMBER_SIZE;
        *data_len = if with_headroom >= needed {
            with_headroom
        } else {
            needed
        };
        Ok(true)
    }
}

/// The global configuration record.
#[derive(Clone, Copy, Debug)]
pub struct ProgramConfig {
    /// Identity allowed to change this record.
    pub authority: Pubkey,
    /// Fee charged for creating an authorization record.
    pub multisig_creation_fee: u64,
    /// Identity that receives the fees.
    pub treasury: Pubkey,
}

/// Mathematical view of the global configuration record.
pub struct ProgramConfigView {
    pub authority: Seq<u8>,
    pub multisig_creation_fee: u64,
    pub treasury: Seq<u8>,
}

impl View for ProgramConfig {
    type V = ProgramConfigView;

    open spec fn view(&self) -> ProgramConfigView {
        ProgramConfigView {
            authority: self.authority@,
            multisig_creation_fee: self.multisig_creation_fee,
            treasury: self.treasury@,
        }
    }
}

} // verus!
