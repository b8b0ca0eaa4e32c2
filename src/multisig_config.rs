use vstd::prelude::*;

use crate::errors::MultisigError;
use crate::pubkey::Pubkey;
use crate::state::{
    grown_size, has_key, key_index, lemma_has_key_first, unique_keys, multisig_size, Member, MemberView, Multisig, MultisigView,
};

verus! {

pub struct MultisigAddMemberArgs {
    pub new_member: Member,
    /// Carried along for indexing only; never read.
    pub memo: Option<String>,
}

pub struct MultisigRemoveMemberArgs {
    pub old_member: Pubkey,
    /// Carried along for indexing only; never read.
    pub memo: Option<String>,
}

pub struct MultisigChangeThresholdArgs {
    pub new_threshold: u16,
    /// Carried along for indexing only; never read.
    pub memo: Option<String>,
}

pub struct MultisigSetTimeLockArgs {
    pub time_lock: u32,
    /// Carried along for indexing only; never read.
    pub memo: Option<String>,
}

pub struct MultisigSetConfigAuthorityArgs {
    pub config_authority: Pubkey,
    /// Carried along for indexing only; never read.
    pub memo: Option<String>,
}

pub struct MultisigAddVaultArgs {
    /// The next vault index to mark as used: it must be the current
    /// `vault_index + 1`, which makes a retried request fail instead of
    /// advancing twice.
    pub vault_index: u8,
    /// Carried along for indexing only; never read.
    pub memo: Option<String>,
}

/// What a configuration operation works on: the record, the size of its
/// storage, and the identities that came with the request.
pub struct MultisigConfig {
    pub multisig: Multisig,
    /// Bytes of storage that the record currently has.
    pub multisig_data_len: usize,
    /// The authenticated caller, who must be the record's config authority.
    pub config_authority: Pubkey,
    /// Who pays when the record's storage must grow.
    pub rent_payer: Option<Pubkey>,
    /// The program that allocates storage, needed when it must grow.
    pub system_program: Option<Pubkey>,
}

pub open spec fn key_opt_view(k: Option<Pubkey>) -> Option<Seq<u8>> {
    match k {
        Some(k) => Some(k@),
        None => None,
    }
}

/// Mathematical view of a configuration request.
#[verifier::ext_equal]
pub struct MultisigConfigView {
    pub multisig: MultisigView,
    pub multisig_data_len: nat,
    pub config_authority: Seq<u8>,
    pub rent_payer: Option<Seq<u8>>,
    pub system_program: Option<Seq<u8>>,
}

impl View for MultisigConfig {
    type V = MultisigConfigView;

    open spec fn view(&self) -> MultisigConfigView {
        MultisigConfigView {
            multisig: self.multisig@,
            multisig_data_len: self.multisig_data_len as nat,
            config_authority: self.config_authority@,
            rent_payer: key_opt_view(self.rent_payer),
            system_program: key_opt_view(self.system_program),
        }
    }
}

/// The record with the member of identity `k` removed and the threshold
/// lowered to the member count where it would exceed it.
pub open spec fn after_removal(m: MultisigView, k: Seq<u8>) -> MultisigView {
    let ms = m.members.remove(key_index(m.members, k));
    MultisigView {
        members: ms,
        threshold: if m.threshold > ms.len() {
            ms.len() as u16
        } else {
            m.threshold
        },
        ..m
    }
}

impl MultisigConfigView {
    /// Whether the caller may configure the record directly.
    pub open spec fn gate(self) -> Result<(), MultisigError> {
        if !self.multisig.is_controlled() {
            Err(MultisigError::MissingAuthority)
        } else if self.config_authority != self.multisig.config_authority {
            Err(MultisigError::Unauthorized)
        } else {
            Ok(())
        }
    }

    /// Outcome of replacing the record by `m`: kept only if `m` satisfies
    /// the invariant; `notify` marks older transactions stale.
    pub open spec fn commit(self, m: MultisigView, notify: bool) -> (Result<(), MultisigError>, Self) {
        if m.valid() {
            (Ok(()), MultisigConfigView { multisig: if notify { m.config_updated() } else { m }, ..self })
        } else {
            (Err(MultisigError::InvalidInvariant), self)
        }
    }

    /// Outcome of adding member `m`.
    pub open spec fn add_member(self, m: MemberView) -> (Result<(), MultisigError>, Self) {
        let pushed = MultisigView { members: self.multisig.members.push(m), ..self.multisig };
        let needed = multisig_size(self.multisig.members.len() + 1 as int);
        if self.gate() is Err {
            (self.gate(), self)
        } else if !pushed.valid() {
            (Err(MultisigError::InvalidInvariant), self)
        } else if self.multisig_data_len >= needed {
            (Ok(()), MultisigConfigView { multisig: pushed.config_updated(), ..self })
        } else if self.rent_payer is None {
            (Err(MultisigError::MissingFundingAccount), self)
        } else if self.system_program is None {
            (Err(MultisigError::MissingSystemCollaborator), self)
        } else {
            (
                Ok(()),
                MultisigConfigView {
                    multisig: pushed.config_updated(),
                    multisig_data_len: grown_size(self.multisig_data_len as int, needed) as nat,
                    ..self
                },
            )
        }
    }

    /// Outcome of removing the member of identity `k`.
    pub open spec fn remove_member(self, k: Seq<u8>) -> (Result<(), MultisigError>, Self) {
        if self.gate() is Err {
            (self.gate(), self)
        } else if self.multisig.members.len() <= 1 {
            (Err(MultisigError::RemoveLastMember), self)
        } else if !has_key(self.multisig.members, k) {
            (Err(MultisigError::MemberNotFound), self)
        } else {
            self.commit(after_removal(self.multisig, k), true)
        }
    }

    /// Outcome of setting the threshold to `t`.
    pub open spec fn change_threshold(self, t: u16) -> (Result<(), MultisigError>, Self) {
        if self.gate() is Err {
            (self.gate(), self)
        } else {
            self.commit(MultisigView { threshold: t, ..self.multisig }, true)
        }
    }

    /// Outcome of setting the time lock to `t`.
    pub open spec fn set_time_lock(self, t: u32) -> (Result<(), MultisigError>, Self) {
        if self.gate() is Err {
            (self.gate(), self)
        } else {
            self.commit(MultisigView { time_lock: t, ..self.multisig }, true)
        }
    }

    /// Outcome of handing configuration to identity `a`.
    pub open spec fn set_config_authority(self, a: Seq<u8>) -> (Result<(), MultisigError>, Self) {
        if self.gate() is Err {
            (self.gate(), self)
        } else {
            self.commit(MultisigView { config_authority: a, ..self.multisig }, true)
        }
    }

    /// Outcome of marking vault `i` as the highest in use. It does not
    /// make older transactions stale.
    pub open spec fn add_vault(self, i: u8) -> (Result<(), MultisigError>, Self) {
        if self.gate() is Err {
            (self.gate(), self)
        } else if i as int != self.multisig.vault_index as int + 1 {
            (Err(MultisigError::InvalidVaultIndex), self)
        } else {
            self.commit(MultisigView { vault_index: i, ..self.multisig }, false)
        }
    }
}

impl MultisigConfig {
    /// The caller must be the record's config authority, and there must be one.
    pub fn validate(&self) -> (r: Result<(), MultisigError>)
        ensures
            r == self@.gate(),
    {
        if self.multisig.config_authority.is_zero() {
            Err(MultisigError::MissingAuthority)
        } else if self.config_authority == self.multisig.config_authority {
            Ok(())
        } else {
            Err(MultisigError::Unauthorized)
        }
    }

    /// Adds a member, growing the record's storage where it is too small.
    /// An identity that is already a member is refused.
    pub fn multisig_add_member(ctx: &mut Self, args: MultisigAddMemberArgs) -> (r: Result<(), MultisigError>)
        ensures
            (r, final(ctx)@) == old(ctx)@.add_member(args.new_member@),
            r is Ok ==> final(ctx)@.multisig.valid(),
    {
        let ghost c0 = ctx@;
        let ghost v0 = ctx.multisig.members@;
        let gate = ctx.validate();
        if gate.is_err() {
            return gate;
        }
        if ctx.multisig.members.len() >= u16::MAX as usize {
            return Err(MultisigError::InvalidInvariant);
        }
        let members_length = ctx.multisig.members.len() + 1;
        ctx.multisig.add_member(args.new_member);
        if ctx.multisig.check_invariant().is_err() {
            let _ = ctx.multisig.members.pop();
            assert(ctx.multisig.members@ =~= v0);
            assert(ctx.multisig@.members =~= c0.multisig.members);
            assert(ctx@ =~= c0);
            return Err(MultisigError::InvalidInvariant);
        }
        let mut data_len = ctx.multisig_data_len;
        let reallocated = Multisig::realloc_if_needed(
            &mut data_len,
            members_length,
            &ctx.rent_payer,
            &ctx.system_program,
        );
        if let Err(e) = reallocated {
            let _ = ctx.multisig.members.pop();
            assert(ctx.multisig.members@ =~= v0);
            assert(ctx.multisig@.members =~= c0.multisig.members);
            assert(ctx@ =~= c0);
            return Err(e);
        }
        ctx.multisig_data_len = data_len;
        ctx.multisig.config_updated();
        Ok(())
    }

    /// Removes the member of identity `args.old_member`, lowering the
    /// threshold to the new member count where it would exceed it.
    pub fn multisig_remove_member(ctx: &mut Self, args: MultisigRemoveMemberArgs) -> (r: Result<(), MultisigError>)
        ensures
            (r, final(ctx)@) == old(ctx)@.remove_member(args.old_member@),
            r is Ok ==> final(ctx)@.multisig.valid(),
    {
        let ghost c0 = ctx@;
        let ghost v0 = ctx.multisig.members@;
        let gate = ctx.validate();
        if gate.is_err() {
            return gate;
        }
        if ctx.multisig.members.len() <= 1 {
            return Err(MultisigError::RemoveLastMember);
        }
        let index = match ctx.multisig.is_member(&args.old_member) {
            Some(i) => i,
            None => {
                return Err(MultisigError::MemberNotFound);
            },
        };
        proof {
            lemma_has_key_first(c0.multisig.members, args.old_member@);
        }
        let old_threshold = ctx.multisig.threshold;
        let removed = ctx.multisig.members.remove(index);
        let n = ctx.multisig.members.len();
        if ctx.multisig.threshold as usize > n {
            ctx.multisig.threshold = n as u16;
        }
        assert(ctx.multisig@.members =~= c0.multisig.members.remove(index as int));
        assert(ctx@.multisig =~= after_removal(c0.multisig, args.old_member@));
        if ctx.multisig.check_invariant().is_err() {
            ctx.multisig.members.insert(index, removed);
            ctx.multisig.threshold = old_threshold;
            assert(ctx.multisig.members@ =~= v0);
            assert(ctx.multisig@.members =~= c0.multisig.members);
            assert(ctx@ =~= c0);
            return Err(MultisigError::InvalidInvariant);
        }
        ctx.multisig.config_updated();
        Ok(())
    }

    /// Sets the number of approvals an action needs.
    pub fn multisig_change_threshold(ctx: &mut Self, args: MultisigChangeThresholdArgs) -> (r: Result<(), MultisigError>)
        ensures
            (r, final(ctx)@) == old(ctx)@.change_threshold(args.new_threshold),
            r is Ok ==> final(ctx)@.multisig.valid(),
    {
        let ghost c0 = ctx@;
        let gate = ctx.validate();
        if gate.is_err() {
            return gate;
        }
        let old_threshold = ctx.multisig.threshold;
        ctx.multisig.threshold = args.new_threshold;
        if ctx.multisig.check_invariant().is_err() {
            ctx.multisig.threshold = old_threshold;
            assert(ctx@ =~= c0);
            return Err(MultisigError::InvalidInvariant);
        }
        ctx.multisig.config_updated();
        Ok(())
    }

    /// Sets the delay between approval and execution.
    pub fn multisig_set_time_lock(ctx: &mut Self, args: MultisigSetTimeLockArgs) -> (r: Result<(), MultisigError>)
        ensures
            (r, final(ctx)@) == old(ctx)@.set_time_lock(args.time_lock),
            r is Ok ==> final(ctx)@.multisig.valid(),
    {
        let ghost c0 = ctx@;
        let gate = ctx.validate();
        if gate.is_err() {
            return gate;
        }
        let old_time_lock = ctx.multisig.time_lock;
        ctx.multisig.time_lock = args.time_lock;
        if ctx.multisig.check_invariant().is_err() {
            ctx.multisig.time_lock = old_time_lock;
            assert(ctx@ =~= c0);
            return Err(MultisigError::InvalidInvariant);
        }
        ctx.multisig.config_updated();
        Ok(())
    }

    /// Hands configuration to another identity; the all-zero identity
    /// leaves the record without a config authority.
    pub fn multisig_set_config_authority(
        ctx: &mut Self,
        args: MultisigSetConfigAuthorityArgs,
    ) -> (r: Result<(), MultisigError>)
        ensures
            (r, final(ctx)@) == old(ctx)@.set_config_authority(args.config_authority@),
            r is Ok ==> final(ctx)@.multisig.valid(),
    {
        let ghost c0 = ctx@;
        let gate = ctx.validate();
        if gate.is_err() {
            return gate;
        }
        let old_authority = ctx.multisig.config_authority;
        ctx.multisig.config_authority = args.config_authority;
        if ctx.multisig.check_invariant().is_err() {
            ctx.multisig.config_authority = old_authority;
            assert(ctx@ =~= c0);
            return Err(MultisigError::InvalidInvariant);
        }
        ctx.multisig.config_updated();
        Ok(())
    }

    /// Marks the next vault as in use. The caller names that vault's index,
    /// so a repeated request fails. Transactions do not become stale.
    pub fn multisig_add_vault(ctx: &mut Self, args: MultisigAddVaultArgs) -> (r: Result<(), MultisigError>)
        ensures
            (r, final(ctx)@) == old(ctx)@.add_vault(args.vault_index),
            r is Ok ==> final(ctx)@.multisig.valid(),
    {
        let ghost c0 = ctx@;
        let gate = ctx.validate();
        if gate.is_err() {
            return gate;
        }
        if ctx.multisig.vault_index == u8::MAX || args.vault_index != ctx.multisig.vault_index + 1 {
            return Err(MultisigError::InvalidVaultIndex);
        }
        let old_vault_index = ctx.multisig.vault_index;
        ctx.multisig.vault_index = args.vault_index;
        if ctx.multisig.check_invariant().is_err() {
            ctx.multisig.vault_index = old_vault_index;
            assert(ctx@ =~= c0);
            return Err(MultisigError::InvalidInvariant);
        }
        Ok(())
    }
}

/// The threshold lies between one and the member count.
pub open spec fn threshold_in_bounds(m: MultisigView) -> bool {
    1 <= m.threshold && m.threshold <= m.members.len()
}

/// Every operation that succeeds leaves a record whose threshold lies
/// between one and its member count, and no operation turns a valid record
/// into an invalid one.
pub proof fn lemma_success_keeps_invariant(
    c: MultisigConfigView,
    member: MemberView,
    key: Seq<u8>,
    threshold: u16,
    time_lock: u32,
    authority: Seq<u8>,
    vault_index: u8,
)
    ensures
        c.add_member(member).0 is Ok ==> threshold_in_bounds(c.add_member(member).1.multisig),
        c.remove_member(key).0 is Ok ==> threshold_in_bounds(c.remove_member(key).1.multisig),
        c.change_threshold(threshold).0 is Ok ==> threshold_in_bounds(
            c.change_threshold(threshold).1.multisig,
        ),
        c.set_time_lock(time_lock).0 is Ok ==> threshold_in_bounds(c.set_time_lock(time_lock).1.multisig),
        c.set_config_authority(authority).0 is Ok ==> threshold_in_bounds(
            c.set_config_authority(authority).1.multisig,
        ),
        c.add_vault(vault_index).0 is Ok ==> threshold_in_bounds(c.add_vault(vault_index).1.multisig),
        c.multisig.valid() ==> c.add_member(member).1.multisig.valid(),
        c.multisig.valid() ==> c.remove_member(key).1.multisig.valid(),
        c.multisig.valid() ==> c.change_threshold(threshold).1.multisig.valid(),
        c.multisig.valid() ==> c.set_time_lock(time_lock).1.multisig.valid(),
        c.multisig.valid() ==> c.set_config_authority(authority).1.multisig.valid(),
        c.multisig.valid() ==> c.add_vault(vault_index).1.multisig.valid(),
{
}

/// Removing an element keeps the identities distinct.
pub proof fn lemma_remove_keeps_unique(s: Seq<MemberView>, i: int)
    requires
        unique_keys(s),
        0 <= i < s.len(),
    ensures
        unique_keys(s.remove(i)),
{
    let t = s.remove(i);
    assert forall|a: int, b: int| 0 <= a < b < t.len() implies t[a].key != t[b].key by {
        let sa = if a < i { a } else { a + 1 };
        let sb = if b < i { b } else { b + 1 };
        assert(t[a] == s[sa]);
        assert(t[b] == s[sb]);
    }
}

/// Removing a member never leaves the threshold out of reach: it becomes
/// the smaller of the old threshold and the new member count, so it is
/// lowered where needed and never raised. On a valid record, an authorized
/// removal of a member, other than the last, always succeeds.
pub proof fn lemma_remove_member_clamps_threshold(c: MultisigConfigView, key: Seq<u8>)
    ensures
        c.remove_member(key).0 is Ok ==> ({
            let after = c.remove_member(key).1.multisig;
            &&& after.members.len() == c.multisig.members.len() - 1
            &&& after.threshold <= c.multisig.threshold
            &&& after.threshold <= after.members.len()
            &&& (after.threshold == c.multisig.threshold || after.threshold == after.members.len())
        }),
        c.multisig.valid() && c.gate() is Ok && c.multisig.members.len() > 1 && has_key(
            c.multisig.members,
            key,
        ) ==> c.remove_member(key).0 is Ok,
{
    if c.gate() is Ok && c.multisig.members.len() > 1 && has_key(c.multisig.members, key) {
        lemma_has_key_first(c.multisig.members, key);
        if c.multisig.valid() {
            lemma_remove_keeps_unique(c.multisig.members, key_index(c.multisig.members, key));
        }
    }
}

/// Vaults are marked in use strictly one after another: naming the index
/// after the current one succeeds and makes it current; naming it again,
/// or any other index, fails.
pub proof fn lemma_add_vault_sequential(c: MultisigConfigView, other: u8)
    requires
        c.gate() is Ok,
        c.multisig.valid(),
        c.multisig.vault_index < u8::MAX,
        other as int != c.multisig.vault_index as int + 1,
    ensures
        ({
            let next = (c.multisig.vault_index + 1) as u8;
            let (r, after) = c.add_vault(next);
            &&& r is Ok
            &&& after.multisig.vault_index == next
            &&& after.add_vault(next) == (Err::<(), MultisigError>(MultisigError::InvalidVaultIndex), after)
        }),
        c.add_vault(other) == (Err::<(), MultisigError>(MultisigError::InvalidVaultIndex), c),
{
}

/// On a record with a single member, an authorized removal always fails
/// with `RemoveLastMember` and changes nothing.
pub proof fn lemma_remove_last_member(c: MultisigConfigView, key: Seq<u8>)
    requires
        c.gate() is Ok,
        c.multisig.members.len() == 1,
    ensures
        c.remove_member(key) == (Err::<(), MultisigError>(MultisigError::RemoveLastMember), c),
{
}

/// A caller other than the record's config authority is refused by every
/// operation with `Unauthorized`, and nothing changes.
pub proof fn lemma_unauthorized_changes_nothing(
    c: MultisigConfigView,
    member: MemberView,
    key: Seq<u8>,
    threshold: u16,
    time_lock: u32,
    authority: Seq<u8>,
    vault_index: u8,
)
    requires
        c.multisig.is_controlled(),
        c.config_authority != c.multisig.config_authority,
    ensures
        c.add_member(member) == (Err::<(), MultisigError>(MultisigError::Unauthorized), c),
        c.remove_member(key) == (Err::<(), MultisigError>(MultisigError::Unauthorized), c),
        c.change_threshold(threshold) == (Err::<(), MultisigError>(MultisigError::Unauthorized), c),
        c.set_time_lock(time_lock) == (Err::<(), MultisigError>(MultisigError::Unauthorized), c),
        c.set_config_authority(authority) == (Err::<(), MultisigError>(MultisigError::Unauthorized), c),
        c.add_vault(vault_index) == (Err::<(), MultisigError>(MultisigError::Unauthorized), c),
{
}

} // verus!
