use vstd::prelude::*;

use crate::errors::MultisigError;
use crate::pubkey::Pubkey;
use crate::state::ProgramConfigView;

verus! {

pub struct ProgramConfigSetAuthorityArgs {
    pub new_authority: Pubkey,
}

pub struct ProgramConfigSetMultisigCreationFeeArgs {
    pub new_multisig_creation_fee: u64,
}

pub struct ProgramConfigSetTreasuryArgs {
    pub new_treasury: Pubkey,
}

/// What a global configuration operation works on: the global record and
/// the authenticated caller.
pub struct ProgramConfig {
    pub program_config: crate::state::ProgramConfig,
    /// The authenticated caller, who must be the record's authority.
    pub authority: Pubkey,
}

/// Mathematical view of a global configuration request.
#[verifier::ext_equal]
pub struct ProgramConfigRequestView {
    pub program_config: ProgramConfigView,
    pub authority: Seq<u8>,
}

impl View for ProgramConfig {
    type V = ProgramConfigRequestView;

    open spec fn view(&self) -> ProgramConfigRequestView {
        ProgramConfigRequestView { program_config: self.program_config@, authority: self.authority@ }
    }
}

impl ProgramConfigRequestView {
    /// Whether the caller may change the global record.
    pub open spec fn gate(self) -> Result<(), MultisigError> {
        if self.authority == self.program_config.authority {
            Ok(())
        } else {
            Err(MultisigError::Unauthorized)
        }
    }

    /// Outcome of replacing the global record by `p`, where the caller may.
    pub open spec fn commit(self, p: ProgramConfigView) -> (Result<(), MultisigError>, Self) {
        if self.gate() is Err {
            (self.gate(), self)
        } else {
            (Ok(()), ProgramConfigRequestView { program_config: p, ..self })
        }
    }

    /// Outcome of handing the global record to identity `a`.
    pub open spec fn set_authority(self, a: Seq<u8>) -> (Result<(), MultisigError>, Self) {
        self.commit(ProgramConfigView { authority: a, ..self.program_config })
    }

    /// Outcome of setting the creation fee to `fee`.
    pub open spec fn set_multisig_creation_fee(self, fee: u64) -> (Result<(), MultisigError>, Self) {
        self.commit(ProgramConfigView { multisig_creation_fee: fee, ..self.program_config })
    }

    /// Outcome of sending fees to identity `t`.
    pub open spec fn set_treasury(self, t: Seq<u8>) -> (Result<(), MultisigError>, Self) {
        self.commit(ProgramConfigView { treasury: t, ..self.program_config })
    }
}

impl ProgramConfig {
    /// The caller must be the global record's authority.
    pub fn validate(&self) -> (r: Result<(), MultisigError>)
        ensures
            r == self@.gate(),
    {
        if self.program_config.authority == self.authority {
            Ok(())
        } else {
            Err(MultisigError::Unauthorized)
        }
    }

    /// Hands the global record to another identity.
    pub fn program_config_set_authority(ctx: &mut Self, args: ProgramConfigSetAuthorityArgs) -> (r: Result<(), MultisigError>)
        ensures
            (r, final(ctx)@) == old(ctx)@.set_authority(args.new_authority@),
    {
        let gate = ctx.validate();
        if gate.is_err() {
            return gate;
        }
        ctx.program_config.authority = args.new_authority;
        Ok(())
    }

    /// Sets the fee for creating an authorization record.
    pub fn program_config_set_multisig_creation_fee(
        ctx: &mut Self,
        args: ProgramConfigSetMultisigCreationFeeArgs,
    ) -> (r: Result<(), MultisigError>)
        ensures
            (r, final(ctx)@) == old(ctx)@.set_multisig_creation_fee(args.new_multisig_creation_fee),
    {
        let gate = ctx.validate();
        if gate.is_err() {
            return gate;
        }
        ctx.program_config.multisig_creation_fee = args.new_multisig_creation_fee;
        Ok(())
    }

    /// Sets the identity that receives the fees.
    pub fn program_config_set_treasury(ctx: &mut Self, args: ProgramConfigSetTreasuryArgs) -> (r: Result<(), MultisigError>)
        ensures
            (r, final(ctx)@) == old(ctx)@.set_treasury(args.new_treasury@),
    {
        let gate = ctx.validate();
        if gate.is_err() {
            return gate;
        }
        ctx.program_config.treasury = args.new_treasury;
        Ok(())
    }
}

/// A caller other than the global record's authority is refused by every
/// global operation with `Unauthorized`, and nothing changes; the authority
/// itself always succeeds and changes only the field it names.
pub proof fn lemma_global_authority_gate(
    c: ProgramConfigRequestView,
    authority: Seq<u8>,
    fee: u64,
    treasury: Seq<u8>,
)
    ensures
        c.authority != c.program_config.authority ==> {
            &&& c.set_authority(authority) == (Err::<(), MultisigError>(MultisigError::Unauthorized), c)
            &&& c.set_multisig_creation_fee(fee) == (Err::<(), MultisigError>(MultisigError::Unauthorized), c)
            &&& c.set_treasury(treasury) == (Err::<(), MultisigError>(MultisigError::Unauthorized), c)
        },
        c.authority == c.program_config.authority ==> {
            &&& c.set_authority(authority).0 is Ok
            &&& c.set_authority(authority).1.program_config.authority == authority
            &&& c.set_multisig_creation_fee(fee).0 is Ok
            &&& c.set_multisig_creation_fee(fee).1.program_config.multisig_creation_fee == fee
            &&& c.set_treasury(treasury).0 is Ok
            &&& c.set_treasury(treasury).1.program_config == (ProgramConfigView {
                treasury,
                ..c.program_config
            })
        },
{
}

} // verus!
