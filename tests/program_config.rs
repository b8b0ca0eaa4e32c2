use squads_multisig::errors::MultisigError;
use squads_multisig::program_config::{
    ProgramConfig, ProgramConfigSetAuthorityArgs, ProgramConfigSetMultisigCreationFeeArgs,
    ProgramConfigSetTreasuryArgs,
};
use squads_multisig::pubkey::Pubkey;
use squads_multisig::state;

fn key(n: u8) -> Pubkey {
    Pubkey::new([n; 32])
}

fn global(authority: u8, caller: u8) -> ProgramConfig {
    ProgramConfig {
        program_config: state::ProgramConfig {
            authority: key(authority),
            multisig_creation_fee: 10,
            treasury: key(50),
        },
        authority: key(caller),
    }
}

#[test]
fn set_treasury_only_by_authority() {
    let mut c = global(1, 2);
    let r = ProgramConfig::program_config_set_treasury(&mut c, ProgramConfigSetTreasuryArgs { new_treasury: key(60) });
    assert_eq!(r, Err(MultisigError::Unauthorized));
    assert!(c.program_config.treasury == key(50));
    c.authority = key(1);
    let r = ProgramConfig::program_config_set_treasury(&mut c, ProgramConfigSetTreasuryArgs { new_treasury: key(60) });
    assert_eq!(r, Ok(()));
    assert!(c.program_config.treasury == key(60));
    assert!(c.program_config.authority == key(1));
    assert_eq!(c.program_config.multisig_creation_fee, 10);
}

#[test]
fn set_creation_fee() {
    let mut c = global(1, 1);
    let args = ProgramConfigSetMultisigCreationFeeArgs { new_multisig_creation_fee: u64::MAX };
    assert_eq!(ProgramConfig::program_config_set_multisig_creation_fee(&mut c, args), Ok(()));
    assert_eq!(c.program_config.multisig_creation_fee, u64::MAX);
    let mut d = global(1, 3);
    let args = ProgramConfigSetMultisigCreationFeeArgs { new_multisig_creation_fee: 0 };
    assert_eq!(ProgramConfig::program_config_set_multisig_creation_fee(&mut d, args), Err(MultisigError::Unauthorized));
    assert_eq!(d.program_config.multisig_creation_fee, 10);
}

#[test]
fn set_authority_moves_control() {
    let mut c = global(1, 1);
    let args = ProgramConfigSetAuthorityArgs { new_authority: key(2) };
    assert_eq!(ProgramConfig::program_config_set_authority(&mut c, args), Ok(()));
    assert!(c.program_config.authority == key(2));
    let args = ProgramConfigSetAuthorityArgs { new_authority: key(1) };
    assert_eq!(ProgramConfig::program_config_set_authority(&mut c, args), Err(MultisigError::Unauthorized));
    assert!(c.program_config.authority == key(2));
}

#[test]
fn zero_authority_is_accepted() {
    let mut c = global(1, 1);
    let args = ProgramConfigSetAuthorityArgs { new_authority: Pubkey::default() };
    assert_eq!(ProgramConfig::program_config_set_authority(&mut c, args), Ok(()));
    assert!(c.program_config.authority.is_zero());
    assert_eq!(c.validate(), Err(MultisigError::Unauthorized));
}
