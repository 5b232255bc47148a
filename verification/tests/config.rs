use anchor_lang::prelude::Pubkey;
use ratio_emissions::config::{initialize_config, Config, InitializeConfig, VAULT_SEED};

#[test]
fn vault_seed_spells_vault() {
    assert_eq!(&VAULT_SEED, b"vault");
}

#[test]
fn config_takes_initializer_mint_and_derived_vault() {
    let program_id: [u8; 32] = [
        142, 77, 43, 151, 54, 52, 59, 170, 152, 117, 167, 27, 193, 230, 201, 117, 245, 134, 189,
        245, 46, 232, 164, 54, 254, 211, 37, 226, 23, 227, 240, 42,
    ];
    let ctx = InitializeConfig { initializer: [0x0a; 32], program_id };
    let config = initialize_config(&ctx, [0x0b; 32]).unwrap();
    let (vault_pda, vault_bump) =
        Pubkey::find_program_address(&[b"vault"], &Pubkey::new_from_array(program_id));
    assert_eq!(
        config,
        Config {
            admin_pubkey: [0x0a; 32],
            token_mint: [0x0b; 32],
            vault_pda: vault_pda.to_bytes(),
            vault_bump,
        }
    );
    assert_ne!(config.vault_pda, program_id);
}

#[test]
fn vault_address_depends_on_the_program() {
    let mut vaults = Vec::new();
    for seed in 0u8..8 {
        let program_id = [seed; 32];
        let ctx = InitializeConfig { initializer: [1; 32], program_id };
        let config = initialize_config(&ctx, [2; 32]).unwrap();
        let (vault_pda, vault_bump) =
            Pubkey::find_program_address(&[b"vault"], &Pubkey::new_from_array(program_id));
        assert_eq!(config.vault_pda, vault_pda.to_bytes());
        assert_eq!(config.vault_bump, vault_bump);
        // The bump seed reproduces the address.
        let again = Pubkey::create_program_address(
            &[b"vault", &[config.vault_bump]],
            &Pubkey::new_from_array(program_id),
        )
        .unwrap();
        assert_eq!(again.to_bytes(), config.vault_pda);
        assert!(!vaults.contains(&config.vault_pda));
        vaults.push(config.vault_pda);
    }
}

#[test]
fn initialization_is_deterministic() {
    let ctx = InitializeConfig { initializer: [3; 32], program_id: [4; 32] };
    assert_eq!(initialize_config(&ctx, [5; 32]), initialize_config(&ctx, [5; 32]));
}
