use whitelist_hook::address::Address;
use whitelist_hook::error::HookError;
use whitelist_hook::init_extra_account_meta::{whitelist_seed, InitializeExtraAccountMetaList};
use whitelist_hook::initialize_whitelist::{InitializeWhitelist, InitializeWhitelistBumps};
use whitelist_hook::state::Whitelist;
use whitelist_hook::transfer_hook::{authorize, TransferHook};

fn key(n: u8) -> Address {
    Address::new([n; 32])
}

/// Raw bytes of an initialized token-2022 account carrying the transfer-hook
/// account extension with the given flag.
fn hook_account(transferring: bool) -> Vec<u8> {
    let mut data = vec![0u8; 165];
    data[108] = 1; // initialized
    data.push(2); // account type: token account
    data.extend_from_slice(&[15, 0]); // extension type: transfer-hook account
    data.extend_from_slice(&[1, 0]); // value length
    data.push(if transferring { 1 } else { 0 });
    data
}

/// An initialized token-2022 account with no extensions at all.
fn plain_account() -> Vec<u8> {
    let mut data = vec![0u8; 165];
    data[108] = 1;
    data
}

fn created_whitelist(bump: u8) -> Whitelist {
    let mut init = InitializeWhitelist { admin: key(9), whitelist: None };
    init.initialize_whitelist(InitializeWhitelistBumps { whitelist: bump }).unwrap();
    init.whitelist.unwrap()
}

fn hook(data: Vec<u8>, owner: Address, whitelist: Whitelist) -> TransferHook {
    TransferHook {
        source_token: data,
        mint: key(100),
        destination_token: key(101),
        owner,
        whitelist,
    }
}

#[test]
fn initialize_gives_empty_list_with_bump() {
    let wl = created_whitelist(7);
    assert_eq!(wl, Whitelist { address: vec![], bump: 7 });
}

#[test]
fn initialize_twice_is_refused() {
    let mut init = InitializeWhitelist { admin: key(9), whitelist: None };
    assert_eq!(init.initialize_whitelist(InitializeWhitelistBumps { whitelist: 7 }), Ok(()));
    assert_eq!(
        init.initialize_whitelist(InitializeWhitelistBumps { whitelist: 8 }),
        Err(HookError::AlreadyInitialized)
    );
    assert_eq!(init.whitelist, Some(Whitelist { address: vec![], bump: 7 }));
}

#[test]
fn add_lists_owner() {
    let mut wl = created_whitelist(7);
    assert_eq!(wl.add_to_whitelist(&key(9), &key(9), key(1)), Ok(()));
    assert_eq!(wl, Whitelist { address: vec![key(1)], bump: 7 });
}

#[test]
fn add_existing_owner_keeps_list() {
    let mut wl = created_whitelist(7);
    wl.add_to_whitelist(&key(9), &key(9), key(1)).unwrap();
    wl.add_to_whitelist(&key(9), &key(9), key(1)).unwrap();
    assert_eq!(wl.address, vec![key(1)]);
}

#[test]
fn add_by_non_authority_is_refused() {
    let mut wl = created_whitelist(7);
    assert_eq!(wl.add_to_whitelist(&key(8), &key(9), key(1)), Err(HookError::Unauthorized));
    assert!(wl.address.is_empty());
}

#[test]
fn remove_by_non_authority_is_refused() {
    let mut wl = created_whitelist(7);
    wl.add_to_whitelist(&key(9), &key(9), key(1)).unwrap();
    assert_eq!(wl.remove_from_whitelist(&key(8), &key(9), &key(1)), Err(HookError::Unauthorized));
    assert_eq!(wl.address, vec![key(1)]);
}

#[test]
fn remove_absent_owner_is_no_op() {
    let mut wl = created_whitelist(7);
    wl.add_to_whitelist(&key(9), &key(9), key(1)).unwrap();
    assert_eq!(wl.remove_from_whitelist(&key(9), &key(9), &key(2)), Ok(()));
    assert_eq!(wl.address, vec![key(1)]);
}

#[test]
fn remove_keeps_order_of_others() {
    let mut wl = created_whitelist(7);
    for n in 1..=4u8 {
        wl.add_to_whitelist(&key(9), &key(9), key(n)).unwrap();
    }
    wl.remove_from_whitelist(&key(9), &key(9), &key(2)).unwrap();
    assert_eq!(wl.address, vec![key(1), key(3), key(4)]);
}

#[test]
fn add_then_remove_restores_list() {
    let mut wl = created_whitelist(7);
    wl.add_to_whitelist(&key(9), &key(9), key(1)).unwrap();
    wl.add_to_whitelist(&key(9), &key(9), key(2)).unwrap();
    let before = wl.clone();
    wl.add_to_whitelist(&key(9), &key(9), key(3)).unwrap();
    wl.remove_from_whitelist(&key(9), &key(9), &key(3)).unwrap();
    assert_eq!(wl, before);
}

#[test]
fn listed_owner_passes_mid_transfer() {
    let mut wl = created_whitelist(7);
    wl.add_to_whitelist(&key(9), &key(9), key(1)).unwrap();
    let mut h = hook(hook_account(true), key(1), wl);
    assert_eq!(h.transfer_hook(1_000), Ok(()));
}

#[test]
fn unlisted_owner_refused_mid_transfer() {
    let mut wl = created_whitelist(7);
    wl.add_to_whitelist(&key(9), &key(9), key(1)).unwrap();
    let mut h = hook(hook_account(true), key(2), wl);
    assert_eq!(h.transfer_hook(1_000), Err(HookError::NotWhitelisted));
}

#[test]
fn listed_owner_refused_outside_transfer() {
    let mut wl = created_whitelist(7);
    wl.add_to_whitelist(&key(9), &key(9), key(1)).unwrap();
    let mut h = hook(hook_account(false), key(1), wl);
    assert_eq!(h.transfer_hook(1_000), Err(HookError::NotTransferring));
}

#[test]
fn unlisted_owner_outside_transfer_is_not_transferring() {
    let wl = created_whitelist(7);
    let mut h = hook(hook_account(false), key(2), wl);
    assert_eq!(h.transfer_hook(0), Err(HookError::NotTransferring));
}

#[test]
fn removed_owner_refused_mid_transfer() {
    let mut wl = created_whitelist(7);
    wl.add_to_whitelist(&key(9), &key(9), key(1)).unwrap();
    wl.remove_from_whitelist(&key(9), &key(9), &key(1)).unwrap();
    let mut h = hook(hook_account(true), key(1), wl);
    assert_eq!(h.transfer_hook(1_000), Err(HookError::NotWhitelisted));
}

#[test]
fn account_without_extension_is_malformed() {
    let mut wl = created_whitelist(7);
    wl.add_to_whitelist(&key(9), &key(9), key(1)).unwrap();
    let mut h = hook(plain_account(), key(1), wl);
    assert_eq!(h.transfer_hook(1), Err(HookError::MalformedAccount));
}

#[test]
fn short_account_is_malformed() {
    let wl = created_whitelist(7);
    let mut h = hook(vec![0u8; 10], key(1), wl);
    assert_eq!(h.transfer_hook(1), Err(HookError::MalformedAccount));
}

#[test]
fn uninitialized_account_is_malformed() {
    let mut data = hook_account(true);
    data[108] = 0;
    let mut wl = created_whitelist(7);
    wl.add_to_whitelist(&key(9), &key(9), key(1)).unwrap();
    let mut h = hook(data, key(1), wl);
    assert_eq!(h.transfer_hook(1), Err(HookError::MalformedAccount));
}

#[test]
fn transfer_hook_leaves_accounts_unchanged() {
    let mut wl = created_whitelist(7);
    wl.add_to_whitelist(&key(9), &key(9), key(1)).unwrap();
    let mut h = hook(hook_account(true), key(1), wl.clone());
    h.transfer_hook(5).unwrap();
    assert_eq!(h.source_token, hook_account(true));
    assert_eq!(h.whitelist, wl);
}

#[test]
fn authorize_checks_flag_before_membership() {
    let wl = created_whitelist(7);
    assert_eq!(authorize(None, &key(1), &wl), Err(HookError::MalformedAccount));
    assert_eq!(authorize(Some(false), &key(1), &wl), Err(HookError::NotTransferring));
    assert_eq!(authorize(Some(true), &key(1), &wl), Err(HookError::NotWhitelisted));
}

#[test]
fn empty_whitelist_refuses_everyone() {
    let wl = created_whitelist(3);
    assert!(!wl.contains(&key(0)));
    assert_eq!(authorize(Some(true), &key(0), &wl), Err(HookError::NotWhitelisted));
}

#[test]
fn address_comparison_reads_every_byte() {
    let mut bytes = [4u8; 32];
    bytes[31] = 5;
    assert!(!key(4).same_as(&Address::new(bytes)));
    assert!(key(4).same_as(&key(4)));
}

#[test]
fn extra_account_metas_point_at_whitelist() {
    let metas = InitializeExtraAccountMetaList::extra_account_metas().unwrap();
    assert_eq!(metas.len(), 1);
    let m = metas[0];
    assert_eq!(m.discriminator, 1);
    let mut config = [0u8; 32];
    config[0] = 1;
    config[1] = 9;
    config[2..11].copy_from_slice(b"whitelist");
    assert_eq!(m.address_config, config);
    assert!(!m.is_signer);
    assert!(!m.is_writable);
}

#[test]
fn extra_account_metas_are_deterministic() {
    let a = InitializeExtraAccountMetaList::extra_account_metas().unwrap();
    let b = InitializeExtraAccountMetaList::extra_account_metas().unwrap();
    assert_eq!(a, b);
}

#[test]
fn whitelist_seed_is_literal() {
    assert_eq!(whitelist_seed(), b"whitelist".to_vec());
}

#[test]
fn extra_account_meta_list_size_fits_one_entry() {
    assert_eq!(InitializeExtraAccountMetaList::extra_account_meta_list_size(), Ok(51));
}

#[test]
fn whitelist_space_counts_tag_length_addresses_and_bump() {
    assert_eq!(Whitelist::space(0), Some(13));
    assert_eq!(Whitelist::space(3), Some(109));
    assert_eq!(Whitelist::space(usize::MAX), None);
}
