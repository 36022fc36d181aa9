use anchor_lang::prelude::Pubkey;
use token2022_amm::instructions::whitelist::{
    add_hook_to_whitelist, remove_hook_from_whitelist, validate_transfer_hook,
};
use token2022_amm::{AmmError, TransferHookWhitelist, MAX_WHITELISTED_HOOKS};

fn hook(n: u8) -> Pubkey {
    Pubkey::new_from_array([n; 32])
}

fn listed(whitelist: &TransferHookWhitelist) -> Vec<Pubkey> {
    whitelist.whitelisted_hooks[..whitelist.hook_count as usize].to_vec()
}

fn whitelist_of(hooks: &[u8]) -> TransferHookWhitelist {
    let mut whitelist = TransferHookWhitelist::default();
    whitelist.initialize(hook(1)).unwrap();
    for n in hooks {
        whitelist.add_hook(hook(*n)).unwrap();
    }
    whitelist
}

#[test]
fn capacity_is_32() {
    assert_eq!(MAX_WHITELISTED_HOOKS, 32);
}

#[test]
fn default_whitelist_is_empty() {
    let whitelist = TransferHookWhitelist::default();
    assert_eq!(whitelist.authority, Pubkey::new_from_array([0u8; 32]));
    assert_eq!(whitelist.whitelisted_hooks, [Pubkey::new_from_array([0u8; 32]); 32]);
    assert_eq!(whitelist.hook_count, 0);
    assert_eq!(whitelist.reserved, 0);
    assert_eq!(whitelist.padding, [0u64; 8]);
    assert!(!whitelist.is_hook_whitelisted(&Pubkey::default()));
}

#[test]
fn initialize_empties_the_whitelist() {
    let mut whitelist = whitelist_of(&[10, 11, 12]);
    whitelist.reserved = 9;
    whitelist.padding = [3u64; 8];
    assert_eq!(whitelist.initialize(hook(2)), Ok(()));
    assert_eq!(whitelist.authority, hook(2));
    assert_eq!(whitelist.hook_count, 0);
    assert_eq!(whitelist.reserved, 0);
    assert_eq!(whitelist.padding, [0u64; 8]);
    assert_eq!(whitelist.whitelisted_hooks, [Pubkey::default(); 32]);
    assert!(!whitelist.is_hook_whitelisted(&hook(10)));
    assert!(!whitelist.is_hook_whitelisted(&hook(11)));
}

#[test]
fn added_hook_is_whitelisted() {
    let mut whitelist = whitelist_of(&[]);
    assert!(!whitelist.is_hook_whitelisted(&hook(10)));
    assert_eq!(whitelist.add_hook(hook(10)), Ok(()));
    assert!(whitelist.is_hook_whitelisted(&hook(10)));
    assert!(!whitelist.is_hook_whitelisted(&hook(11)));
    assert_eq!(whitelist.hook_count, 1);
    assert_eq!(whitelist.authority, hook(1));
}

#[test]
fn keys_that_differ_in_one_byte_are_told_apart() {
    let mut bytes = [7u8; 32];
    let first = Pubkey::new_from_array(bytes);
    bytes[31] = 8;
    let second = Pubkey::new_from_array(bytes);
    let mut whitelist = whitelist_of(&[]);
    whitelist.add_hook(first).unwrap();
    assert!(whitelist.is_hook_whitelisted(&first));
    assert!(!whitelist.is_hook_whitelisted(&second));
    assert_eq!(whitelist.add_hook(second), Ok(()));
    assert_eq!(whitelist.hook_count, 2);
}

#[test]
fn second_add_of_a_hook_fails() {
    let mut whitelist = whitelist_of(&[10, 11]);
    assert_eq!(
        whitelist.add_hook(hook(10)),
        Err(AmmError::HookAlreadyWhitelisted)
    );
    assert_eq!(
        whitelist.add_hook(hook(11)),
        Err(AmmError::HookAlreadyWhitelisted)
    );
    assert_eq!(listed(&whitelist), vec![hook(10), hook(11)]);
}

#[test]
fn full_whitelist_reports_full_before_duplicate() {
    let all: Vec<u8> = (100..132).collect();
    let mut whitelist = whitelist_of(&all);
    assert_eq!(whitelist.add_hook(hook(100)), Err(AmmError::WhitelistFull));
    assert_eq!(whitelist.add_hook(hook(50)), Err(AmmError::WhitelistFull));
    assert_eq!(whitelist.hook_count, 32);
}

#[test]
fn slots_beyond_the_count_are_not_read() {
    let mut whitelist = whitelist_of(&[10]);
    // the default key fills the unused slots, and is not whitelisted for that
    assert!(!whitelist.is_hook_whitelisted(&Pubkey::default()));
    whitelist.add_hook(hook(11)).unwrap();
    whitelist.remove_hook(&hook(11)).unwrap();
    assert!(!whitelist.is_hook_whitelisted(&hook(11)));
    assert_eq!(whitelist.add_hook(Pubkey::default()), Ok(()));
    assert!(whitelist.is_hook_whitelisted(&Pubkey::default()));
}

#[test]
fn removed_hook_is_not_whitelisted() {
    let mut whitelist = whitelist_of(&[10, 11, 12]);
    assert_eq!(whitelist.remove_hook(&hook(11)), Ok(()));
    assert!(!whitelist.is_hook_whitelisted(&hook(11)));
    assert!(whitelist.is_hook_whitelisted(&hook(10)));
    assert!(whitelist.is_hook_whitelisted(&hook(12)));
    assert_eq!(whitelist.hook_count, 2);
    assert_eq!(whitelist.add_hook(hook(11)), Ok(()));
    assert_eq!(listed(&whitelist), vec![hook(10), hook(12), hook(11)]);
}

#[test]
fn remove_of_an_absent_hook_fails() {
    let mut whitelist = whitelist_of(&[10, 11]);
    assert_eq!(
        whitelist.remove_hook(&hook(12)),
        Err(AmmError::HookNotWhitelisted)
    );
    assert_eq!(listed(&whitelist), vec![hook(10), hook(11)]);
    let mut empty = whitelist_of(&[]);
    assert_eq!(
        empty.remove_hook(&hook(10)),
        Err(AmmError::HookNotWhitelisted)
    );
}

#[test]
fn remove_keeps_the_order_of_the_rest() {
    let mut whitelist = whitelist_of(&[10, 11, 12, 13, 14]);
    whitelist.remove_hook(&hook(10)).unwrap();
    assert_eq!(listed(&whitelist), vec![hook(11), hook(12), hook(13), hook(14)]);
    whitelist.remove_hook(&hook(14)).unwrap();
    assert_eq!(listed(&whitelist), vec![hook(11), hook(12), hook(13)]);
    whitelist.remove_hook(&hook(12)).unwrap();
    assert_eq!(listed(&whitelist), vec![hook(11), hook(13)]);
}

#[test]
fn remove_from_a_full_whitelist_keeps_the_order_of_the_rest() {
    let all: Vec<u8> = (100..132).collect();
    let mut whitelist = whitelist_of(&all);
    whitelist.remove_hook(&hook(100)).unwrap();
    whitelist.remove_hook(&hook(131)).unwrap();
    whitelist.remove_hook(&hook(115)).unwrap();
    let expected: Vec<Pubkey> = (101..131u8).filter(|n| *n != 115).map(hook).collect();
    assert_eq!(listed(&whitelist), expected);
    assert_eq!(whitelist.hook_count, 29);
    assert_eq!(whitelist.add_hook(hook(115)), Ok(()));
    assert_eq!(whitelist.whitelisted_hooks[29], hook(115));
}

#[test]
fn remove_clears_the_freed_slot() {
    let mut whitelist = whitelist_of(&[10, 11]);
    whitelist.remove_hook(&hook(10)).unwrap();
    assert_eq!(whitelist.whitelisted_hooks[0], hook(11));
    assert_eq!(whitelist.whitelisted_hooks[1], Pubkey::new_from_array([0u8; 32]));
    assert_eq!(whitelist.whitelisted_hooks[1], Pubkey::default());
}

#[test]
fn count_never_exceeds_capacity() {
    let mut whitelist = whitelist_of(&[]);
    for round in 0..3u8 {
        for n in 0..40u8 {
            let _ = whitelist.add_hook(hook(n.wrapping_mul(3).wrapping_add(round)));
            assert!(whitelist.hook_count as usize <= MAX_WHITELISTED_HOOKS);
        }
        for n in 0..10u8 {
            let _ = whitelist.remove_hook(&hook(n));
            assert!(whitelist.hook_count as usize <= MAX_WHITELISTED_HOOKS);
        }
    }
}

#[test]
fn only_the_authority_changes_the_whitelist() {
    let mut whitelist = whitelist_of(&[10]);
    assert_eq!(
        add_hook_to_whitelist(&mut whitelist, &hook(2), hook(11)),
        Err(AmmError::InvalidWhitelistAuthority)
    );
    assert_eq!(
        remove_hook_from_whitelist(&mut whitelist, &hook(2), hook(10)),
        Err(AmmError::InvalidWhitelistAuthority)
    );
    assert_eq!(listed(&whitelist), vec![hook(10)]);
    assert_eq!(add_hook_to_whitelist(&mut whitelist, &hook(1), hook(11)), Ok(()));
    assert_eq!(
        add_hook_to_whitelist(&mut whitelist, &hook(1), hook(11)),
        Err(AmmError::HookAlreadyWhitelisted)
    );
    assert_eq!(
        remove_hook_from_whitelist(&mut whitelist, &hook(1), hook(10)),
        Ok(())
    );
    assert_eq!(
        remove_hook_from_whitelist(&mut whitelist, &hook(1), hook(10)),
        Err(AmmError::HookNotWhitelisted)
    );
    assert_eq!(listed(&whitelist), vec![hook(11)]);
}

#[test]
fn validate_transfer_hook_passes_whitelisted_hooks_only() {
    let whitelist = whitelist_of(&[10]);
    assert_eq!(validate_transfer_hook(&whitelist, &hook(10)), Ok(true));
    assert_eq!(
        validate_transfer_hook(&whitelist, &hook(11)),
        Err(AmmError::HookNotWhitelisted)
    );
}
