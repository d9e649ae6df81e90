use callora_vault::{
    bytes_eq, copy_list, is_valid_price, list_contains, Address, ByteMap, CalloraVault,
    StorageKey, VaultError, VaultEvent, DEFAULT_MAX_DEDUCT,
};

fn addr(s: &str) -> Address {
    Address::from_strkey(s.as_bytes().to_vec())
}

fn vault_addr() -> Address {
    addr("CVAULT")
}
fn owner() -> Address {
    addr("GOWNER")
}
fn usdc() -> Address {
    addr("CUSDC")
}

fn fresh() -> CalloraVault {
    CalloraVault::new(vault_addr())
}

fn initialised() -> CalloraVault {
    let mut v = fresh();
    v.init(owner(), usdc(), None, None, None, None, None, 0).unwrap();
    v
}

#[test]
fn init_with_defaults() {
    let mut v = fresh();
    let (meta, receipt) = v.init(owner(), usdc(), None, None, None, None, None, 0).unwrap();
    assert_eq!(meta.owner, owner());
    assert_eq!(meta.balance, 0);
    assert_eq!(meta.authorized_caller, None);
    assert_eq!(meta.min_deposit, 1);
    assert_eq!(receipt.authorizer, owner());
    assert_eq!(receipt.event, Some(VaultEvent::Init { owner: owner(), balance: 0 }));
    assert_eq!(v.get_meta(), Ok(meta));
    assert_eq!(v.get_admin(), Ok(owner()));
    assert_eq!(v.get_usdc_token(), Ok(usdc()));
    assert_eq!(v.get_max_deduct(), DEFAULT_MAX_DEDUCT);
    assert_eq!(v.get_max_deduct(), i128::MAX);
    assert_eq!(v.balance(), Ok(0));
    assert_eq!(v.get_revenue_pool(), None);
    assert!(!v.is_paused());
}

#[test]
fn init_with_values() {
    let mut v = fresh();
    let caller = addr("GCALLER");
    let pool = addr("GPOOL");
    let (meta, _) = v
        .init(owner(), usdc(), Some(500), Some(caller.clone()), Some(10), Some(pool.clone()), Some(1000), 700)
        .unwrap();
    assert_eq!(meta.balance, 500);
    assert_eq!(meta.min_deposit, 10);
    assert_eq!(meta.authorized_caller, Some(caller));
    assert_eq!(v.get_max_deduct(), 1000);
    assert_eq!(v.get_revenue_pool(), Some(pool.clone()));
    assert_eq!(v.get_contract_addresses(), (Some(usdc()), None, Some(pool)));
}

#[test]
fn init_twice_is_refused() {
    let mut v = initialised();
    let r = v.init(owner(), usdc(), None, None, None, None, None, 0);
    assert_eq!(r.err(), Some(VaultError::AlreadyInitialized));
    assert_eq!(VaultError::AlreadyInitialized.message(), "vault already initialized");
}

#[test]
fn init_refusals() {
    let v = fresh();
    let cases: Vec<(Result<bool, VaultError>, VaultError)> = vec![
        (v.init_preflight(&vault_addr(), None, &None, None, &None, None), VaultError::UsdcTokenIsVault),
        (v.init_preflight(&usdc(), None, &None, None, &Some(vault_addr()), None), VaultError::RevenuePoolIsVault),
        (v.init_preflight(&usdc(), None, &Some(vault_addr()), None, &None, None), VaultError::AuthorizedCallerIsVault),
        (v.init_preflight(&usdc(), Some(-1), &None, None, &None, None), VaultError::NegativeInitialBalance),
        (v.init_preflight(&usdc(), None, &None, Some(0), &None, None), VaultError::MinDepositNotPositive),
        (v.init_preflight(&usdc(), None, &None, None, &None, Some(0)), VaultError::MaxDeductNotPositive),
        (v.init_preflight(&usdc(), None, &None, Some(11), &None, Some(10)), VaultError::MinDepositExceedsMaxDeduct),
    ];
    for (r, e) in cases {
        assert_eq!(r, Err(e));
    }
    assert_eq!(v.init_preflight(&usdc(), None, &None, None, &None, None), Ok(false));
    assert_eq!(v.init_preflight(&usdc(), Some(3), &None, None, &None, None), Ok(true));
}

#[test]
fn init_balance_must_be_on_ledger() {
    let mut v = fresh();
    let r = v.init(owner(), usdc(), Some(100), None, None, None, None, 99);
    assert_eq!(r.err(), Some(VaultError::InitialBalanceExceedsLedger));
    assert_eq!(v.get_meta(), Err(VaultError::NotInitialized));
    let r = v.init(owner(), usdc(), Some(100), None, None, None, None, 100);
    assert!(r.is_ok());
}

#[test]
fn failed_init_changes_nothing() {
    let mut v = fresh();
    let r = v.init(owner(), usdc(), Some(5), None, Some(0), None, None, 10);
    assert_eq!(r.err(), Some(VaultError::MinDepositNotPositive));
    assert_eq!(v.get_admin(), Err(VaultError::NotInitialized));
    assert_eq!(v.get_usdc_token(), Err(VaultError::NotInitialized));
    assert_eq!(v.get_max_deduct(), i128::MAX);
}

#[test]
fn views_before_init() {
    let v = fresh();
    assert_eq!(v.get_meta(), Err(VaultError::NotInitialized));
    assert_eq!(v.balance(), Err(VaultError::NotInitialized));
    assert_eq!(v.get_admin(), Err(VaultError::NotInitialized));
    assert_eq!(v.get_usdc_token(), Err(VaultError::NotInitialized));
    assert_eq!(v.get_settlement(), Err(VaultError::SettlementNotSet));
    assert_eq!(v.get_contract_addresses(), (None, None, None));
    assert_eq!(v.is_authorized_depositor(owner()), Err(VaultError::NotInitialized));
    assert_eq!(v.require_owner(owner()), Err(VaultError::NotInitialized));
    assert_eq!(v.get_allowed_depositors(), Vec::<Address>::new());
    assert!(!v.is_paused());
    assert_eq!(VaultError::SettlementNotSet.message(), "settlement address not set");
}

#[test]
fn paused_flag_is_read() {
    let mut v = initialised();
    v.paused = Some(true);
    assert!(v.is_paused());
    v.paused = Some(false);
    assert!(!v.is_paused());
}

#[test]
fn admin_transfer_in_two_steps() {
    let mut v = initialised();
    let new_admin = addr("GNEW");
    let r = v.set_admin(owner(), new_admin.clone()).unwrap();
    assert_eq!(r.authorizer, owner());
    assert_eq!(r.event, Some(VaultEvent::AdminNominated { current: owner(), nominee: new_admin.clone() }));
    assert_eq!(v.get_admin(), Ok(owner()));
    let r = v.accept_admin().unwrap();
    assert_eq!(r.authorizer, new_admin);
    assert_eq!(r.event, Some(VaultEvent::AdminAccepted { previous: owner(), admin: new_admin.clone() }));
    assert_eq!(v.get_admin(), Ok(new_admin));
    assert_eq!(v.accept_admin().err(), Some(VaultError::NoAdminTransferPending));
}

#[test]
fn set_admin_by_non_admin_is_refused() {
    let mut v = initialised();
    let r = v.set_admin(addr("GOTHER"), addr("GNEW"));
    assert_eq!(r.err(), Some(VaultError::CallerNotAdmin));
    assert_eq!(VaultError::CallerNotAdmin.message(), "unauthorized: caller is not admin");
    assert_eq!(v.accept_admin().err(), Some(VaultError::NoAdminTransferPending));
    assert_eq!(fresh().set_admin(owner(), addr("GNEW")).err(), Some(VaultError::NotInitialized));
}

#[test]
fn accept_admin_without_admin_slot() {
    let mut v = fresh();
    v.pending_admin = Some(addr("GNEW"));
    assert_eq!(v.accept_admin().err(), Some(VaultError::NotInitialized));
    assert_eq!(v.pending_admin, Some(addr("GNEW")));
}

#[test]
fn require_owner_checks_caller() {
    let v = initialised();
    assert_eq!(v.require_owner(owner()), Ok(()));
    assert_eq!(v.require_owner(addr("GOTHER")), Err(VaultError::CallerNotOwner));
    assert_eq!(VaultError::CallerNotOwner.message(), "unauthorized: owner only");
}

#[test]
fn authorized_caller_can_deduct() {
    let mut v = initialised();
    let c = addr("GCALLER");
    assert_eq!(v.require_authorized_deduct_caller(&c), Err(VaultError::UnauthorizedCaller));
    assert_eq!(v.require_authorized_deduct_caller(&owner()), Ok(()));
    let r = v.set_authorized_caller(Some(c.clone())).unwrap();
    assert_eq!(r.authorizer, owner());
    assert_eq!(
        r.event,
        Some(VaultEvent::AuthorizedCallerSet { owner: owner(), old_caller: None, new_caller: Some(c.clone()) })
    );
    assert_eq!(v.require_authorized_deduct_caller(&c), Ok(()));
    assert_eq!(v.require_authorized_deduct_caller(&owner()), Ok(()));
    assert_eq!(v.get_meta().unwrap().authorized_caller, Some(c.clone()));
    v.set_authorized_caller(None).unwrap();
    assert_eq!(v.require_authorized_deduct_caller(&c), Err(VaultError::UnauthorizedCaller));
    assert_eq!(fresh().require_authorized_deduct_caller(&c), Err(VaultError::NotInitialized));
    assert_eq!(fresh().set_authorized_caller(None).err(), Some(VaultError::NotInitialized));
    assert_eq!(VaultError::UnauthorizedCaller.message(), "unauthorized caller");
}

#[test]
fn max_deduct_setter() {
    let mut v = initialised();
    assert_eq!(v.set_max_deduct(0).err(), Some(VaultError::MaxDeductNotPositive));
    assert_eq!(v.get_max_deduct(), i128::MAX);
    let r = v.set_max_deduct(250).unwrap();
    assert_eq!(r.authorizer, owner());
    assert_eq!(r.event, Some(VaultEvent::MaxDeductSet { owner: owner(), old_max: i128::MAX, new_max: 250 }));
    assert_eq!(v.get_max_deduct(), 250);
    let r = v.set_max_deduct(40).unwrap();
    assert_eq!(r.event, Some(VaultEvent::MaxDeductSet { owner: owner(), old_max: 250, new_max: 40 }));
    assert_eq!(fresh().set_max_deduct(5).err(), Some(VaultError::NotInitialized));
    assert_eq!(VaultError::MaxDeductNotPositive.message(), "max_deduct must be positive");
}

#[test]
fn depositor_allow_list() {
    let mut v = initialised();
    let d = addr("GDEP");
    let e = addr("GDEP2");
    assert_eq!(v.is_authorized_depositor(owner()), Ok(true));
    assert_eq!(v.is_authorized_depositor(d.clone()), Ok(false));
    let r = v.set_allowed_depositor(owner(), Some(d.clone())).unwrap();
    assert_eq!(r.authorizer, owner());
    assert_eq!(r.event, None);
    v.set_allowed_depositor(owner(), Some(d.clone())).unwrap();
    v.set_allowed_depositor(owner(), Some(e.clone())).unwrap();
    assert_eq!(v.get_allowed_depositors(), vec![d.clone(), e.clone()]);
    assert_eq!(v.is_authorized_depositor(d.clone()), Ok(true));
    assert_eq!(v.is_authorized_depositor(e.clone()), Ok(true));
    v.set_allowed_depositor(owner(), None).unwrap();
    assert_eq!(v.get_allowed_depositors(), Vec::<Address>::new());
    assert_eq!(v.is_authorized_depositor(d.clone()), Ok(false));
    assert_eq!(v.is_authorized_depositor(owner()), Ok(true));
}

#[test]
fn depositor_setters_are_owner_only() {
    let mut v = initialised();
    let d = addr("GDEP");
    assert_eq!(
        v.set_allowed_depositor(d.clone(), Some(d.clone())).err(),
        Some(VaultError::CallerNotOwner)
    );
    assert_eq!(v.clear_allowed_depositors(d.clone()).err(), Some(VaultError::CallerNotOwner));
    assert_eq!(v.depositors, None);
    v.set_allowed_depositor(owner(), Some(d.clone())).unwrap();
    let r = v.clear_allowed_depositors(owner()).unwrap();
    assert_eq!(r.authorizer, owner());
    assert_eq!(v.get_allowed_depositors(), Vec::<Address>::new());
    assert!(v.has(&StorageKey::DepositorList));
}

#[test]
fn migrate_sets_missing_admin() {
    let mut v = initialised();
    v.admin = None;
    assert!(!v.has(&StorageKey::Admin));
    v.migrate();
    assert_eq!(v.get_admin(), Ok(owner()));
    v.migrate();
    assert_eq!(v.get_admin(), Ok(owner()));
    let mut u = fresh();
    u.migrate();
    assert_eq!(u.get_admin(), Err(VaultError::NotInitialized));
}

#[test]
fn storage_slots() {
    let mut v = fresh();
    assert!(!v.has(&StorageKey::MetaKey));
    v = initialised();
    assert!(v.has(&StorageKey::MetaKey));
    assert!(v.has(&StorageKey::Admin));
    assert!(v.has(&StorageKey::UsdcToken));
    assert!(v.has(&StorageKey::MaxDeduct));
    assert!(!v.has(&StorageKey::Settlement));
    assert!(!v.has(&StorageKey::RevenuePool));
    assert!(!v.has(&StorageKey::Paused));
    assert!(!v.has(&StorageKey::PendingAdmin));
    assert!(!v.has(&StorageKey::PendingOwner));
    assert!(!v.has(&StorageKey::Metadata(b"off1".to_vec())));
    v.metadata.insert(b"off1".to_vec(), b"desc".to_vec());
    assert!(v.has(&StorageKey::Metadata(b"off1".to_vec())));
    assert!(!v.has(&StorageKey::Price(b"off1".to_vec())));
}

#[test]
fn metadata_lookup() {
    let mut v = initialised();
    assert_eq!(v.get_metadata(b"off1".to_vec()), None);
    v.metadata.insert(b"off1".to_vec(), b"first".to_vec());
    v.metadata.insert(b"off2".to_vec(), b"second".to_vec());
    v.metadata.insert(b"off1".to_vec(), b"third".to_vec());
    assert_eq!(v.get_metadata(b"off1".to_vec()), Some(b"third".to_vec()));
    assert_eq!(v.get_metadata(b"off2".to_vec()), Some(b"second".to_vec()));
    assert_eq!(v.get_metadata(b"off3".to_vec()), None);
}

#[test]
fn price_roundtrip_and_overwrite() {
    let mut v = initialised();
    v.set_price(owner(), b"off1".to_vec(), b"1000".to_vec()).unwrap();
    v.set_price(owner(), b"off2".to_vec(), b"7".to_vec()).unwrap();
    v.set_price(owner(), b"off1".to_vec(), b"0050".to_vec()).unwrap();
    assert_eq!(v.get_price(b"off1".to_vec()), Some(b"0050".to_vec()));
    assert_eq!(v.get_price(b"off2".to_vec()), Some(b"7".to_vec()));
    assert_eq!(v.get_price(b"off3".to_vec()), None);
}

#[test]
fn price_refusals() {
    let mut v = initialised();
    let id64 = "a".repeat(64).into_bytes();
    assert!(v.set_price(owner(), id64, b"5".to_vec()).is_ok());
    let id65 = "a".repeat(65).into_bytes();
    assert_eq!(v.set_price(owner(), id65, b"5".to_vec()).err(), Some(VaultError::OfferingIdTooLong));
    assert_eq!(v.set_price(owner(), b"x".to_vec(), b"".to_vec()).err(), Some(VaultError::InvalidPrice));
    assert_eq!(v.set_price(owner(), b"x".to_vec(), b"12a".to_vec()).err(), Some(VaultError::InvalidPrice));
    assert_eq!(v.set_price(owner(), b"x".to_vec(), b"000".to_vec()).err(), Some(VaultError::InvalidPrice));
    assert_eq!(v.set_price(addr("GOTHER"), b"x".to_vec(), b"5".to_vec()).err(), Some(VaultError::CallerNotAdmin));
    assert_eq!(v.get_price(b"x".to_vec()), None);
}

#[test]
fn settlement_and_pool_setters() {
    let mut v = initialised();
    let s = addr("GSETTLE");
    assert_eq!(v.set_settlement(addr("GOTHER"), s.clone()).err(), Some(VaultError::CallerNotAdmin));
    assert_eq!(v.set_settlement(owner(), vault_addr()).err(), Some(VaultError::SettlementIsVault));
    assert_eq!(v.set_settlement(owner(), usdc()).err(), Some(VaultError::SettlementIsUsdcToken));
    let pool = addr("GPOOL");
    let r = v.set_revenue_pool(owner(), Some(pool.clone())).unwrap();
    assert_eq!(r.authorizer, owner());
    assert_eq!(v.set_settlement(owner(), pool.clone()).err(), Some(VaultError::SettlementIsRevenuePool));
    assert_eq!(v.get_settlement(), Err(VaultError::SettlementNotSet));
    v.set_settlement(owner(), s.clone()).unwrap();
    assert_eq!(v.get_contract_addresses(), (Some(usdc()), Some(s), Some(pool)));
    v.set_revenue_pool(owner(), None).unwrap();
    assert_eq!(v.get_revenue_pool(), None);
    assert_eq!(
        v.set_revenue_pool(owner(), Some(vault_addr())).err(),
        Some(VaultError::RevenuePoolIsVault)
    );
}

#[test]
fn byte_helpers() {
    assert!(bytes_eq(&b"abc".to_vec(), &b"abc".to_vec()));
    assert!(!bytes_eq(&b"abc".to_vec(), &b"abd".to_vec()));
    assert!(!bytes_eq(&b"ab".to_vec(), &b"abc".to_vec()));
    assert!(is_valid_price(&b"10".to_vec()));
    assert!(!is_valid_price(&b"0".to_vec()));
    let list = vec![addr("GA"), addr("GB")];
    assert!(list_contains(&list, &addr("GB")));
    assert!(!list_contains(&list, &addr("GC")));
    assert_eq!(copy_list(&list), list);
    assert!(addr("GA").same(&addr("GA")));
    assert!(!addr("GA").same(&addr("GB")));
    let mut m = ByteMap::new();
    assert_eq!(m.get(&b"k".to_vec()), None);
    m.insert(b"k".to_vec(), b"v".to_vec());
    assert_eq!(m.get(&b"k".to_vec()), Some(b"v".to_vec()));
}

#[test]
fn record_cap_and_owner_survive_other_calls() {
    let mut v = fresh();
    let (meta, _) = v.init(owner(), usdc(), Some(40), None, Some(2), None, None, 40).unwrap();
    v.set_max_deduct(100).unwrap();
    let c = addr("GCALLER");
    let n = addr("GNEW");
    v.set_allowed_depositor(owner(), Some(addr("GDEP"))).unwrap();
    v.clear_allowed_depositors(owner()).unwrap();
    v.set_authorized_caller(Some(c.clone())).unwrap();
    v.set_admin(owner(), n.clone()).unwrap();
    v.accept_admin().unwrap();
    assert!(v.set_max_deduct(0).is_err());
    v.set_settlement(n.clone(), addr("GSETTLE")).unwrap();
    v.set_price(n.clone(), b"off1".to_vec(), b"9".to_vec()).unwrap();
    v.migrate();
    assert!(v.init(owner(), usdc(), None, None, None, None, Some(7), 0).is_err());
    assert_eq!(v.get_max_deduct(), 100);
    assert_eq!(v.is_authorized_depositor(owner()), Ok(true));
    let now = v.get_meta().unwrap();
    assert_eq!(now.owner, meta.owner);
    assert_eq!(now.balance, 40);
    assert_eq!(now.min_deposit, 2);
    assert_eq!(now.authorized_caller, Some(c));
}

#[test]
fn authorizers_before_checks() {
    let mut v = fresh();
    assert_eq!(v.owner_authorizer(), Err(VaultError::NotInitialized));
    assert_eq!(v.accept_admin_authorizer(), Err(VaultError::NoAdminTransferPending));
    v.init(owner(), usdc(), None, None, None, None, None, 0).unwrap();
    assert_eq!(v.owner_authorizer(), Ok(owner()));
    let n = addr("GNEW");
    v.set_admin(owner(), n.clone()).unwrap();
    assert_eq!(v.accept_admin_authorizer(), Ok(n.clone()));
    v.accept_admin().unwrap();
    assert_eq!(v.accept_admin_authorizer(), Err(VaultError::NoAdminTransferPending));
    assert_eq!(v.owner_authorizer(), Ok(owner()));
    assert_eq!(v.set_admin(owner(), addr("GX")).err(), Some(VaultError::CallerNotAdmin));
    assert!(v.set_admin(n, addr("GX")).is_ok());
}
