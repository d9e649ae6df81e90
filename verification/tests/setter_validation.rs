use callora_vault::{Address, CalloraVault, VaultEvent, MAX_OFFERING_ID_LEN};

fn addr(s: &str) -> Address {
    Address::from_strkey(s.as_bytes().to_vec())
}

/// A fresh vault initialised with defaults by `admin`; returns
/// (vault address, vault, usdc token, admin).
fn setup() -> (Address, CalloraVault, Address, Address) {
    let vault_addr = addr("CVAULTAAAAAAAAAAAAAAAAAAAAAAAAAAAAAAAAAAAAAAAAAAAAAAAAAA");
    let admin = addr("GADMINAAAAAAAAAAAAAAAAAAAAAAAAAAAAAAAAAAAAAAAAAAAAAAAAAA");
    let usdc = addr("CUSDCAAAAAAAAAAAAAAAAAAAAAAAAAAAAAAAAAAAAAAAAAAAAAAAAAAA");
    let mut client = CalloraVault::new(vault_addr.clone());
    client
        .init(admin.clone(), usdc.clone(), None, None, None, None, None, 0)
        .unwrap();
    (vault_addr, client, usdc, admin)
}

#[test]
fn set_price_offering_id_too_long() {
    let (_, mut client, _, admin) = setup();
    let long_id = "a".repeat((MAX_OFFERING_ID_LEN + 1) as usize);
    let result = client.set_price(admin, long_id.into_bytes(), b"100".to_vec());
    assert!(result.is_err());
}

#[test]
fn set_price_zero_price() {
    let (_, mut client, _, admin) = setup();
    let result = client.set_price(admin, b"off1".to_vec(), b"0".to_vec());
    assert!(result.is_err());
}

#[test]
fn set_price_successful() {
    let (_, mut client, _, admin) = setup();
    let receipt = client
        .set_price(admin, b"off1".to_vec(), b"1000".to_vec())
        .unwrap();
    let price_set = matches!(receipt.event, Some(VaultEvent::PriceSet { .. }));
    assert!(price_set, "price_set event not emitted");

    let stored = client.get_price(b"off1".to_vec());
    assert_eq!(stored, Some(b"1000".to_vec()));
}

#[test]
fn set_settlement_vault_address_fails() {
    let (vault_addr, mut client, _, admin) = setup();
    let result = client.set_settlement(admin, vault_addr);
    assert!(result.is_err());
}

#[test]
fn set_settlement_usdc_address_fails() {
    let (_, mut client, usdc, admin) = setup();
    let result = client.set_settlement(admin, usdc);
    assert!(result.is_err());
}

#[test]
fn set_settlement_equals_revenue_pool_fails() {
    let (_, mut client, _, admin) = setup();
    let pool = addr("GPOOLAAAAAAAAAAAAAAAAAAAAAAAAAAAAAAAAAAAAAAAAAAAAAAAAAAA");
    client.set_revenue_pool(admin.clone(), Some(pool.clone())).unwrap();
    let result = client.set_settlement(admin, pool);
    assert!(result.is_err());
}

#[test]
fn set_settlement_valid_address_succeeds() {
    let (_, mut client, _, admin) = setup();
    let s = addr("GSETTLEAAAAAAAAAAAAAAAAAAAAAAAAAAAAAAAAAAAAAAAAAAAAAAAAA");
    client.set_settlement(admin, s.clone()).unwrap();
    assert_eq!(client.get_settlement(), Ok(s));
}

#[test]
fn set_revenue_pool_vault_address_fails() {
    let (vault_addr, mut client, _, admin) = setup();
    let result = client.set_revenue_pool(admin, Some(vault_addr));
    assert!(result.is_err());
}
