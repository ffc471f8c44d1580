use indexer_config::Address;
use indexer_config::ContractRegistry;
use indexer_config::U256;

#[test]
fn widening_is_lossless() {
    assert_eq!(U256::from_u64(0).limbs, [0, 0, 0, 0]);
    assert_eq!(U256::from_u64(10).limbs, [10, 0, 0, 0]);
    assert_eq!(U256::from_u64(u64::MAX).limbs, [u64::MAX, 0, 0, 0]);
    assert_eq!(U256::from_u64(u64::MAX), U256::from_u64(u64::MAX));
    assert_ne!(U256::from_u64(10), U256::from_u64(11));
}

#[test]
fn registry_lookup_finds_registered_names() {
    let mut registry = ContractRegistry::new();
    let a = Address::new([0x01; 20]);
    let b = Address::new([0x02; 20]);
    registry.register("A".to_string(), a);
    registry.register("B".to_string(), b);
    assert_eq!(registry.lookup(&"A".to_string()), Some(a));
    assert_eq!(registry.lookup(&"B".to_string()), Some(b));
    assert_eq!(registry.lookup(&"C".to_string()), None);
}

#[test]
fn registry_newest_binding_wins() {
    let mut registry = ContractRegistry::new();
    let old_address = Address::new([0x01; 20]);
    let new_address = Address::new([0x02; 20]);
    registry.register("A".to_string(), old_address);
    registry.register("A".to_string(), new_address);
    assert_eq!(registry.lookup(&"A".to_string()), Some(new_address));
}

#[test]
fn empty_registry_knows_no_name() {
    let registry = ContractRegistry::new();
    assert_eq!(registry.lookup(&"CartesiDApp".to_string()), None);
    assert_eq!(registry.lookup(&"".to_string()), None);
}

#[test]
fn address_keeps_its_bytes() {
    let mut bytes = [0u8; 20];
    for (i, b) in bytes.iter_mut().enumerate() {
        *b = i as u8;
    }
    let address = Address::new(bytes);
    assert_eq!(address.bytes, bytes);
}
