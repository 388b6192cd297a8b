//! Address derivation: determinism and sensitivity to its inputs.

use grape_collection_state::{derive_address, Identity};

fn id(n: u8) -> Identity {
    Identity { bytes: [n; 32] }
}

#[test]
fn derive_is_deterministic() {
    let program = id(7);
    let config = id(1);
    let seed = id(2);
    let first = derive_address(&program, &config, &seed);
    let second = derive_address(&program, &config, &seed);
    assert!(first.is_some());
    assert_eq!(first, second);
}

#[test]
fn derive_depends_on_seed() {
    let program = id(7);
    let config = id(1);
    let (addr_a, _) = derive_address(&program, &config, &id(2)).unwrap();
    let (addr_b, _) = derive_address(&program, &config, &id(3)).unwrap();
    assert_ne!(addr_a, addr_b);
}

#[test]
fn derive_depends_on_config() {
    let program = id(7);
    let seed = id(2);
    let (addr_a, _) = derive_address(&program, &id(1), &seed).unwrap();
    let (addr_b, _) = derive_address(&program, &id(4), &seed).unwrap();
    assert_ne!(addr_a, addr_b);
}

#[test]
fn derived_address_is_none_of_its_inputs() {
    let program = id(7);
    let config = id(1);
    let seed = id(2);
    let (addr, _) = derive_address(&program, &config, &seed).unwrap();
    assert_ne!(addr, program);
    assert_ne!(addr, config);
    assert_ne!(addr, seed);
}
