use pallas_client::NetworkMagic;

#[test]
fn magics_match_the_network_crate() {
    assert_eq!(NetworkMagic::mainnet_magic(), pallas::network::miniprotocols::MAINNET_MAGIC);
    assert_eq!(NetworkMagic::testnet_magic(), pallas::network::miniprotocols::TESTNET_MAGIC);
    assert_eq!(NetworkMagic::preview_magic(), pallas::network::miniprotocols::PREVIEW_MAGIC);
    assert_eq!(
        NetworkMagic::pre_production_magic(),
        pallas::network::miniprotocols::PRE_PRODUCTION_MAGIC
    );
}

#[test]
fn magics_have_their_fixed_values() {
    assert_eq!(NetworkMagic::mainnet_magic(), 764824073);
    assert_eq!(NetworkMagic::testnet_magic(), 1097911063);
    assert_eq!(NetworkMagic::preview_magic(), 2);
    assert_eq!(NetworkMagic::pre_production_magic(), 1);
}

#[test]
fn only_the_four_magics_are_known() {
    assert!(NetworkMagic::is_known(764824073));
    assert!(NetworkMagic::is_known(1097911063));
    assert!(NetworkMagic::is_known(2));
    assert!(NetworkMagic::is_known(1));
    assert!(!NetworkMagic::is_known(0));
    assert!(!NetworkMagic::is_known(4));
    assert!(!NetworkMagic::is_known(u64::MAX));
}
