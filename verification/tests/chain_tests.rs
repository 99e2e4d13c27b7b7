use ord_core::Chain;
use ord_core::UnknownNetwork;

#[test]
fn resolve_accepts_canonical_names() {
    assert_eq!(Chain::resolve("mainnet"), Ok(Chain::Mainnet));
    assert_eq!(Chain::resolve("testnet"), Ok(Chain::Testnet));
    assert_eq!(Chain::resolve("signet"), Ok(Chain::Signet));
    assert_eq!(Chain::resolve("regtest"), Ok(Chain::Regtest));
}

#[test]
fn resolve_accepts_historical_aliases() {
    assert_eq!(Chain::resolve("main"), Chain::resolve("mainnet"));
    assert_eq!(Chain::resolve("test"), Chain::resolve("testnet"));
}

#[test]
fn resolve_rejects_unknown_names() {
    assert_eq!(Chain::resolve("bogus"), Err(UnknownNetwork));
    assert_eq!(Chain::resolve(""), Err(UnknownNetwork));
    assert_eq!(Chain::resolve("Mainnet"), Err(UnknownNetwork));
    assert_eq!(Chain::resolve("signet "), Err(UnknownNetwork));
}

#[test]
fn display_round_trips_through_resolve() {
    for chain in [Chain::Mainnet, Chain::Testnet, Chain::Signet, Chain::Regtest] {
        let name = chain.display();
        assert_eq!(Chain::resolve(name.as_str()), Ok(chain));
    }
}

#[test]
fn display_names_are_stable() {
    assert_eq!(Chain::Mainnet.display(), "mainnet");
    assert_eq!(Chain::Testnet.display(), "testnet");
    assert_eq!(Chain::Signet.display(), "signet");
    assert_eq!(Chain::Regtest.display(), "regtest");
}

#[test]
fn default_chain_is_mainnet() {
    assert_eq!(Chain::default(), Chain::Mainnet);
}

#[test]
fn default_rpc_ports() {
    assert_eq!(Chain::Mainnet.default_rpc_port(), 33864);
    assert_eq!(Chain::Testnet.default_rpc_port(), 44863);
    assert_eq!(Chain::Signet.default_rpc_port(), 38332);
    assert_eq!(Chain::Regtest.default_rpc_port(), 18332);
}

#[test]
fn content_size_limit_is_unset_everywhere() {
    for chain in [Chain::Mainnet, Chain::Testnet, Chain::Signet, Chain::Regtest] {
        assert_eq!(chain.inscription_content_size_limit(), None);
    }
}

#[test]
fn activation_heights_are_zero_everywhere() {
    for chain in [Chain::Mainnet, Chain::Testnet, Chain::Signet, Chain::Regtest] {
        assert_eq!(chain.first_inscription_height(), 0);
        assert_eq!(chain.first_dune_height(), 0);
    }
}

#[test]
fn dir_suffix_per_network() {
    assert_eq!(Chain::Mainnet.dir_suffix(), "");
    assert_eq!(Chain::Testnet.dir_suffix(), "testnet3");
    assert_eq!(Chain::Signet.dir_suffix(), "signet");
    assert_eq!(Chain::Regtest.dir_suffix(), "regtest");
}

#[test]
fn data_directory_layout() {
    assert_eq!(Chain::Mainnet.join_with_data_dir("/x"), "/x");
    assert_eq!(Chain::Testnet.join_with_data_dir("/x"), "/x/testnet3");
    assert_eq!(Chain::Signet.join_with_data_dir("/x"), "/x/signet");
    assert_eq!(Chain::Regtest.join_with_data_dir("/x"), "/x/regtest");
}

#[test]
fn network_maps_each_variant() {
    assert_eq!(Chain::Mainnet.network(), bitcoin::Network::Bitcoin);
    assert_eq!(Chain::Testnet.network(), bitcoin::Network::Testnet);
    assert_eq!(Chain::Signet.network(), bitcoin::Network::Signet);
    assert_eq!(Chain::Regtest.network(), bitcoin::Network::Regtest);
}

#[test]
fn genesis_block_decodes_with_canonical_hash() {
    for name in ["mainnet", "testnet", "signet", "regtest"] {
        let chain = Chain::resolve(name).expect("a built-in tag must resolve");
        let block = chain.genesis_block().expect("embedded genesis data must decode");
        assert_eq!(
            block.block_hash().to_string(),
            "ff271edcc83f7d71e7a4e4b0a43b386a188e1470a28671cdbdc47e900118ac7f"
        );
        assert_eq!(block.block_hash(), block.header.block_hash());
    }
}

#[test]
fn address_from_script_recognizes_p2pkh() {
    // A pay-to-pubkey-hash script: OP_DUP OP_HASH160 <20 bytes> OP_EQUALVERIFY OP_CHECKSIG.
    let mut bytes = vec![0x76u8, 0xa9, 0x14];
    bytes.extend_from_slice(&[0x11u8; 20]);
    bytes.extend_from_slice(&[0x88, 0xac]);
    let script = bitcoin::Script::from(bytes);
    let address = Chain::Mainnet.address_from_script(&script);
    assert!(address.is_ok());
}

#[test]
fn address_from_script_rejects_nonstandard_script() {
    // OP_RETURN carries data and is no address template.
    let script = bitcoin::Script::from(vec![0x6au8, 0x01, 0x00]);
    let address = Chain::Mainnet.address_from_script(&script);
    assert!(address.is_err());
}
