use coo::chain::CooChain;
use coo::emitter::{
    known_deployments, lookup_address, lookup_bridge, resolve_emitter_address,
    resolve_emitter_address_in, Bridge, Deployment, EmitterType,
};
use coo::error::CooError;

fn role_of(bridge: Bridge) -> EmitterType {
    match bridge {
        Bridge::Core => EmitterType::CoreBridge,
        Bridge::Token => EmitterType::TokenBridge,
        Bridge::Nft => EmitterType::NftBridge,
    }
}

#[test]
fn avalanche_token_bridge_resolves_to_padded_address() {
    let text = resolve_emitter_address(CooChain::Inner(6), EmitterType::TokenBridge).unwrap();
    assert_eq!(text, "0000000000000000000000000e082f06ff657d94310cb8ce8b0d9a04541d8052");
    assert_eq!(text.len(), 64);
}

#[test]
fn ethereum_bridges_resolve() {
    let chain = CooChain::Inner(2);
    assert_eq!(
        resolve_emitter_address(chain, EmitterType::CoreBridge).unwrap(),
        "00000000000000000000000098f3c9e6e3face36baad05fe09d375ef1464288b"
    );
    assert_eq!(
        resolve_emitter_address(chain, EmitterType::TokenBridge).unwrap(),
        "0000000000000000000000003ee18b2214aff97000d974cf647e7c347e8fa585"
    );
    assert_eq!(
        resolve_emitter_address(chain, EmitterType::NftBridge).unwrap(),
        "0000000000000000000000006ffd7ede62328b3af38fcd61461bbfc52f5651fe"
    );
}

#[test]
fn every_known_deployment_resolves_to_24_zeros_and_its_address() {
    let table = known_deployments();
    assert_eq!(table.len(), 6);
    for entry in table.iter() {
        let text = resolve_emitter_address(entry.chain, role_of(entry.bridge)).unwrap();
        assert_eq!(text.len(), 64);
        assert_eq!(&text[..24], "000000000000000000000000");
        let digits: String = entry.address.iter().map(|b| format!("{:02x}", b)).collect();
        assert_eq!(&text[24..], digits);
        assert!(text.chars().all(|c| c.is_ascii_digit() || ('a'..='f').contains(&c)));
    }
}

#[test]
fn explicit_address_resolves_to_its_own_digits_on_every_chain() {
    let mut bytes = [0u8; 32];
    for (i, b) in bytes.iter_mut().enumerate() {
        *b = (i as u8) * 7 + 3;
    }
    let expected: String = bytes.iter().map(|b| format!("{:02x}", b)).collect();
    for id in [0u16, 1, 2, 6, 999, u16::MAX] {
        let text = resolve_emitter_address(CooChain::Inner(id), EmitterType::Address(bytes)).unwrap();
        assert_eq!(text, expected);
    }
}

#[test]
fn unset_emitter_does_not_resolve() {
    assert_eq!(
        resolve_emitter_address(CooChain::Inner(2), EmitterType::Unset),
        Err(CooError::UnknownEmitter)
    );
}

#[test]
fn bridge_on_unlisted_chain_does_not_resolve() {
    assert_eq!(
        resolve_emitter_address(CooChain::Inner(1), EmitterType::TokenBridge),
        Err(CooError::UnknownEmitter)
    );
    assert_eq!(
        resolve_emitter_address(CooChain::Inner(4), EmitterType::CoreBridge),
        Err(CooError::UnknownEmitter)
    );
}

#[test]
fn lookups_go_both_ways() {
    let table = known_deployments();
    let address = lookup_address(&table, CooChain::Inner(6), Bridge::Nft).unwrap();
    assert_eq!(address[0], 0xf7);
    assert_eq!(address[19], 0xe5);
    let mut padded = [0u8; 32];
    padded[12..].copy_from_slice(&address);
    assert_eq!(lookup_bridge(&table, CooChain::Inner(6), &padded), Some(Bridge::Nft));
    assert_eq!(lookup_bridge(&table, CooChain::Inner(2), &padded), None);
    padded[0] = 1;
    assert_eq!(lookup_bridge(&table, CooChain::Inner(6), &padded), None);
    assert_eq!(lookup_address(&table, CooChain::Inner(5), Bridge::Nft), None);
}

#[test]
fn another_table_can_stand_in() {
    let table = vec![
        Deployment { chain: CooChain::Inner(9), bridge: Bridge::Token, address: [0xab; 20] },
        Deployment { chain: CooChain::Inner(9), bridge: Bridge::Token, address: [0xcd; 20] },
    ];
    assert_eq!(
        resolve_emitter_address_in(&table, CooChain::Inner(9), EmitterType::TokenBridge).unwrap(),
        "000000000000000000000000abababababababababababababababababababab"
    );
    assert_eq!(
        resolve_emitter_address_in(&table, CooChain::Inner(6), EmitterType::TokenBridge),
        Err(CooError::UnknownEmitter)
    );
    assert_eq!(
        resolve_emitter_address_in(&[], CooChain::Inner(2), EmitterType::CoreBridge),
        Err(CooError::UnknownEmitter)
    );
}

#[test]
fn emitter_words_parse_to_roles() {
    assert_eq!(EmitterType::parse(""), Ok(EmitterType::Unset));
    assert_eq!(EmitterType::parse("core"), Ok(EmitterType::CoreBridge));
    assert_eq!(EmitterType::parse("token"), Ok(EmitterType::TokenBridge));
    assert_eq!(EmitterType::parse("nft"), Ok(EmitterType::NftBridge));
}

#[test]
fn emitter_digits_parse_to_right_aligned_address() {
    let mut expected = [0u8; 32];
    expected[30] = 0xbe;
    expected[31] = 0xef;
    assert_eq!(EmitterType::parse("beef"), Ok(EmitterType::Address(expected)));
    assert_eq!(EmitterType::parse("0xBEEF"), Ok(EmitterType::Address(expected)));
    assert_eq!(EmitterType::parse("0x"), Ok(EmitterType::Address([0u8; 32])));
    let full = "ff".repeat(32);
    assert_eq!(EmitterType::parse(&full), Ok(EmitterType::Address([0xff; 32])));
}

#[test]
fn emitter_text_that_is_not_hex_is_rejected() {
    assert_eq!(EmitterType::parse("bridge"), Err(CooError::HexDecodeError));
    assert_eq!(EmitterType::parse("abc"), Err(CooError::HexDecodeError));
    assert_eq!(EmitterType::parse("Core"), Err(CooError::HexDecodeError));
    let too_long = "00".repeat(33);
    assert_eq!(EmitterType::parse(&too_long), Err(CooError::HexDecodeError));
}

#[test]
fn emitter_labels() {
    assert_eq!(EmitterType::CoreBridge.label().unwrap(), "core");
    assert_eq!(EmitterType::TokenBridge.label().unwrap(), "token");
    assert_eq!(EmitterType::NftBridge.label().unwrap(), "nft");
    assert_eq!(EmitterType::Address([0x1f; 32]).label().unwrap(), "1f".repeat(32));
    assert_eq!(EmitterType::Unset.label(), Err(CooError::UnknownEmitter));
}

#[test]
fn roles_name_bridges() {
    assert_eq!(EmitterType::CoreBridge.bridge(), Some(Bridge::Core));
    assert_eq!(EmitterType::TokenBridge.bridge(), Some(Bridge::Token));
    assert_eq!(EmitterType::NftBridge.bridge(), Some(Bridge::Nft));
    assert_eq!(EmitterType::Unset.bridge(), None);
    assert_eq!(EmitterType::Address([0; 32]).bridge(), None);
}

#[test]
fn a_label_reads_back_as_its_emitter() {
    let mut bytes = [0u8; 32];
    bytes[5] = 0xc0;
    bytes[31] = 0x0e;
    for emitter in [
        EmitterType::CoreBridge,
        EmitterType::TokenBridge,
        EmitterType::NftBridge,
        EmitterType::Address(bytes),
        EmitterType::Address([0; 32]),
    ] {
        assert_eq!(EmitterType::parse(&emitter.label().unwrap()), Ok(emitter));
    }
}
