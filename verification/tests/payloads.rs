use coo::chain::CooChain;
use coo::error::CooError;
use coo::payload::{
    decode_asset_meta, decode_nft_message, decode_nft_transfer, decode_payload, decode_token_message,
    decode_token_transfer, decode_transfer_with_payload, Amount, NftMessage, PayloadKind,
    PayloadResponse, PayloadType, TokenId, TokenMessage, ASSET_META_LEN, TRANSFER_LEN,
};
use coo::render::amounttostring;
use coo::vaa::{decode_vaa_payload, decode_wormhole_nft, decode_wormhole_token, classify_vaa, parse_vaa};

fn low(value: u8) -> [u8; 32] {
    let mut bytes = [0u8; 32];
    bytes[31] = value;
    bytes
}

fn slot(text: &[u8]) -> [u8; 32] {
    let mut bytes = [0u8; 32];
    bytes[..text.len()].copy_from_slice(text);
    bytes
}

fn transfer_bytes() -> Vec<u8> {
    let mut p = vec![1u8];
    p.extend_from_slice(&low(1));
    p.extend_from_slice(&[0x11; 32]);
    p.extend_from_slice(&[0, 2]);
    p.extend_from_slice(&[0x22; 32]);
    p.extend_from_slice(&[0, 6]);
    p.extend_from_slice(&low(9));
    p
}

fn transfer_with_payload_bytes(inner: &[u8]) -> Vec<u8> {
    let mut p = vec![3u8];
    p.extend_from_slice(&low(5));
    p.extend_from_slice(&[0x11; 32]);
    p.extend_from_slice(&[0x0f, 0xa0]);
    p.extend_from_slice(&[0x22; 32]);
    p.extend_from_slice(&[0x27, 0x12]);
    p.extend_from_slice(&[0x33; 32]);
    p.extend_from_slice(inner);
    p
}

fn asset_meta_bytes(symbol: &[u8], name: &[u8]) -> Vec<u8> {
    let mut p = vec![2u8];
    p.extend_from_slice(&[0x11; 32]);
    p.extend_from_slice(&[0, 2]);
    p.push(6);
    p.extend_from_slice(&slot(symbol));
    p.extend_from_slice(&slot(name));
    p
}

fn nft_bytes(symbol: &[u8], name: &[u8], uri: &[u8]) -> Vec<u8> {
    let mut p = vec![1u8];
    p.extend_from_slice(&[0x44; 32]);
    p.extend_from_slice(&[0, 2]);
    p.extend_from_slice(&slot(symbol));
    p.extend_from_slice(&slot(name));
    p.extend_from_slice(&low(42));
    p.push(uri.len() as u8);
    p.extend_from_slice(uri);
    p.extend_from_slice(&[0x55; 32]);
    p.extend_from_slice(&[0, 6]);
    p
}

fn vaa_bytes(chain: u16, emitter: [u8; 32], payload: &[u8]) -> Vec<u8> {
    let mut bytes = vec![1u8, 0, 0, 0, 0, 0];
    bytes.extend_from_slice(&[0u8; 8]);
    bytes.extend_from_slice(&chain.to_be_bytes());
    bytes.extend_from_slice(&emitter);
    bytes.extend_from_slice(&[0u8; 9]);
    bytes.extend_from_slice(payload);
    bytes
}

const ETH_TOKEN: [u8; 20] = [
    0x3e, 0xe1, 0x8b, 0x22, 0x14, 0xaf, 0xf9, 0x70, 0x00, 0xd9, 0x74, 0xcf, 0x64, 0x7e, 0x7c, 0x34,
    0x7e, 0x8f, 0xa5, 0x85,
];
const ETH_NFT: [u8; 20] = [
    0x6f, 0xfd, 0x7e, 0xde, 0x62, 0x32, 0x8b, 0x3a, 0xf3, 0x8f, 0xcd, 0x61, 0x46, 0x1b, 0xbf, 0xc5,
    0x2f, 0x56, 0x51, 0xfe,
];

fn padded(contract: [u8; 20]) -> [u8; 32] {
    let mut address = [0u8; 32];
    address[12..].copy_from_slice(&contract);
    address
}

#[test]
fn a_token_transfer_decodes_with_an_amount_of_one() {
    let p = transfer_bytes();
    assert_eq!(p.len(), TRANSFER_LEN);
    let m = decode_token_transfer(&p).unwrap();
    assert_eq!(m.amount, Amount(low(1)));
    assert_eq!(amounttostring(&m.amount), "0x01");
    assert_eq!(m.token_address, [0x11; 32]);
    assert_eq!(m.token_chain, CooChain::Inner(2));
    assert_eq!(m.recipient, [0x22; 32]);
    assert_eq!(m.recipient_chain, CooChain::Inner(6));
    assert_eq!(m.fee, Amount(low(9)));
}

#[test]
fn a_token_transfer_writes_back_to_the_same_bytes() {
    let p = transfer_bytes();
    let m = decode_token_transfer(&p).unwrap();
    let mut again = vec![1u8];
    again.extend_from_slice(&m.amount.0);
    again.extend_from_slice(&m.token_address);
    again.extend_from_slice(&m.token_chain.id().to_be_bytes());
    again.extend_from_slice(&m.recipient);
    again.extend_from_slice(&m.recipient_chain.id().to_be_bytes());
    again.extend_from_slice(&m.fee.0);
    assert_eq!(again, p);
}

#[test]
fn a_token_transfer_without_its_fee_is_truncated() {
    let p = transfer_bytes();
    assert_eq!(decode_token_transfer(&p[..101]), Err(CooError::TruncatedPayload));
    for len in 1..TRANSFER_LEN {
        assert_eq!(decode_token_transfer(&p[..len]), Err(CooError::TruncatedPayload));
    }
    assert_eq!(decode_token_transfer(&[]), Err(CooError::TruncatedPayload));
}

#[test]
fn a_token_transfer_with_bytes_behind_it_is_malformed() {
    let mut p = transfer_bytes();
    p.push(0);
    assert_eq!(decode_token_transfer(&p), Err(CooError::MalformedPayload));
}

#[test]
fn a_leading_byte_of_another_kind_is_malformed() {
    let mut p = transfer_bytes();
    p[0] = 2;
    assert_eq!(decode_token_transfer(&p), Err(CooError::MalformedPayload));
    assert_eq!(decode_token_transfer(&[3]), Err(CooError::MalformedPayload));
    assert_eq!(decode_asset_meta(&transfer_bytes()), Err(CooError::MalformedPayload));
    assert_eq!(decode_transfer_with_payload(&transfer_bytes()), Err(CooError::MalformedPayload));
    assert_eq!(decode_nft_transfer(&[2; 200]), Err(CooError::MalformedPayload));
}

#[test]
fn a_transfer_with_payload_keeps_what_follows_the_sender() {
    let p = transfer_with_payload_bytes(&[7, 8, 9]);
    let m = decode_transfer_with_payload(&p).unwrap();
    assert_eq!(m.amount, Amount(low(5)));
    assert_eq!(m.token_chain, CooChain::Inner(4000));
    assert_eq!(m.recipient_chain, CooChain::Inner(10002));
    assert_eq!(m.sender_address, [0x33; 32]);
    assert_eq!(m.payload, vec![7, 8, 9]);
    let bare = decode_transfer_with_payload(&transfer_with_payload_bytes(&[])).unwrap();
    assert!(bare.payload.is_empty());
    assert_eq!(decode_transfer_with_payload(&p[..132]), Err(CooError::TruncatedPayload));
    assert_eq!(decode_transfer_with_payload(&[]), Err(CooError::TruncatedPayload));
}

#[test]
fn asset_meta_text_loses_the_zeros_behind_it() {
    let p = asset_meta_bytes(b"USDC", b"USD Coin");
    assert_eq!(p.len(), ASSET_META_LEN);
    let m = decode_asset_meta(&p).unwrap();
    assert_eq!(m.symbol, "USDC");
    assert_eq!(m.symbol.len(), 4);
    assert_eq!(m.name, "USD Coin");
    assert_eq!(m.decimals, 6);
    assert_eq!(m.token_chain, CooChain::Inner(2));
    assert_eq!(m.token_address, [0x11; 32]);
}

#[test]
fn asset_meta_text_keeps_zeros_inside_and_may_fill_the_slot() {
    let m = decode_asset_meta(&asset_meta_bytes(b"A\0B", &[b'x'; 32])).unwrap();
    assert_eq!(m.symbol, "A\0B");
    assert_eq!(m.name, "x".repeat(32));
    let empty = decode_asset_meta(&asset_meta_bytes(b"", b"")).unwrap();
    assert_eq!(empty.symbol, "");
    assert_eq!(empty.name, "");
    let accented = decode_asset_meta(&asset_meta_bytes("é€".as_bytes(), b"n")).unwrap();
    assert_eq!(accented.symbol, "é€");
}

#[test]
fn asset_meta_text_that_is_not_utf8_is_rejected() {
    assert_eq!(decode_asset_meta(&asset_meta_bytes(&[b'U', 0xff, b'D'], b"name")), Err(CooError::InvalidUtf8));
    assert_eq!(decode_asset_meta(&asset_meta_bytes(b"USDC", &[0xc3])), Err(CooError::InvalidUtf8));
    assert_eq!(decode_asset_meta(&asset_meta_bytes(b"USDC", &[0xed, 0xa0, 0x80])), Err(CooError::InvalidUtf8));
    assert_eq!(decode_asset_meta(&asset_meta_bytes(&[0x80], b"")), Err(CooError::InvalidUtf8));
}

#[test]
fn asset_meta_of_another_length_is_rejected() {
    let p = asset_meta_bytes(b"USDC", b"USD Coin");
    assert_eq!(decode_asset_meta(&p[..99]), Err(CooError::TruncatedPayload));
    let mut longer = p.clone();
    longer.push(0);
    assert_eq!(decode_asset_meta(&longer), Err(CooError::MalformedPayload));
    assert_eq!(decode_asset_meta(&[]), Err(CooError::TruncatedPayload));
}

#[test]
fn an_nft_transfer_decodes() {
    let p = nft_bytes(b"APE", b"Bored Ape", b"https://example.com/42");
    let m = decode_nft_transfer(&p).unwrap();
    assert_eq!(m.nft_address, [0x44; 32]);
    assert_eq!(m.nft_chain, CooChain::Inner(2));
    assert_eq!(m.symbol, "APE");
    assert_eq!(m.name, "Bored Ape");
    assert_eq!(m.token_id, TokenId(low(42)));
    assert_eq!(m.uri, "https://example.com/42");
    assert_eq!(m.to, [0x55; 32]);
    assert_eq!(m.to_chain, CooChain::Inner(6));
    let bare = decode_nft_transfer(&nft_bytes(b"", b"", b"")).unwrap();
    assert_eq!(bare.uri, "");
    let long = decode_nft_transfer(&nft_bytes(b"S", b"N", &[b'u'; 255])).unwrap();
    assert_eq!(long.uri.len(), 255);
}

#[test]
fn an_nft_uri_keeps_the_zeros_at_its_end() {
    let m = decode_nft_transfer(&nft_bytes(b"S", b"N", b"ab\0")).unwrap();
    assert_eq!(m.uri, "ab\0");
}

#[test]
fn an_nft_transfer_of_another_length_is_rejected() {
    let p = nft_bytes(b"APE", b"Ape", b"uri");
    for len in 1..p.len() {
        assert_eq!(decode_nft_transfer(&p[..len]), Err(CooError::TruncatedPayload));
    }
    let mut longer = p.clone();
    longer.push(1);
    assert_eq!(decode_nft_transfer(&longer), Err(CooError::MalformedPayload));
    assert_eq!(decode_nft_transfer(&[]), Err(CooError::TruncatedPayload));
}

#[test]
fn nft_text_that_is_not_utf8_is_rejected() {
    assert_eq!(decode_nft_transfer(&nft_bytes(&[0xff], b"n", b"u")), Err(CooError::InvalidUtf8));
    assert_eq!(decode_nft_transfer(&nft_bytes(b"s", &[0xfe], b"u")), Err(CooError::InvalidUtf8));
    assert_eq!(decode_nft_transfer(&nft_bytes(b"s", b"n", &[0xc0, 0x80])), Err(CooError::InvalidUtf8));
}

#[test]
fn raw_bytes_are_the_payload_itself() {
    assert_eq!(decode_payload(&[5, 6, 7], PayloadKind::RawBytes), Ok(PayloadResponse::RawBytes(vec![5, 6, 7])));
    assert_eq!(decode_payload(&[], PayloadKind::RawBytes), Ok(PayloadResponse::RawBytes(vec![])));
}

#[test]
fn a_payload_decodes_as_the_kind_asked_for() {
    let transfer = transfer_bytes();
    match decode_payload(&transfer, PayloadKind::TokenTransfer).unwrap() {
        PayloadResponse::WormholeTokenTransfer(m) => assert_eq!(m.fee, Amount(low(9))),
        other => panic!("unexpected {:?}", other),
    }
    match decode_payload(&asset_meta_bytes(b"USDC", b"USD Coin"), PayloadKind::AssetMeta).unwrap() {
        PayloadResponse::WormholeAssetMeta(m) => assert_eq!(m.symbol, "USDC"),
        other => panic!("unexpected {:?}", other),
    }
    match decode_payload(&transfer_with_payload_bytes(&[1]), PayloadKind::TokenTransferWithPayload).unwrap() {
        PayloadResponse::WormholeTokenTransferPayload(m) => assert_eq!(m.payload, vec![1]),
        other => panic!("unexpected {:?}", other),
    }
    match decode_payload(&nft_bytes(b"a", b"b", b"c"), PayloadKind::NftTransfer).unwrap() {
        PayloadResponse::WormholeNftTransfer(m) => assert_eq!(m.uri, "c"),
        other => panic!("unexpected {:?}", other),
    }
    assert_eq!(decode_payload(&transfer, PayloadKind::AssetMeta), Err(CooError::MalformedPayload));
    assert_eq!(decode_payload(&[], PayloadKind::NftTransfer), Err(CooError::TruncatedPayload));
}

#[test]
fn decoding_leaves_the_payload_alone() {
    let p = asset_meta_bytes(b"USDC", b"USD Coin");
    let before = p.clone();
    let first = decode_asset_meta(&p);
    let second = decode_asset_meta(&p);
    assert_eq!(p, before);
    assert_eq!(first, second);
}

#[test]
fn a_token_message_goes_by_its_leading_byte() {
    assert!(matches!(decode_token_message(&transfer_bytes()), Ok(TokenMessage::Transfer(_))));
    assert!(matches!(decode_token_message(&asset_meta_bytes(b"A", b"B")), Ok(TokenMessage::AssetMeta(_))));
    assert!(matches!(
        decode_token_message(&transfer_with_payload_bytes(&[])),
        Ok(TokenMessage::TransferWithPayload(_))
    ));
    assert_eq!(decode_token_message(&[4, 0, 0]), Err(CooError::MalformedPayload));
    assert_eq!(decode_token_message(&[0]), Err(CooError::MalformedPayload));
    assert_eq!(decode_token_message(&[]), Err(CooError::TruncatedPayload));
    assert_eq!(decode_token_message(&[1, 2, 3]), Err(CooError::TruncatedPayload));
}

#[test]
fn an_nft_message_is_a_transfer() {
    match decode_nft_message(&nft_bytes(b"APE", b"Ape", b"u")).unwrap() {
        NftMessage::Transfer(m) => assert_eq!(m.symbol, "APE"),
    }
    assert_eq!(decode_nft_message(&[9]), Err(CooError::MalformedPayload));
}

#[test]
fn requests_name_kinds() {
    assert_eq!(PayloadType::SmartInfer.kind(), None);
    assert_eq!(PayloadType::RawBytes.kind(), Some(PayloadKind::RawBytes));
    assert_eq!(PayloadType::WormholeTokenTransfer.kind(), Some(PayloadKind::TokenTransfer));
    assert_eq!(PayloadType::WormholeTokenTransferPayload.kind(), Some(PayloadKind::TokenTransferWithPayload));
    assert_eq!(PayloadType::WormholeNftTransfer.kind(), Some(PayloadKind::NftTransfer));
    assert_eq!(PayloadType::WormholeAssetMeta.kind(), Some(PayloadKind::AssetMeta));
}

#[test]
fn a_vaa_of_the_token_bridge_decodes_by_inference() {
    let vaa = parse_vaa(&vaa_bytes(2, padded(ETH_TOKEN), &transfer_bytes())).unwrap();
    assert_eq!(classify_vaa(&vaa), Ok(PayloadKind::TokenTransfer));
    match decode_vaa_payload(&vaa, PayloadType::SmartInfer).unwrap() {
        PayloadResponse::WormholeTokenTransfer(m) => assert_eq!(m.amount, Amount(low(1))),
        other => panic!("unexpected {:?}", other),
    }
    assert!(matches!(decode_wormhole_token(&vaa), Ok(TokenMessage::Transfer(_))));
    assert_eq!(decode_wormhole_nft(&vaa), Err(CooError::TruncatedPayload));
}

#[test]
fn a_vaa_of_the_nft_bridge_decodes_by_inference() {
    let vaa = parse_vaa(&vaa_bytes(2, padded(ETH_NFT), &nft_bytes(b"APE", b"Ape", b"u"))).unwrap();
    assert!(matches!(
        decode_vaa_payload(&vaa, PayloadType::SmartInfer),
        Ok(PayloadResponse::WormholeNftTransfer(_))
    ));
    assert!(matches!(decode_wormhole_nft(&vaa), Ok(NftMessage::Transfer(_))));
}

#[test]
fn a_vaa_of_an_unknown_emitter_stays_raw_unless_asked_otherwise() {
    let vaa = parse_vaa(&vaa_bytes(2, [9; 32], &transfer_bytes())).unwrap();
    assert_eq!(
        decode_vaa_payload(&vaa, PayloadType::SmartInfer),
        Ok(PayloadResponse::RawBytes(transfer_bytes()))
    );
    assert!(matches!(
        decode_vaa_payload(&vaa, PayloadType::WormholeTokenTransfer),
        Ok(PayloadResponse::WormholeTokenTransfer(_))
    ));
    assert_eq!(
        decode_vaa_payload(&vaa, PayloadType::RawBytes),
        Ok(PayloadResponse::RawBytes(transfer_bytes()))
    );
    assert_eq!(
        decode_vaa_payload(&vaa, PayloadType::WormholeAssetMeta),
        Err(CooError::MalformedPayload)
    );
}

#[test]
fn a_bridge_vaa_without_payload_fails_inference() {
    let vaa = parse_vaa(&vaa_bytes(2, padded(ETH_TOKEN), &[])).unwrap();
    assert_eq!(classify_vaa(&vaa), Err(CooError::EmptyPayload));
    assert_eq!(decode_vaa_payload(&vaa, PayloadType::SmartInfer), Err(CooError::EmptyPayload));
    assert_eq!(decode_vaa_payload(&vaa, PayloadType::RawBytes), Ok(PayloadResponse::RawBytes(vec![])));
    assert_eq!(decode_vaa_payload(&vaa, PayloadType::WormholeTokenTransfer), Err(CooError::TruncatedPayload));
}

#[test]
fn a_bridge_vaa_with_an_unknown_leading_byte_stays_raw() {
    let vaa = parse_vaa(&vaa_bytes(2, padded(ETH_TOKEN), &[99, 1, 2])).unwrap();
    assert_eq!(
        decode_vaa_payload(&vaa, PayloadType::SmartInfer),
        Ok(PayloadResponse::RawBytes(vec![99, 1, 2]))
    );
}

#[test]
fn a_token_transfer_agrees_with_the_network_sdk() {
    let p = transfer_bytes();
    let ours = decode_token_transfer(&p).unwrap();
    let theirs: wormhole_sdk::token::Message = serde_wormhole::from_slice(&p).unwrap();
    match theirs {
        wormhole_sdk::token::Message::Transfer {
            amount,
            token_address,
            token_chain,
            recipient,
            recipient_chain,
            fee,
        } => {
            assert_eq!(ours.amount.0, amount.0);
            assert_eq!(ours.token_address, token_address.0);
            assert_eq!(ours.token_chain.id(), u16::from(token_chain));
            assert_eq!(ours.recipient, recipient.0);
            assert_eq!(ours.recipient_chain.id(), u16::from(recipient_chain));
            assert_eq!(ours.fee.0, fee.0);
        }
        other => panic!("unexpected {:?}", other),
    }
    let mut longer = p.clone();
    longer.push(0);
    assert!(serde_wormhole::from_slice::<wormhole_sdk::token::Message>(&longer).is_err());
    assert!(serde_wormhole::from_slice::<wormhole_sdk::token::Message>(&p[..101]).is_err());
}

#[test]
fn a_transfer_with_payload_agrees_with_the_network_sdk() {
    let p = transfer_with_payload_bytes(&[7, 8, 9]);
    let ours = decode_transfer_with_payload(&p).unwrap();
    let theirs: wormhole_sdk::token::Message = serde_wormhole::from_slice(&p).unwrap();
    match theirs {
        wormhole_sdk::token::Message::TransferWithPayload {
            amount,
            token_address,
            token_chain,
            recipient,
            recipient_chain,
            sender_address,
            payload,
        } => {
            assert_eq!(ours.amount.0, amount.0);
            assert_eq!(ours.token_address, token_address.0);
            assert_eq!(ours.token_chain.id(), u16::from(token_chain));
            assert_eq!(ours.recipient, recipient.0);
            assert_eq!(ours.recipient_chain.id(), u16::from(recipient_chain));
            assert_eq!(ours.sender_address, sender_address.0);
            let inner: &[u8] = payload.as_ref().as_ref();
            assert_eq!(&ours.payload[..], inner);
        }
        other => panic!("unexpected {:?}", other),
    }
}

#[test]
fn text_that_fills_its_slot_agrees_with_the_network_sdk() {
    let p = asset_meta_bytes(&[b'S'; 32], &[b'N'; 32]);
    let ours = decode_asset_meta(&p).unwrap();
    let theirs: wormhole_sdk::token::Message = serde_wormhole::from_slice(&p).unwrap();
    match theirs {
        wormhole_sdk::token::Message::AssetMeta { token_address, token_chain, decimals, symbol, name } => {
            assert_eq!(ours.token_address, token_address.0);
            assert_eq!(ours.token_chain.id(), u16::from(token_chain));
            assert_eq!(ours.decimals, decimals);
            assert_eq!(ours.symbol, symbol.to_string());
            assert_eq!(ours.name, name.to_string());
        }
        other => panic!("unexpected {:?}", other),
    }
}

#[test]
fn an_nft_transfer_agrees_with_the_network_sdk() {
    let p = nft_bytes(&[b'S'; 32], &[b'N'; 32], b"https://example.com/42");
    let ours = decode_nft_transfer(&p).unwrap();
    let theirs: wormhole_sdk::nft::Message = serde_wormhole::from_slice(&p).unwrap();
    match theirs {
        wormhole_sdk::nft::Message::Transfer {
            nft_address,
            nft_chain,
            symbol,
            name,
            token_id,
            uri,
            to,
            to_chain,
        } => {
            assert_eq!(ours.nft_address, nft_address.0);
            assert_eq!(ours.nft_chain.id(), u16::from(nft_chain));
            assert_eq!(ours.symbol, symbol.to_string());
            assert_eq!(ours.name, name.to_string());
            assert_eq!(ours.token_id.0, token_id.0);
            assert_eq!(ours.uri, uri.to_string());
            assert_eq!(ours.to, to.0);
            assert_eq!(ours.to_chain.id(), u16::from(to_chain));
        }
    }
}
