use coo::chain::CooChain;
use coo::error::CooError;
use coo::payload::{
    Amount, AssetMeta, NftMessage, NftTransfer, PayloadResponse, TokenId, TokenMessage, TokenTransfer,
    TokenTransferWithPayload,
};
use coo::render::{amounttostring, pretty_nft_payload, pretty_token_payload, pretty_vaa, tokenidtostring};
use coo::vaa::parse_vaa;

fn expected_table(heading: &str, rows: &[(&str, &str)]) -> String {
    let mut left = heading.len();
    let mut right = 1;
    for (label, value) in rows {
        left = left.max(label.len());
        for line in value.lines() {
            right = right.max(line.len());
        }
    }
    let border = format!("+{}+{}+", "-".repeat(left + 2), "-".repeat(right + 2));
    let rule = format!("|{}+{}|", "-".repeat(left + 2), "-".repeat(right + 2));
    let mut lines = vec![
        border.clone(),
        format!("| {:<left$} | {:<right$} |", heading, ""),
        format!("+{}+", "=".repeat(left + right + 5)),
    ];
    for (k, (label, value)) in rows.iter().enumerate() {
        if k > 0 {
            lines.push(rule.clone());
        }
        for (j, line) in value.lines().enumerate() {
            let label = if j == 0 { label } else { "" };
            lines.push(format!("| {:<left$} | {:<right$} |", label, line));
        }
    }
    lines.push(border);
    lines.join("\n")
}

fn amount(low: u8) -> Amount {
    let mut bytes = [0u8; 32];
    bytes[31] = low;
    Amount(bytes)
}

#[test]
fn amounts_and_token_ids_show_without_leading_zeros() {
    assert_eq!(amounttostring(&amount(1)), "0x01");
    assert_eq!(amounttostring(&Amount([0; 32])), "0x");
    let mut id = [0u8; 32];
    id[30] = 0x12;
    id[31] = 0x00;
    assert_eq!(tokenidtostring(&TokenId(id)), "0x1200");
    assert_eq!(tokenidtostring(&TokenId([0xff; 32])), format!("0x{}", "ff".repeat(32)));
}

#[test]
fn a_token_transfer_shows_as_a_table() {
    let m = TokenMessage::Transfer(TokenTransfer {
        amount: amount(1),
        token_address: [0x11; 32],
        token_chain: CooChain::Inner(2),
        recipient: [0x22; 32],
        recipient_chain: CooChain::Inner(6),
        fee: Amount([0; 32]),
    });
    let expected = expected_table(
        "Wormhole Token Payload Information",
        &[
            ("Payload Type", "Transfer"),
            ("Amount", "0x01"),
            ("Token Address (Origin)", &"11".repeat(32)),
            ("Token Chain (Origin)", "Ethereum"),
            ("Token Recipient", &"22".repeat(32)),
            ("Token Recipient Chain", "Avalanche"),
            ("Relayer Fees", "0x"),
        ],
    );
    assert_eq!(pretty_token_payload(&m), expected);
}

#[test]
fn asset_meta_shows_as_a_table() {
    let m = TokenMessage::AssetMeta(AssetMeta {
        token_address: [0x11; 32],
        token_chain: CooChain::Inner(2),
        decimals: 6,
        symbol: "USDC".to_string(),
        name: "USD Coin".to_string(),
    });
    let expected = expected_table(
        "Wormhole Token Payload Information",
        &[
            ("Payload Type", "AssetMeta"),
            ("Token Address (Origin)", &"11".repeat(32)),
            ("Token Chain (Origin)", "Ethereum"),
            ("Token Decimals", "6"),
            ("Token Symbol", "USDC"),
            ("Token Name", "USD Coin"),
        ],
    );
    assert_eq!(pretty_token_payload(&m), expected);
}

#[test]
fn a_transfer_with_payload_shows_its_payload_in_base64() {
    let m = TokenMessage::TransferWithPayload(TokenTransferWithPayload {
        amount: amount(0x10),
        token_address: [0x11; 32],
        token_chain: CooChain::Inner(1),
        recipient: [0x22; 32],
        recipient_chain: CooChain::Inner(4),
        sender_address: [0x33; 32],
        payload: b"hello".to_vec(),
    });
    let expected = expected_table(
        "Wormhole Token Payload Information",
        &[
            ("Payload Type", "TransferWithPayload"),
            ("Amount", "0x10"),
            ("Token Address (Origin)", &"11".repeat(32)),
            ("Token Chain (Origin)", "Solana"),
            ("Token Recipient", &"22".repeat(32)),
            ("Token Recipient Chain", "Bsc"),
            ("Sender Address", &"33".repeat(32)),
            ("Payload", "aGVsbG8="),
        ],
    );
    assert_eq!(pretty_token_payload(&m), expected);
}

#[test]
fn an_nft_transfer_shows_as_a_table() {
    let mut id = [0u8; 32];
    id[31] = 42;
    let m = NftMessage::Transfer(NftTransfer {
        nft_address: [0x44; 32],
        nft_chain: CooChain::Inner(2),
        symbol: "APE".to_string(),
        name: "Ape".to_string(),
        token_id: TokenId(id),
        uri: "https://example.com/42".to_string(),
        to: [0x55; 32],
        to_chain: CooChain::Inner(6),
    });
    let expected = expected_table(
        "Wormhole NFT Payload Information",
        &[
            ("Payload Type", "Transfer"),
            ("NFT Address (Origin)", &"44".repeat(32)),
            ("NFT Chain (Origin)", "Ethereum"),
            ("NFT Symbol", "APE"),
            ("NFT Name", "Ape"),
            ("Token ID", "0x2a"),
            ("URI", "https://example.com/42"),
            ("Destination Address", &"55".repeat(32)),
            ("Destination Chain", "Avalanche"),
        ],
    );
    assert_eq!(pretty_nft_payload(&m), expected);
}

#[test]
fn a_vaa_shows_as_a_table() {
    let mut bytes = vec![1u8, 0, 0, 0, 3, 2];
    for k in 0..2u8 {
        bytes.push(k * 11);
        bytes.extend_from_slice(&[k + 1; 65]);
    }
    bytes.extend_from_slice(&[0, 0, 0, 5, 0, 0, 0, 6, 0, 2]);
    bytes.extend_from_slice(&[0xaa; 32]);
    bytes.extend_from_slice(&[0, 0, 0, 0, 0, 0, 0, 7, 1]);
    let vaa = parse_vaa(&bytes).unwrap();
    let signatures = format!("0 : {}\n11: {}", "01".repeat(65), "02".repeat(65));
    let expected = expected_table(
        "VAA Information",
        &[
            ("Version", "1"),
            ("Timestamp", "5"),
            ("Nonce", "6"),
            ("Emitter Chain", "Ethereum"),
            ("Emitter Address", &"aa".repeat(32)),
            ("Sequence", "7"),
            ("Consistency Level", "1"),
            ("Guardian Set", "3"),
            ("Signatures", &signatures),
        ],
    );
    assert_eq!(pretty_vaa(&vaa), expected);
}

#[test]
fn a_vaa_with_a_three_digit_guardian_index() {
    let mut bytes = vec![1u8, 0, 0, 0, 0, 1, 200];
    bytes.extend_from_slice(&[0xab; 65]);
    bytes.extend_from_slice(&[0u8; 51]);
    let vaa = parse_vaa(&bytes).unwrap();
    let text = pretty_vaa(&vaa);
    assert!(text.contains(&format!("| 200: {} |", "ab".repeat(65))));
    assert!(text.contains("| Emitter Chain     | Any "));
}

#[test]
fn raw_bytes_show_as_hexadecimal() {
    assert_eq!(PayloadResponse::RawBytes(vec![0, 1, 0xfe]).display_text().unwrap(), "0001fe");
    assert_eq!(PayloadResponse::RawBytes(vec![]).display_text().unwrap(), "");
}

#[test]
fn decoded_token_payloads_show_as_short_tables() {
    let transfer = TokenTransfer {
        amount: amount(1),
        token_address: [0x11; 32],
        token_chain: CooChain::Inner(2),
        recipient: [0x22; 32],
        recipient_chain: CooChain::Inner(6),
        fee: amount(2),
    };
    let expected = expected_table(
        "Payload",
        &[
            ("Payload Type", "Wormhole Token Transfer"),
            ("Amount", "0x01"),
            ("Token Address", &format!("0x{}", "11".repeat(32))),
            ("Token Chain", "Ethereum"),
            ("Recipient", &format!("0x{}", "22".repeat(32))),
            ("Recipient Chain", "Avalanche"),
            ("Fee", "0x02"),
        ],
    );
    assert_eq!(PayloadResponse::WormholeTokenTransfer(transfer).display_text().unwrap(), expected);

    let mut short_address = [0u8; 32];
    short_address[31] = 0x0f;
    let meta = AssetMeta {
        token_address: short_address,
        token_chain: CooChain::Inner(6),
        decimals: 18,
        symbol: "WETH".to_string(),
        name: "Wrapped Ether".to_string(),
    };
    let expected = expected_table(
        "Payload",
        &[
            ("Payload Type", "Wormhole Asset Meta"),
            ("Token Address", "0x0f"),
            ("Token Chain", "Avalanche"),
            ("Name", "Wrapped Ether"),
            ("Symbol", "WETH"),
            ("Decimals", "18"),
        ],
    );
    assert_eq!(PayloadResponse::WormholeAssetMeta(meta).display_text().unwrap(), expected);

    let with_payload = TokenTransferWithPayload {
        amount: amount(1),
        token_address: [0x11; 32],
        token_chain: CooChain::Inner(2),
        recipient: [0x22; 32],
        recipient_chain: CooChain::Inner(6),
        sender_address: [0x33; 32],
        payload: vec![1, 2, 3],
    };
    let expected = expected_table(
        "Payload",
        &[
            ("Payload Type", "Wormhole Token Transfer with Payload"),
            ("Amount", "0x01"),
            ("Token Address", &format!("0x{}", "11".repeat(32))),
            ("Token Chain", "Ethereum"),
            ("Recipient", &format!("0x{}", "22".repeat(32))),
            ("Recipient Chain", "Avalanche"),
            ("Sender Address", &format!("0x{}", "33".repeat(32))),
            ("Payload", "AQID"),
        ],
    );
    assert_eq!(
        PayloadResponse::WormholeTokenTransferPayload(with_payload).display_text().unwrap(),
        expected
    );
}

#[test]
fn an_nft_transfer_shows_as_json() {
    let mut id = [0u8; 32];
    id[31] = 42;
    let m = NftTransfer {
        nft_address: [0x44; 32],
        nft_chain: CooChain::Inner(2),
        symbol: "APE".to_string(),
        name: "Ape".to_string(),
        token_id: TokenId(id),
        uri: "https://example.com/42".to_string(),
        to: [0x55; 32],
        to_chain: CooChain::Inner(6),
    };
    let text = PayloadResponse::WormholeNftTransfer(m).display_text().unwrap();
    let numbers = |bytes: &[u8]| {
        let items: Vec<String> = bytes.iter().map(|b| b.to_string()).collect();
        format!("[{}]", items.join(","))
    };
    let mut symbol = [0u8; 32];
    symbol[29..].copy_from_slice(b"APE");
    let mut name = [0u8; 32];
    name[29..].copy_from_slice(b"Ape");
    let expected = format!(
        "{{\"1\":{{\"nft_address\":{},\"nft_chain\":2,\"symbol\":{},\"name\":{},\"token_id\":{},\"uri\":{},\"to\":{},\"to_chain\":6}}}}",
        numbers(&[0x44; 32]),
        numbers(&symbol),
        numbers(&name),
        numbers(&id),
        numbers(b"https://example.com/42"),
        numbers(&[0x55; 32]),
    );
    let compact: String = text.chars().filter(|c| !c.is_whitespace()).collect();
    assert_eq!(compact, expected);
    let lines: Vec<&str> = text.lines().collect();
    assert_eq!(lines[0], "{");
    assert_eq!(lines[1], "  \"1\": {");
    assert_eq!(lines[2], "    \"nft_address\": [");
    assert_eq!(lines[3], "      68,");
    assert_eq!(lines[lines.len() - 2], "  }");
    assert_eq!(lines[lines.len() - 1], "}");
}

#[test]
fn an_nft_transfer_with_too_long_a_symbol_has_no_json() {
    let m = NftTransfer {
        nft_address: [0; 32],
        nft_chain: CooChain::Inner(2),
        symbol: "S".repeat(33),
        name: String::new(),
        token_id: TokenId([0; 32]),
        uri: String::new(),
        to: [0; 32],
        to_chain: CooChain::Inner(6),
    };
    assert_eq!(
        PayloadResponse::WormholeNftTransfer(m).display_text(),
        Err(CooError::JsonEncodeError)
    );
}
