//! Tables that show a VAA and its payload to a person.

use vstd::prelude::*;
use vstd::string::StringExecFns;
use crate::chain::{chain_name_text, CooChain};
use crate::codec::{
    base64_encoding, bytestobase64, bytestohex, bytestoplainhex, compact_hex, hex_bytes, hex_lower,
    hex_payload, is_hex_text, lemma_compact_hex_round_trip, lemma_leading_zeros_keep_value,
};
use crate::payload::{
    Amount, AssetMeta, AssetMetaModel, NftMessage, NftMessageModel, NftTransfer, NftTransferModel,
    PayloadModel, PayloadResponse, TokenId, TokenMessage, TokenMessageModel, TokenTransfer,
    TokenTransferModel, TokenTransferWithPayload, TokenTransferWithPayloadModel,
};
use crate::error::CooError;
use crate::text::{decimal, decimal_text};
use crate::wire::be_nat;
use crate::vaa::{Signature, SignatureModel, Vaa, VaaModel};

verus! {

/// One line of a table: what is shown, and its value.
#[derive(Debug, Clone, PartialEq, Eq)]
pub struct Entry {
    pub label: String,
    pub value: String,
}

impl View for Entry {
    type V = (Seq<char>, Seq<char>);

    open spec fn view(&self) -> (Seq<char>, Seq<char>) {
        (self.label@, self.value@)
    }
}

/// The lines that a list of entries holds, in its order.
pub open spec fn entries_model(entries: Seq<Entry>) -> Seq<(Seq<char>, Seq<char>)> {
    Seq::new(entries.len(), |i: int| entries[i]@)
}

/// The text of a table with one heading and lines of two cells each.
pub uninterp spec fn table_text(heading: Seq<char>, lines: Seq<(Seq<char>, Seq<char>)>) -> Seq<char>;

/// `Display` of a `comfy_table::Table` that is made with `Table::new`, gets
/// the heading as its header row of one cell with `set_header`, and each line
/// as a row of two cells with `add_rows`. Such a table has no styling and no
/// dynamic arrangement, so its text is a function of the cells alone, here
/// called `table_text`.
#[verifier::external_body]
fn render_table(heading: &str, entries: &Vec<Entry>) -> (text: String)
    ensures
        text@ == table_text(heading@, entries_model(entries@)),
{
    let mut table = comfy_table::Table::new();
    table.set_header([heading]);
    table.add_rows(entries.iter().map(|entry| [entry.label.as_str(), entry.value.as_str()]));
    table.to_string()
}

/// Makes one line of a table.
fn entry(label: &str, value: String) -> (e: Entry)
    ensures
        e@ == (label@, value@),
{
    Entry { label: String::from_str(label), value }
}

/// An amount for display: `0x` and its digits without leading zero bytes. The
/// digits stand for bytes that denote the amount.
pub fn amounttostring(amount: &Amount) -> (text: String)
    ensures
        text@ == compact_hex(amount@),
        is_hex_text(hex_payload(text@)),
        be_nat(hex_bytes(hex_payload(text@))) == amount.value(),
{
    proof {
        lemma_compact_hex_round_trip(amount@);
        lemma_leading_zeros_keep_value(amount@);
    }
    bytestohex(amount.0.as_slice())
}

/// A token identifier for display: `0x` and its digits without leading zero
/// bytes. The digits stand for bytes that denote the identifier.
pub fn tokenidtostring(tokenid: &TokenId) -> (text: String)
    ensures
        text@ == compact_hex(tokenid@),
        is_hex_text(hex_payload(text@)),
        be_nat(hex_bytes(hex_payload(text@))) == tokenid.value(),
{
    proof {
        lemma_compact_hex_round_trip(tokenid@);
        lemma_leading_zeros_keep_value(tokenid@);
    }
    bytestohex(tokenid.0.as_slice())
}

/// The lines that show a token transfer.
pub open spec fn token_transfer_lines(m: TokenTransferModel) -> Seq<(Seq<char>, Seq<char>)> {
    seq![
        ("Payload Type"@, "Transfer"@),
        ("Amount"@, compact_hex(m.amount)),
        ("Token Address (Origin)"@, hex_lower(m.token_address)),
        ("Token Chain (Origin)"@, chain_name_text(m.token_chain)),
        ("Token Recipient"@, hex_lower(m.recipient)),
        ("Token Recipient Chain"@, chain_name_text(m.recipient_chain)),
        ("Relayer Fees"@, compact_hex(m.fee)),
    ]
}

/// The lines that show a token's metadata.
pub open spec fn asset_meta_lines(m: AssetMetaModel) -> Seq<(Seq<char>, Seq<char>)> {
    seq![
        ("Payload Type"@, "AssetMeta"@),
        ("Token Address (Origin)"@, hex_lower(m.token_address)),
        ("Token Chain (Origin)"@, chain_name_text(m.token_chain)),
        ("Token Decimals"@, decimal_text(m.decimals as nat)),
        ("Token Symbol"@, m.symbol),
        ("Token Name"@, m.name),
    ]
}

/// The lines that show a token transfer with payload.
pub open spec fn transfer_with_payload_lines(m: TokenTransferWithPayloadModel) -> Seq<(Seq<char>, Seq<char>)> {
    seq![
        ("Payload Type"@, "TransferWithPayload"@),
        ("Amount"@, compact_hex(m.amount)),
        ("Token Address (Origin)"@, hex_lower(m.token_address)),
        ("Token Chain (Origin)"@, chain_name_text(m.token_chain)),
        ("Token Recipient"@, hex_lower(m.recipient)),
        ("Token Recipient Chain"@, chain_name_text(m.recipient_chain)),
        ("Sender Address"@, hex_lower(m.sender_address)),
        ("Payload"@, base64_encoding(m.payload)),
    ]
}

/// The lines that show a message of the token bridge.
pub open spec fn token_message_lines(m: TokenMessageModel) -> Seq<(Seq<char>, Seq<char>)> {
    match m {
        TokenMessageModel::Transfer(m) => token_transfer_lines(m),
        TokenMessageModel::AssetMeta(m) => asset_meta_lines(m),
        TokenMessageModel::TransferWithPayload(m) => transfer_with_payload_lines(m),
    }
}

fn token_transfer_entries(m: &TokenTransfer) -> (entries: Vec<Entry>)
    ensures
        entries_model(entries@) == token_transfer_lines(m@),
{
    let mut entries: Vec<Entry> = Vec::new();
    entries.push(entry("Payload Type", String::from_str("Transfer")));
    entries.push(entry("Amount", amounttostring(&m.amount)));
    entries.push(entry("Token Address (Origin)", bytestoplainhex(m.token_address.as_slice())));
    entries.push(entry("Token Chain (Origin)", m.token_chain.name()));
    entries.push(entry("Token Recipient", bytestoplainhex(m.recipient.as_slice())));
    entries.push(entry("Token Recipient Chain", m.recipient_chain.name()));
    entries.push(entry("Relayer Fees", amounttostring(&m.fee)));
    assert(entries_model(entries@) =~= token_transfer_lines(m@));
    entries
}

fn asset_meta_entries(m: &AssetMeta) -> (entries: Vec<Entry>)
    ensures
        entries_model(entries@) == asset_meta_lines(m@),
{
    let mut entries: Vec<Entry> = Vec::new();
    entries.push(entry("Payload Type", String::from_str("AssetMeta")));
    entries.push(entry("Token Address (Origin)", bytestoplainhex(m.token_address.as_slice())));
    entries.push(entry("Token Chain (Origin)", m.token_chain.name()));
    entries.push(entry("Token Decimals", decimal(m.decimals as u64)));
    entries.push(entry("Token Symbol", m.symbol.clone()));
    entries.push(entry("Token Name", m.name.clone()));
    assert(entries_model(entries@) =~= asset_meta_lines(m@));
    entries
}

fn transfer_with_payload_entries(m: &TokenTransferWithPayload) -> (entries: Vec<Entry>)
    ensures
        entries_model(entries@) == transfer_with_payload_lines(m@),
{
    let mut entries: Vec<Entry> = Vec::new();
    entries.push(entry("Payload Type", String::from_str("TransferWithPayload")));
    entries.push(entry("Amount", amounttostring(&m.amount)));
    entries.push(entry("Token Address (Origin)", bytestoplainhex(m.token_address.as_slice())));
    entries.push(entry("Token Chain (Origin)", m.token_chain.name()));
    entries.push(entry("Token Recipient", bytestoplainhex(m.recipient.as_slice())));
    entries.push(entry("Token Recipient Chain", m.recipient_chain.name()));
    entries.push(entry("Sender Address", bytestoplainhex(m.sender_address.as_slice())));
    entries.push(entry("Payload", bytestobase64(m.payload.as_slice())));
    assert(entries_model(entries@) =~= transfer_with_payload_lines(m@));
    entries
}

/// A table that shows a message of the token bridge.
pub fn pretty_token_payload(payload: &TokenMessage) -> (text: String)
    ensures
        text@ == table_text("Wormhole Token Payload Information"@, token_message_lines(payload@)),
{
    let entries = match payload {
        TokenMessage::Transfer(m) => token_transfer_entries(m),
        TokenMessage::AssetMeta(m) => asset_meta_entries(m),
        TokenMessage::TransferWithPayload(m) => transfer_with_payload_entries(m),
    };
    render_table("Wormhole Token Payload Information", &entries)
}

/// The lines that show an NFT transfer.
pub open spec fn nft_transfer_lines(m: NftTransferModel) -> Seq<(Seq<char>, Seq<char>)> {
    seq![
        ("Payload Type"@, "Transfer"@),
        ("NFT Address (Origin)"@, hex_lower(m.nft_address)),
        ("NFT Chain (Origin)"@, chain_name_text(m.nft_chain)),
        ("NFT Symbol"@, m.symbol),
        ("NFT Name"@, m.name),
        ("Token ID"@, compact_hex(m.token_id)),
        ("URI"@, m.uri),
        ("Destination Address"@, hex_lower(m.to)),
        ("Destination Chain"@, chain_name_text(m.to_chain)),
    ]
}

/// The lines that show a message of the NFT bridge.
pub open spec fn nft_message_lines(m: NftMessageModel) -> Seq<(Seq<char>, Seq<char>)> {
    match m {
        NftMessageModel::Transfer(m) => nft_transfer_lines(m),
    }
}

fn nft_transfer_entries(m: &NftTransfer) -> (entries: Vec<Entry>)
    ensures
        entries_model(entries@) == nft_transfer_lines(m@),
{
    let mut entries: Vec<Entry> = Vec::new();
    entries.push(entry("Payload Type", String::from_str("Transfer")));
    entries.push(entry("NFT Address (Origin)", bytestoplainhex(m.nft_address.as_slice())));
    entries.push(entry("NFT Chain (Origin)", m.nft_chain.name()));
    entries.push(entry("NFT Symbol", m.symbol.clone()));
    entries.push(entry("NFT Name", m.name.clone()));
    entries.push(entry("Token ID", tokenidtostring(&m.token_id)));
    entries.push(entry("URI", m.uri.clone()));
    entries.push(entry("Destination Address", bytestoplainhex(m.to.as_slice())));
    entries.push(entry("Destination Chain", m.to_chain.name()));
    assert(entries_model(entries@) =~= nft_transfer_lines(m@));
    entries
}

/// A table that shows a message of the NFT bridge.
pub fn pretty_nft_payload(payload: &NftMessage) -> (text: String)
    ensures
        text@ == table_text("Wormhole NFT Payload Information"@, nft_message_lines(payload@)),
{
    let entries = match payload {
        NftMessage::Transfer(m) => nft_transfer_entries(m),
    };
    render_table("Wormhole NFT Payload Information", &entries)
}

/// A guardian's index as a signature's line starts with it: in decimal, with a
/// space behind a single digit.
pub open spec fn index_text(index: u8) -> Seq<char> {
    if index < 10 {
        decimal_text(index as nat) + " "@
    } else {
        decimal_text(index as nat)
    }
}

/// The line that shows one signature: the guardian's index, a colon, and the
/// signature in hexadecimal.
pub open spec fn signature_line(signature: SignatureModel) -> Seq<char> {
    index_text(signature.index) + ": "@ + hex_lower(signature.signature)
}

/// The lines that show the signatures, one below the other, in their order.
pub open spec fn signature_lines(signatures: Seq<SignatureModel>) -> Seq<char>
    decreases signatures.len(),
{
    if signatures.len() == 0 {
        Seq::empty()
    } else if signatures.len() == 1 {
        signature_line(signatures[0])
    } else {
        signature_lines(signatures.drop_last()) + "\n"@ + signature_line(signatures.last())
    }
}

/// The lines that show a VAA.
pub open spec fn vaa_lines(vaa: VaaModel) -> Seq<(Seq<char>, Seq<char>)> {
    seq![
        ("Version"@, decimal_text(vaa.version as nat)),
        ("Timestamp"@, decimal_text(vaa.timestamp as nat)),
        ("Nonce"@, decimal_text(vaa.nonce as nat)),
        ("Emitter Chain"@, chain_name_text(vaa.emitter_chain)),
        ("Emitter Address"@, hex_lower(vaa.emitter_address)),
        ("Sequence"@, decimal_text(vaa.sequence as nat)),
        ("Consistency Level"@, decimal_text(vaa.consistency_level as nat)),
        ("Guardian Set"@, decimal_text(vaa.guardian_set_index as nat)),
        ("Signatures"@, signature_lines(vaa.signatures)),
    ]
}

fn signature_text(signature: &Signature) -> (text: String)
    ensures
        text@ == signature_line(signature@),
{
    let index = decimal(signature.index as u64);
    let index = if signature.index < 10 { index.concat(" ") } else { index };
    index.concat(": ").concat(bytestoplainhex(signature.signature.as_slice()).as_str())
}

fn signatures_text(signatures: &Vec<Signature>) -> (text: String)
    ensures
        text@ == signature_lines(Seq::new(signatures@.len(), |k: int| signatures@[k]@)),
{
    let ghost all = Seq::new(signatures@.len(), |k: int| signatures@[k]@);
    let mut text = String::new();
    let mut i: usize = 0;
    while i < signatures.len()
        invariant
            i <= signatures@.len(),
            all == Seq::new(signatures@.len(), |k: int| signatures@[k]@),
            text@ == signature_lines(all.take(i as int)),
        decreases signatures@.len() - i,
    {
        let line = signature_text(&signatures[i]);
        proof {
            assert(all.take(i + 1).drop_last() =~= all.take(i as int));
            assert(all.take(i + 1).last() == signatures@[i as int]@);
        }
        if i > 0 {
            text = text.concat("\n");
        }
        text = text.concat(line.as_str());
        proof {
            if i == 0 {
                assert(text@ =~= line@);
                assert(all.take(1)[0] == signatures@[0]@);
            }
        }
        i = i + 1;
    }
    assert(all.take(i as int) =~= all);
    text
}

/// A table that shows a VAA's header and the fixed part of its body.
pub fn pretty_vaa(vaa: &Vaa) -> (text: String)
    ensures
        text@ == table_text("VAA Information"@, vaa_lines(vaa@)),
{
    let mut entries: Vec<Entry> = Vec::new();
    entries.push(entry("Version", decimal(vaa.header.version as u64)));
    entries.push(entry("Timestamp", decimal(vaa.body.timestamp as u64)));
    entries.push(entry("Nonce", decimal(vaa.body.nonce as u64)));
    entries.push(entry("Emitter Chain", vaa.body.emitter_chain.name()));
    entries.push(entry("Emitter Address", bytestoplainhex(vaa.body.emitter_address.as_slice())));
    entries.push(entry("Sequence", decimal(vaa.body.sequence)));
    entries.push(entry("Consistency Level", decimal(vaa.body.consistency_level as u64)));
    entries.push(entry("Guardian Set", decimal(vaa.header.guardian_set_index as u64)));
    entries.push(entry("Signatures", signatures_text(&vaa.header.signatures)));
    assert(entries_model(entries@) =~= vaa_lines(vaa@));
    render_table("VAA Information", &entries)
}

/// The lines that show a decoded token transfer in short.
pub open spec fn transfer_summary(m: TokenTransferModel) -> Seq<(Seq<char>, Seq<char>)> {
    seq![
        ("Payload Type"@, "Wormhole Token Transfer"@),
        ("Amount"@, compact_hex(m.amount)),
        ("Token Address"@, compact_hex(m.token_address)),
        ("Token Chain"@, chain_name_text(m.token_chain)),
        ("Recipient"@, compact_hex(m.recipient)),
        ("Recipient Chain"@, chain_name_text(m.recipient_chain)),
        ("Fee"@, compact_hex(m.fee)),
    ]
}

/// The lines that show a decoded token's metadata in short.
pub open spec fn asset_meta_summary(m: AssetMetaModel) -> Seq<(Seq<char>, Seq<char>)> {
    seq![
        ("Payload Type"@, "Wormhole Asset Meta"@),
        ("Token Address"@, compact_hex(m.token_address)),
        ("Token Chain"@, chain_name_text(m.token_chain)),
        ("Name"@, m.name),
        ("Symbol"@, m.symbol),
        ("Decimals"@, decimal_text(m.decimals as nat)),
    ]
}

/// The lines that show a decoded token transfer with payload in short.
pub open spec fn transfer_with_payload_summary(m: TokenTransferWithPayloadModel) -> Seq<(Seq<char>, Seq<char>)> {
    seq![
        ("Payload Type"@, "Wormhole Token Transfer with Payload"@),
        ("Amount"@, compact_hex(m.amount)),
        ("Token Address"@, compact_hex(m.token_address)),
        ("Token Chain"@, chain_name_text(m.token_chain)),
        ("Recipient"@, compact_hex(m.recipient)),
        ("Recipient Chain"@, chain_name_text(m.recipient_chain)),
        ("Sender Address"@, compact_hex(m.sender_address)),
        ("Payload"@, base64_encoding(m.payload)),
    ]
}

/// An NFT transfer as indented JSON, in the form in which the network's SDK
/// writes its own NFT message; `None` where the SDK refuses the message.
pub uninterp spec fn nft_json_text(m: NftTransferModel) -> Option<Seq<char>>;

/// `serde_json::to_string_pretty` of the `wormhole_sdk::nft::Message::Transfer`
/// that holds the transfer's fields, each moved as it is: the outcome is a
/// function of the fields alone, here called `nft_json_text`.
#[verifier::external_body]
fn nft_json(m: &NftTransfer) -> (r: Result<String, serde_json::Error>)
    ensures
        match r {
            Ok(text) => nft_json_text(m@) == Some(text@),
            Err(_) => nft_json_text(m@) is None,
        },
{
    let CooChain::Inner(nft_chain) = m.nft_chain;
    let CooChain::Inner(to_chain) = m.to_chain;
    serde_json::to_string_pretty(&wormhole_sdk::nft::Message::Transfer {
        nft_address: wormhole_sdk::Address(m.nft_address),
        nft_chain: wormhole_sdk::Chain::from(nft_chain),
        symbol: m.symbol.as_str().into(),
        name: m.name.as_str().into(),
        token_id: wormhole_sdk::nft::TokenId(m.token_id.0),
        uri: m.uri.as_str().into(),
        to: wormhole_sdk::Address(m.to),
        to_chain: wormhole_sdk::Chain::from(to_chain),
    })
}

/// The text that shows a decoded payload: raw bytes in hexadecimal, a message
/// of the token bridge as a table, an NFT transfer as JSON. `None` where an NFT
/// transfer cannot be written as JSON.
pub open spec fn payload_text(payload: PayloadModel) -> Option<Seq<char>> {
    match payload {
        PayloadModel::RawBytes(bytes) => Some(hex_lower(bytes)),
        PayloadModel::WormholeTokenTransfer(m) => Some(table_text("Payload"@, transfer_summary(m))),
        PayloadModel::WormholeTokenTransferPayload(m) => Some(
            table_text("Payload"@, transfer_with_payload_summary(m)),
        ),
        PayloadModel::WormholeAssetMeta(m) => Some(table_text("Payload"@, asset_meta_summary(m))),
        PayloadModel::WormholeNftTransfer(m) => nft_json_text(m),
    }
}

fn transfer_summary_entries(m: &TokenTransfer) -> (entries: Vec<Entry>)
    ensures
        entries_model(entries@) == transfer_summary(m@),
{
    let mut entries: Vec<Entry> = Vec::new();
    entries.push(entry("Payload Type", String::from_str("Wormhole Token Transfer")));
    entries.push(entry("Amount", amounttostring(&m.amount)));
    entries.push(entry("Token Address", bytestohex(m.token_address.as_slice())));
    entries.push(entry("Token Chain", m.token_chain.name()));
    entries.push(entry("Recipient", bytestohex(m.recipient.as_slice())));
    entries.push(entry("Recipient Chain", m.recipient_chain.name()));
    entries.push(entry("Fee", amounttostring(&m.fee)));
    assert(entries_model(entries@) =~= transfer_summary(m@));
    entries
}

fn asset_meta_summary_entries(m: &AssetMeta) -> (entries: Vec<Entry>)
    ensures
        entries_model(entries@) == asset_meta_summary(m@),
{
    let mut entries: Vec<Entry> = Vec::new();
    entries.push(entry("Payload Type", String::from_str("Wormhole Asset Meta")));
    entries.push(entry("Token Address", bytestohex(m.token_address.as_slice())));
    entries.push(entry("Token Chain", m.token_chain.name()));
    entries.push(entry("Name", m.name.clone()));
    entries.push(entry("Symbol", m.symbol.clone()));
    entries.push(entry("Decimals", decimal(m.decimals as u64)));
    assert(entries_model(entries@) =~= asset_meta_summary(m@));
    entries
}

fn transfer_with_payload_summary_entries(m: &TokenTransferWithPayload) -> (entries: Vec<Entry>)
    ensures
        entries_model(entries@) == transfer_with_payload_summary(m@),
{
    let mut entries: Vec<Entry> = Vec::new();
    entries.push(entry("Payload Type", String::from_str("Wormhole Token Transfer with Payload")));
    entries.push(entry("Amount", amounttostring(&m.amount)));
    entries.push(entry("Token Address", bytestohex(m.token_address.as_slice())));
    entries.push(entry("Token Chain", m.token_chain.name()));
    entries.push(entry("Recipient", bytestohex(m.recipient.as_slice())));
    entries.push(entry("Recipient Chain", m.recipient_chain.name()));
    entries.push(entry("Sender Address", bytestohex(m.sender_address.as_slice())));
    entries.push(entry("Payload", bytestobase64(m.payload.as_slice())));
    assert(entries_model(entries@) =~= transfer_with_payload_summary(m@));
    entries
}

impl PayloadResponse {
    /// The text that shows the payload: raw bytes in hexadecimal, a message of
    /// the token bridge as a table, an NFT transfer as JSON. Only an NFT transfer
    /// can fail, where it cannot be written as JSON.
    pub fn display_text(&self) -> (r: Result<String, CooError>)
        ensures
            match r {
                Ok(text) => payload_text(self@) == Some(text@),
                Err(e) => e == CooError::JsonEncodeError && payload_text(self@) is None,
            },
            !(self is WormholeNftTransfer) ==> r is Ok,
    {
        match self {
            PayloadResponse::RawBytes(bytes) => Ok(bytestoplainhex(bytes.as_slice())),
            PayloadResponse::WormholeTokenTransfer(m) => Ok(
                render_table("Payload", &transfer_summary_entries(m)),
            ),
            PayloadResponse::WormholeTokenTransferPayload(m) => Ok(
                render_table("Payload", &transfer_with_payload_summary_entries(m)),
            ),
            PayloadResponse::WormholeAssetMeta(m) => Ok(
                render_table("Payload", &asset_meta_summary_entries(m)),
            ),
            PayloadResponse::WormholeNftTransfer(m) => match nft_json(m) {
                Ok(text) => Ok(text),
                Err(_) => Err(CooError::JsonEncodeError),
            },
        }
    }
}

} // verus!
