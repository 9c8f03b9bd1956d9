//! The messages of the token bridge and of the NFT bridge, as a VAA's payload
//! carries them. Every layout is fixed: a leading byte that names the kind, then
//! the fields in order, numbers big-endian, nothing between them.

use vstd::prelude::*;
use crate::chain::CooChain;
use crate::error::CooError;
use crate::text::{read_padded_text, read_text, trimmed, utf8_text};
use crate::wire::{be_nat, be_u16, lemma_low_byte_value, read_array, read_bytes, read_u16};

verus! {

/// Leading byte of a transfer, on either bridge.
pub const KIND_TRANSFER: u8 = 1;

/// Leading byte of a token's metadata.
pub const KIND_ASSET_META: u8 = 2;

/// Leading byte of a token transfer that carries a payload of its own.
pub const KIND_TRANSFER_WITH_PAYLOAD: u8 = 3;

/// Length of a token transfer.
pub const TRANSFER_LEN: usize = 133;

/// Length of a token transfer with payload, before that payload.
pub const TRANSFER_WITH_PAYLOAD_LEN: usize = 133;

/// Length of a token's metadata.
pub const ASSET_META_LEN: usize = 100;

/// Length of an NFT transfer up to and including the length byte of its URI.
pub const NFT_HEAD_LEN: usize = 132;

/// Length of an NFT transfer behind its URI: the destination and its chain.
pub const NFT_TAIL_LEN: usize = 34;

/// A 256-bit amount, big-endian.
#[derive(Debug, Clone, Copy, PartialEq, Eq, PartialOrd, Ord, Hash)]
pub struct Amount(pub [u8; 32]);

/// A 256-bit token identifier, big-endian.
#[derive(Debug, Clone, Copy, PartialEq, Eq, PartialOrd, Ord, Hash)]
pub struct TokenId(pub [u8; 32]);

impl Amount {
    /// The amount as a number.
    pub open spec fn value(self) -> nat {
        be_nat(self.0@)
    }
}

impl TokenId {
    /// The identifier as a number.
    pub open spec fn value(self) -> nat {
        be_nat(self.0@)
    }
}

/// A transfer of tokens to a recipient on another chain.
#[derive(Debug, Clone, Copy, PartialEq, Eq)]
pub struct TokenTransfer {
    pub amount: Amount,
    pub token_address: [u8; 32],
    pub token_chain: CooChain,
    pub recipient: [u8; 32],
    pub recipient_chain: CooChain,
    pub fee: Amount,
}

/// A transfer of tokens that hands a payload to the receiving contract.
#[derive(Debug, Clone, PartialEq, Eq)]
pub struct TokenTransferWithPayload {
    pub amount: Amount,
    pub token_address: [u8; 32],
    pub token_chain: CooChain,
    pub recipient: [u8; 32],
    pub recipient_chain: CooChain,
    pub sender_address: [u8; 32],
    pub payload: Vec<u8>,
}

/// What a token is called and how it counts.
#[derive(Debug, Clone, PartialEq, Eq)]
pub struct AssetMeta {
    pub token_address: [u8; 32],
    pub token_chain: CooChain,
    pub decimals: u8,
    pub symbol: String,
    pub name: String,
}

/// A transfer of one NFT to a destination on another chain.
#[derive(Debug, Clone, PartialEq, Eq)]
pub struct NftTransfer {
    pub nft_address: [u8; 32],
    pub nft_chain: CooChain,
    pub symbol: String,
    pub name: String,
    pub token_id: TokenId,
    pub uri: String,
    pub to: [u8; 32],
    pub to_chain: CooChain,
}

/// A message of the token bridge.
#[derive(Debug, Clone, PartialEq, Eq)]
pub enum TokenMessage {
    Transfer(TokenTransfer),
    AssetMeta(AssetMeta),
    TransferWithPayload(TokenTransferWithPayload),
}

/// A message of the NFT bridge.
#[derive(Debug, Clone, PartialEq, Eq)]
pub enum NftMessage {
    Transfer(NftTransfer),
}

/// A token transfer as a mathematical value.
pub struct TokenTransferModel {
    pub amount: Seq<u8>,
    pub token_address: Seq<u8>,
    pub token_chain: u16,
    pub recipient: Seq<u8>,
    pub recipient_chain: u16,
    pub fee: Seq<u8>,
}

/// A token transfer with payload as a mathematical value.
pub struct TokenTransferWithPayloadModel {
    pub amount: Seq<u8>,
    pub token_address: Seq<u8>,
    pub token_chain: u16,
    pub recipient: Seq<u8>,
    pub recipient_chain: u16,
    pub sender_address: Seq<u8>,
    pub payload: Seq<u8>,
}

/// A token's metadata as a mathematical value.
pub struct AssetMetaModel {
    pub token_address: Seq<u8>,
    pub token_chain: u16,
    pub decimals: u8,
    pub symbol: Seq<char>,
    pub name: Seq<char>,
}

/// An NFT transfer as a mathematical value.
pub struct NftTransferModel {
    pub nft_address: Seq<u8>,
    pub nft_chain: u16,
    pub symbol: Seq<char>,
    pub name: Seq<char>,
    pub token_id: Seq<u8>,
    pub uri: Seq<char>,
    pub to: Seq<u8>,
    pub to_chain: u16,
}

/// A message of the token bridge as a mathematical value.
pub enum TokenMessageModel {
    Transfer(TokenTransferModel),
    AssetMeta(AssetMetaModel),
    TransferWithPayload(TokenTransferWithPayloadModel),
}

/// A message of the NFT bridge as a mathematical value.
pub enum NftMessageModel {
    Transfer(NftTransferModel),
}

impl View for Amount {
    type V = Seq<u8>;

    open spec fn view(&self) -> Seq<u8> {
        self.0@
    }
}

impl View for TokenId {
    type V = Seq<u8>;

    open spec fn view(&self) -> Seq<u8> {
        self.0@
    }
}

impl View for TokenTransfer {
    type V = TokenTransferModel;

    open spec fn view(&self) -> TokenTransferModel {
        TokenTransferModel {
            amount: self.amount@,
            token_address: self.token_address@,
            token_chain: self.token_chain.spec_id(),
            recipient: self.recipient@,
            recipient_chain: self.recipient_chain.spec_id(),
            fee: self.fee@,
        }
    }
}

impl View for TokenTransferWithPayload {
    type V = TokenTransferWithPayloadModel;

    open spec fn view(&self) -> TokenTransferWithPayloadModel {
        TokenTransferWithPayloadModel {
            amount: self.amount@,
            token_address: self.token_address@,
            token_chain: self.token_chain.spec_id(),
            recipient: self.recipient@,
            recipient_chain: self.recipient_chain.spec_id(),
            sender_address: self.sender_address@,
            payload: self.payload@,
        }
    }
}

impl View for AssetMeta {
    type V = AssetMetaModel;

    open spec fn view(&self) -> AssetMetaModel {
        AssetMetaModel {
            token_address: self.token_address@,
            token_chain: self.token_chain.spec_id(),
            decimals: self.decimals,
            symbol: self.symbol@,
            name: self.name@,
        }
    }
}

impl View for NftTransfer {
    type V = NftTransferModel;

    open spec fn view(&self) -> NftTransferModel {
        NftTransferModel {
            nft_address: self.nft_address@,
            nft_chain: self.nft_chain.spec_id(),
            symbol: self.symbol@,
            name: self.name@,
            token_id: self.token_id@,
            uri: self.uri@,
            to: self.to@,
            to_chain: self.to_chain.spec_id(),
        }
    }
}

impl View for TokenMessage {
    type V = TokenMessageModel;

    open spec fn view(&self) -> TokenMessageModel {
        match self {
            TokenMessage::Transfer(m) => TokenMessageModel::Transfer(m@),
            TokenMessage::AssetMeta(m) => TokenMessageModel::AssetMeta(m@),
            TokenMessage::TransferWithPayload(m) => TokenMessageModel::TransferWithPayload(m@),
        }
    }
}

impl View for NftMessage {
    type V = NftMessageModel;

    open spec fn view(&self) -> NftMessageModel {
        match self {
            NftMessage::Transfer(m) => NftMessageModel::Transfer(m@),
        }
    }
}

/// Why a payload cannot be of a kind whose fixed part has `len` bytes and whose
/// leading byte is `kind`, as far as its length and leading byte tell; `None`
/// where they fit. A payload without a leading byte is truncated; one with
/// another leading byte is malformed; one that ends inside the fixed part is
/// truncated.
pub open spec fn frame_fault(payload: Seq<u8>, kind: u8, len: int) -> Option<CooError> {
    if payload.len() == 0 {
        Some(CooError::TruncatedPayload)
    } else if payload[0] != kind {
        Some(CooError::MalformedPayload)
    } else if payload.len() < len {
        Some(CooError::TruncatedPayload)
    } else {
        None
    }
}

/// The fields of a token transfer.
pub open spec fn token_transfer_fields(payload: Seq<u8>) -> TokenTransferModel {
    TokenTransferModel {
        amount: payload.subrange(1, 33),
        token_address: payload.subrange(33, 65),
        token_chain: be_u16(payload, 65) as u16,
        recipient: payload.subrange(67, 99),
        recipient_chain: be_u16(payload, 99) as u16,
        fee: payload.subrange(101, 133),
    }
}

/// What decoding a payload as a token transfer gives. Bytes behind the fee make
/// the payload malformed.
pub open spec fn token_transfer_decoding(payload: Seq<u8>) -> Result<TokenTransferModel, CooError> {
    match frame_fault(payload, KIND_TRANSFER, TRANSFER_LEN as int) {
        Some(fault) => Err(fault),
        None => if payload.len() > TRANSFER_LEN {
            Err(CooError::MalformedPayload)
        } else {
            Ok(token_transfer_fields(payload))
        },
    }
}

/// A token transfer whose amount field holds zero bytes and then one byte
/// decodes to the amount that this byte holds.
pub proof fn lemma_transfer_small_amount(payload: Seq<u8>)
    requires
        token_transfer_decoding(payload) is Ok,
        forall|i: int| 1 <= i < 32 ==> payload[i] == 0,
    ensures
        be_nat(token_transfer_decoding(payload).unwrap().amount) == payload[32],
{
    lemma_low_byte_value(payload.subrange(1, 33));
}

/// The fields of a token transfer with payload.
pub open spec fn transfer_with_payload_fields(payload: Seq<u8>) -> TokenTransferWithPayloadModel {
    TokenTransferWithPayloadModel {
        amount: payload.subrange(1, 33),
        token_address: payload.subrange(33, 65),
        token_chain: be_u16(payload, 65) as u16,
        recipient: payload.subrange(67, 99),
        recipient_chain: be_u16(payload, 99) as u16,
        sender_address: payload.subrange(101, 133),
        payload: payload.subrange(133, payload.len() as int),
    }
}

/// What decoding a payload as a token transfer with payload gives. All that
/// follows the sender's address is the inner payload.
pub open spec fn transfer_with_payload_decoding(payload: Seq<u8>) -> Result<
    TokenTransferWithPayloadModel,
    CooError,
> {
    match frame_fault(payload, KIND_TRANSFER_WITH_PAYLOAD, TRANSFER_WITH_PAYLOAD_LEN as int) {
        Some(fault) => Err(fault),
        None => Ok(transfer_with_payload_fields(payload)),
    }
}

/// Decodes a token transfer.
pub fn decode_token_transfer(payload: &[u8]) -> (r: Result<TokenTransfer, CooError>)
    ensures
        match r {
            Ok(m) => token_transfer_decoding(payload@) == Ok::<TokenTransferModel, CooError>(m@),
            Err(e) => token_transfer_decoding(payload@) == Err::<TokenTransferModel, CooError>(e),
        },
{
    let len = payload.len();
    if len == 0 {
        return Err(CooError::TruncatedPayload);
    }
    if payload[0] != KIND_TRANSFER {
        return Err(CooError::MalformedPayload);
    }
    if len < TRANSFER_LEN {
        return Err(CooError::TruncatedPayload);
    }
    if len > TRANSFER_LEN {
        return Err(CooError::MalformedPayload);
    }
    Ok(
        TokenTransfer {
            amount: Amount(read_array::<32>(payload, 1)),
            token_address: read_array::<32>(payload, 33),
            token_chain: CooChain::Inner(read_u16(payload, 65)),
            recipient: read_array::<32>(payload, 67),
            recipient_chain: CooChain::Inner(read_u16(payload, 99)),
            fee: Amount(read_array::<32>(payload, 101)),
        },
    )
}

/// Decodes a token transfer with payload.
pub fn decode_transfer_with_payload(payload: &[u8]) -> (r: Result<TokenTransferWithPayload, CooError>)
    ensures
        match r {
            Ok(m) => transfer_with_payload_decoding(payload@) == Ok::<
                TokenTransferWithPayloadModel,
                CooError,
            >(m@),
            Err(e) => transfer_with_payload_decoding(payload@) == Err::<
                TokenTransferWithPayloadModel,
                CooError,
            >(e),
        },
{
    let len = payload.len();
    if len == 0 {
        return Err(CooError::TruncatedPayload);
    }
    if payload[0] != KIND_TRANSFER_WITH_PAYLOAD {
        return Err(CooError::MalformedPayload);
    }
    if len < TRANSFER_WITH_PAYLOAD_LEN {
        return Err(CooError::TruncatedPayload);
    }
    Ok(
        TokenTransferWithPayload {
            amount: Amount(read_array::<32>(payload, 1)),
            token_address: read_array::<32>(payload, 33),
            token_chain: CooChain::Inner(read_u16(payload, 65)),
            recipient: read_array::<32>(payload, 67),
            recipient_chain: CooChain::Inner(read_u16(payload, 99)),
            sender_address: read_array::<32>(payload, 101),
            payload: read_bytes(payload, 133, len),
        },
    )
}

/// The text of the 32-byte slot at `at`: what its bytes encode once the zero
/// bytes at its end are taken off; `None` where that is not UTF-8.
pub open spec fn slot_text(payload: Seq<u8>, at: int) -> Option<Seq<char>> {
    utf8_text(trimmed(payload.subrange(at, at + 32)))
}

/// What decoding a payload as a token's metadata gives. Bytes behind the name
/// make the payload malformed; a symbol or a name that is not UTF-8 fails.
pub open spec fn asset_meta_decoding(payload: Seq<u8>) -> Result<AssetMetaModel, CooError> {
    match frame_fault(payload, KIND_ASSET_META, ASSET_META_LEN as int) {
        Some(fault) => Err(fault),
        None => if payload.len() > ASSET_META_LEN {
            Err(CooError::MalformedPayload)
        } else if slot_text(payload, 36) is None || slot_text(payload, 68) is None {
            Err(CooError::InvalidUtf8)
        } else {
            Ok(
                AssetMetaModel {
                    token_address: payload.subrange(1, 33),
                    token_chain: be_u16(payload, 33) as u16,
                    decimals: payload[35],
                    symbol: slot_text(payload, 36).unwrap(),
                    name: slot_text(payload, 68).unwrap(),
                },
            )
        },
    }
}

/// Decodes a token's metadata.
pub fn decode_asset_meta(payload: &[u8]) -> (r: Result<AssetMeta, CooError>)
    ensures
        match r {
            Ok(m) => asset_meta_decoding(payload@) == Ok::<AssetMetaModel, CooError>(m@),
            Err(e) => asset_meta_decoding(payload@) == Err::<AssetMetaModel, CooError>(e),
        },
        (payload@.len() == ASSET_META_LEN && payload@[0] == KIND_ASSET_META && (slot_text(payload@, 36) is None
            || slot_text(payload@, 68) is None)) ==> r == Err::<AssetMeta, CooError>(
            CooError::InvalidUtf8,
        ),
{
    let len = payload.len();
    if len == 0 {
        return Err(CooError::TruncatedPayload);
    }
    if payload[0] != KIND_ASSET_META {
        return Err(CooError::MalformedPayload);
    }
    if len < ASSET_META_LEN {
        return Err(CooError::TruncatedPayload);
    }
    if len > ASSET_META_LEN {
        return Err(CooError::MalformedPayload);
    }
    let symbol = read_padded_text(payload, 36, 68)?;
    let name = read_padded_text(payload, 68, 100)?;
    Ok(
        AssetMeta {
            token_address: read_array::<32>(payload, 1),
            token_chain: CooChain::Inner(read_u16(payload, 33)),
            decimals: payload[35],
            symbol,
            name,
        },
    )
}

/// Where the URI of an NFT transfer ends.
pub open spec fn nft_uri_end(payload: Seq<u8>) -> int {
    NFT_HEAD_LEN as int + payload[131] as int
}

/// The URI of an NFT transfer; `None` where its bytes are not UTF-8.
pub open spec fn nft_uri(payload: Seq<u8>) -> Option<Seq<char>> {
    utf8_text(payload.subrange(NFT_HEAD_LEN as int, nft_uri_end(payload)))
}

/// What decoding a payload as an NFT transfer gives. The URI is as long as the
/// byte before it says; the destination and its chain follow, and nothing else.
pub open spec fn nft_transfer_decoding(payload: Seq<u8>) -> Result<NftTransferModel, CooError> {
    match frame_fault(payload, KIND_TRANSFER, NFT_HEAD_LEN as int) {
        Some(fault) => Err(fault),
        None => if payload.len() < nft_uri_end(payload) + NFT_TAIL_LEN {
            Err(CooError::TruncatedPayload)
        } else if payload.len() > nft_uri_end(payload) + NFT_TAIL_LEN {
            Err(CooError::MalformedPayload)
        } else if slot_text(payload, 35) is None || slot_text(payload, 67) is None || nft_uri(payload) is None {
            Err(CooError::InvalidUtf8)
        } else {
            Ok(
                NftTransferModel {
                    nft_address: payload.subrange(1, 33),
                    nft_chain: be_u16(payload, 33) as u16,
                    symbol: slot_text(payload, 35).unwrap(),
                    name: slot_text(payload, 67).unwrap(),
                    token_id: payload.subrange(99, 131),
                    uri: nft_uri(payload).unwrap(),
                    to: payload.subrange(nft_uri_end(payload), nft_uri_end(payload) + 32),
                    to_chain: be_u16(payload, nft_uri_end(payload) + 32) as u16,
                },
            )
        },
    }
}

/// Decodes an NFT transfer.
pub fn decode_nft_transfer(payload: &[u8]) -> (r: Result<NftTransfer, CooError>)
    ensures
        match r {
            Ok(m) => nft_transfer_decoding(payload@) == Ok::<NftTransferModel, CooError>(m@),
            Err(e) => nft_transfer_decoding(payload@) == Err::<NftTransferModel, CooError>(e),
        },
        (payload@.len() >= NFT_HEAD_LEN && payload@[0] == KIND_TRANSFER && payload@.len() == nft_uri_end(payload@)
            + NFT_TAIL_LEN && (slot_text(payload@, 35) is None || slot_text(payload@, 67) is None || nft_uri(
            payload@,
        ) is None)) ==> r == Err::<NftTransfer, CooError>(CooError::InvalidUtf8),
{
    let len = payload.len();
    if len == 0 {
        return Err(CooError::TruncatedPayload);
    }
    if payload[0] != KIND_TRANSFER {
        return Err(CooError::MalformedPayload);
    }
    if len < NFT_HEAD_LEN {
        return Err(CooError::TruncatedPayload);
    }
    let uri_end: usize = NFT_HEAD_LEN + payload[131] as usize;
    if len < uri_end || len - uri_end < NFT_TAIL_LEN {
        return Err(CooError::TruncatedPayload);
    }
    if len - uri_end > NFT_TAIL_LEN {
        return Err(CooError::MalformedPayload);
    }
    let symbol = read_padded_text(payload, 35, 67)?;
    let name = read_padded_text(payload, 67, 99)?;
    let uri = read_text(payload, NFT_HEAD_LEN, uri_end)?;
    Ok(
        NftTransfer {
            nft_address: read_array::<32>(payload, 1),
            nft_chain: CooChain::Inner(read_u16(payload, 33)),
            symbol,
            name,
            token_id: TokenId(read_array::<32>(payload, 99)),
            uri,
            to: read_array::<32>(payload, uri_end),
            to_chain: CooChain::Inner(read_u16(payload, uri_end + 32)),
        },
    )
}

/// What a payload is decoded as.
#[derive(Debug, Clone, Copy, PartialEq, Eq, PartialOrd, Ord, Hash, Structural)]
pub enum PayloadKind {
    RawBytes,
    TokenTransfer,
    TokenTransferWithPayload,
    AssetMeta,
    NftTransfer,
}

/// What a caller asks a payload to be decoded as: a kind, or `SmartInfer`, which
/// leaves the choice to the emitter and the payload's leading byte.
#[derive(Debug, Clone, Copy, PartialEq, Eq, PartialOrd, Ord, Hash, Structural)]
pub enum PayloadType {
    SmartInfer,
    RawBytes,
    WormholeTokenTransfer,
    WormholeTokenTransferPayload,
    WormholeNftTransfer,
    WormholeAssetMeta,
}

impl PayloadType {
    /// The kind that the request names; `None` for `SmartInfer`.
    pub open spec fn spec_kind(self) -> Option<PayloadKind> {
        match self {
            PayloadType::SmartInfer => None,
            PayloadType::RawBytes => Some(PayloadKind::RawBytes),
            PayloadType::WormholeTokenTransfer => Some(PayloadKind::TokenTransfer),
            PayloadType::WormholeTokenTransferPayload => Some(PayloadKind::TokenTransferWithPayload),
            PayloadType::WormholeNftTransfer => Some(PayloadKind::NftTransfer),
            PayloadType::WormholeAssetMeta => Some(PayloadKind::AssetMeta),
        }
    }

    /// The kind that the request names; `None` for `SmartInfer`.
    #[verifier::when_used_as_spec(spec_kind)]
    pub fn kind(self) -> (kind: Option<PayloadKind>)
        ensures
            kind == self.spec_kind(),
    {
        match self {
            PayloadType::SmartInfer => None,
            PayloadType::RawBytes => Some(PayloadKind::RawBytes),
            PayloadType::WormholeTokenTransfer => Some(PayloadKind::TokenTransfer),
            PayloadType::WormholeTokenTransferPayload => Some(PayloadKind::TokenTransferWithPayload),
            PayloadType::WormholeNftTransfer => Some(PayloadKind::NftTransfer),
            PayloadType::WormholeAssetMeta => Some(PayloadKind::AssetMeta),
        }
    }
}

/// A decoded payload.
#[derive(Debug, Clone, PartialEq, Eq)]
pub enum PayloadResponse {
    RawBytes(Vec<u8>),
    WormholeTokenTransfer(TokenTransfer),
    WormholeTokenTransferPayload(TokenTransferWithPayload),
    WormholeAssetMeta(AssetMeta),
    WormholeNftTransfer(NftTransfer),
}

/// A decoded payload as a mathematical value.
pub enum PayloadModel {
    RawBytes(Seq<u8>),
    WormholeTokenTransfer(TokenTransferModel),
    WormholeTokenTransferPayload(TokenTransferWithPayloadModel),
    WormholeAssetMeta(AssetMetaModel),
    WormholeNftTransfer(NftTransferModel),
}

impl View for PayloadResponse {
    type V = PayloadModel;

    open spec fn view(&self) -> PayloadModel {
        match self {
            PayloadResponse::RawBytes(bytes) => PayloadModel::RawBytes(bytes@),
            PayloadResponse::WormholeTokenTransfer(m) => PayloadModel::WormholeTokenTransfer(m@),
            PayloadResponse::WormholeTokenTransferPayload(m) => PayloadModel::WormholeTokenTransferPayload(m@),
            PayloadResponse::WormholeAssetMeta(m) => PayloadModel::WormholeAssetMeta(m@),
            PayloadResponse::WormholeNftTransfer(m) => PayloadModel::WormholeNftTransfer(m@),
        }
    }
}

/// What decoding a payload as a kind gives. Raw bytes are the payload itself.
pub open spec fn payload_decoding(payload: Seq<u8>, kind: PayloadKind) -> Result<PayloadModel, CooError> {
    match kind {
        PayloadKind::RawBytes => Ok(PayloadModel::RawBytes(payload)),
        PayloadKind::TokenTransfer => match token_transfer_decoding(payload) {
            Ok(m) => Ok(PayloadModel::WormholeTokenTransfer(m)),
            Err(e) => Err(e),
        },
        PayloadKind::TokenTransferWithPayload => match transfer_with_payload_decoding(payload) {
            Ok(m) => Ok(PayloadModel::WormholeTokenTransferPayload(m)),
            Err(e) => Err(e),
        },
        PayloadKind::AssetMeta => match asset_meta_decoding(payload) {
            Ok(m) => Ok(PayloadModel::WormholeAssetMeta(m)),
            Err(e) => Err(e),
        },
        PayloadKind::NftTransfer => match nft_transfer_decoding(payload) {
            Ok(m) => Ok(PayloadModel::WormholeNftTransfer(m)),
            Err(e) => Err(e),
        },
    }
}

/// Decodes a payload as the given kind. The payload is left as it is; what
/// comes back owns its bytes.
pub fn decode_payload(payload: &[u8], kind: PayloadKind) -> (r: Result<PayloadResponse, CooError>)
    ensures
        match r {
            Ok(m) => payload_decoding(payload@, kind) == Ok::<PayloadModel, CooError>(m@),
            Err(e) => payload_decoding(payload@, kind) == Err::<PayloadModel, CooError>(e),
        },
        kind is RawBytes ==> r is Ok,
{
    match kind {
        PayloadKind::RawBytes => {
            let bytes = read_bytes(payload, 0, payload.len());
            assert(bytes@ =~= payload@);
            Ok(PayloadResponse::RawBytes(bytes))
        },
        PayloadKind::TokenTransfer => match decode_token_transfer(payload) {
            Ok(m) => Ok(PayloadResponse::WormholeTokenTransfer(m)),
            Err(e) => Err(e),
        },
        PayloadKind::TokenTransferWithPayload => match decode_transfer_with_payload(payload) {
            Ok(m) => Ok(PayloadResponse::WormholeTokenTransferPayload(m)),
            Err(e) => Err(e),
        },
        PayloadKind::AssetMeta => match decode_asset_meta(payload) {
            Ok(m) => Ok(PayloadResponse::WormholeAssetMeta(m)),
            Err(e) => Err(e),
        },
        PayloadKind::NftTransfer => match decode_nft_transfer(payload) {
            Ok(m) => Ok(PayloadResponse::WormholeNftTransfer(m)),
            Err(e) => Err(e),
        },
    }
}

/// What decoding a payload as a message of the token bridge gives: the leading
/// byte names the kind, and a byte that names none makes the payload malformed.
pub open spec fn token_message_decoding(payload: Seq<u8>) -> Result<TokenMessageModel, CooError> {
    if payload.len() == 0 {
        Err(CooError::TruncatedPayload)
    } else if payload[0] == KIND_TRANSFER {
        match token_transfer_decoding(payload) {
            Ok(m) => Ok(TokenMessageModel::Transfer(m)),
            Err(e) => Err(e),
        }
    } else if payload[0] == KIND_ASSET_META {
        match asset_meta_decoding(payload) {
            Ok(m) => Ok(TokenMessageModel::AssetMeta(m)),
            Err(e) => Err(e),
        }
    } else if payload[0] == KIND_TRANSFER_WITH_PAYLOAD {
        match transfer_with_payload_decoding(payload) {
            Ok(m) => Ok(TokenMessageModel::TransferWithPayload(m)),
            Err(e) => Err(e),
        }
    } else {
        Err(CooError::MalformedPayload)
    }
}

/// Decodes a message of the token bridge, of whichever kind its leading byte names.
pub fn decode_token_message(payload: &[u8]) -> (r: Result<TokenMessage, CooError>)
    ensures
        match r {
            Ok(m) => token_message_decoding(payload@) == Ok::<TokenMessageModel, CooError>(m@),
            Err(e) => token_message_decoding(payload@) == Err::<TokenMessageModel, CooError>(e),
        },
{
    if payload.len() == 0 {
        Err(CooError::TruncatedPayload)
    } else if payload[0] == KIND_TRANSFER {
        match decode_token_transfer(payload) {
            Ok(m) => Ok(TokenMessage::Transfer(m)),
            Err(e) => Err(e),
        }
    } else if payload[0] == KIND_ASSET_META {
        match decode_asset_meta(payload) {
            Ok(m) => Ok(TokenMessage::AssetMeta(m)),
            Err(e) => Err(e),
        }
    } else if payload[0] == KIND_TRANSFER_WITH_PAYLOAD {
        match decode_transfer_with_payload(payload) {
            Ok(m) => Ok(TokenMessage::TransferWithPayload(m)),
            Err(e) => Err(e),
        }
    } else {
        Err(CooError::MalformedPayload)
    }
}

/// What decoding a payload as a message of the NFT bridge gives.
pub open spec fn nft_message_decoding(payload: Seq<u8>) -> Result<NftMessageModel, CooError> {
    match nft_transfer_decoding(payload) {
        Ok(m) => Ok(NftMessageModel::Transfer(m)),
        Err(e) => Err(e),
    }
}

/// Decodes a message of the NFT bridge.
pub fn decode_nft_message(payload: &[u8]) -> (r: Result<NftMessage, CooError>)
    ensures
        match r {
            Ok(m) => nft_message_decoding(payload@) == Ok::<NftMessageModel, CooError>(m@),
            Err(e) => nft_message_decoding(payload@) == Err::<NftMessageModel, CooError>(e),
        },
{
    match decode_nft_transfer(payload) {
        Ok(m) => Ok(NftMessage::Transfer(m)),
        Err(e) => Err(e),
    }
}

} // verus!
