//! Telling what a payload is from who emitted it and from its leading byte.

use vstd::prelude::*;
use crate::chain::CooChain;
use crate::emitter::{
    bridge_in, deployments, known_deployments, lookup_bridge, table_model, Bridge, Deployment,
    DeploymentModel,
};
use crate::error::CooError;
use crate::payload::{PayloadKind, KIND_ASSET_META, KIND_TRANSFER, KIND_TRANSFER_WITH_PAYLOAD};

verus! {

/// The kind that a bridge's payload has by its leading byte. The core bridge
/// carries governance messages, which stay raw bytes; so does a payload of the
/// other bridges whose leading byte names no kind. A payload of theirs without a
/// leading byte is an error.
pub open spec fn bridge_payload_kind(bridge: Bridge, payload: Seq<u8>) -> Result<PayloadKind, CooError> {
    match bridge {
        Bridge::Core => Ok(PayloadKind::RawBytes),
        Bridge::Token => if payload.len() == 0 {
            Err(CooError::EmptyPayload)
        } else if payload[0] == KIND_TRANSFER {
            Ok(PayloadKind::TokenTransfer)
        } else if payload[0] == KIND_ASSET_META {
            Ok(PayloadKind::AssetMeta)
        } else if payload[0] == KIND_TRANSFER_WITH_PAYLOAD {
            Ok(PayloadKind::TokenTransferWithPayload)
        } else {
            Ok(PayloadKind::RawBytes)
        },
        Bridge::Nft => if payload.len() == 0 {
            Err(CooError::EmptyPayload)
        } else if payload[0] == KIND_TRANSFER {
            Ok(PayloadKind::NftTransfer)
        } else {
            Ok(PayloadKind::RawBytes)
        },
    }
}

/// The kind of a payload, given the table of deployments: raw bytes where the
/// emitter is none of the table's contracts, else what the bridge and the
/// leading byte say.
pub open spec fn classification(
    table: Seq<DeploymentModel>,
    chain: u16,
    address: Seq<u8>,
    payload: Seq<u8>,
) -> Result<PayloadKind, CooError> {
    match bridge_in(table, chain, address) {
        None => Ok(PayloadKind::RawBytes),
        Some(bridge) => bridge_payload_kind(bridge, payload),
    }
}

/// Tells the kind of a bridge's payload by its leading byte.
pub fn classify_bridge_payload(bridge: Bridge, payload: &[u8]) -> (r: Result<PayloadKind, CooError>)
    ensures
        r == bridge_payload_kind(bridge, payload@),
{
    match bridge {
        Bridge::Core => Ok(PayloadKind::RawBytes),
        Bridge::Token => {
            if payload.len() == 0 {
                Err(CooError::EmptyPayload)
            } else if payload[0] == KIND_TRANSFER {
                Ok(PayloadKind::TokenTransfer)
            } else if payload[0] == KIND_ASSET_META {
                Ok(PayloadKind::AssetMeta)
            } else if payload[0] == KIND_TRANSFER_WITH_PAYLOAD {
                Ok(PayloadKind::TokenTransferWithPayload)
            } else {
                Ok(PayloadKind::RawBytes)
            }
        },
        Bridge::Nft => {
            if payload.len() == 0 {
                Err(CooError::EmptyPayload)
            } else if payload[0] == KIND_TRANSFER {
                Ok(PayloadKind::NftTransfer)
            } else {
                Ok(PayloadKind::RawBytes)
            }
        },
    }
}

/// Tells the kind of a payload from its emitter, with `table` as the known
/// deployments.
pub fn classify_in(
    table: &[Deployment],
    emitter_chain: CooChain,
    emitter_address: &[u8; 32],
    payload: &[u8],
) -> (r: Result<PayloadKind, CooError>)
    ensures
        r == classification(table_model(table@), emitter_chain.spec_id(), emitter_address@, payload@),
{
    match lookup_bridge(table, emitter_chain, emitter_address) {
        None => Ok(PayloadKind::RawBytes),
        Some(bridge) => classify_bridge_payload(bridge, payload),
    }
}

/// Tells the kind of a payload from its emitter. The outcome depends on the
/// three arguments and on nothing else.
pub fn classify(emitter_chain: CooChain, emitter_address: &[u8; 32], payload: &[u8]) -> (r: Result<
    PayloadKind,
    CooError,
>)
    ensures
        r == classification(deployments(), emitter_chain.spec_id(), emitter_address@, payload@),
{
    let table = known_deployments();
    classify_in(table.as_slice(), emitter_chain, emitter_address, payload)
}

/// Classification is a function of its inputs: two outcomes for the same chain,
/// address and payload are the same outcome.
pub proof fn lemma_classification_deterministic(
    chain: u16,
    address: Seq<u8>,
    payload: Seq<u8>,
    first: Result<PayloadKind, CooError>,
    second: Result<PayloadKind, CooError>,
)
    requires
        first == classification(deployments(), chain, address, payload),
        second == classification(deployments(), chain, address, payload),
    ensures
        first == second,
{
}

/// What the token bridge's payloads classify as: a leading byte of 1 is a
/// transfer, 2 is metadata, 3 is a transfer with payload, any other byte leaves
/// raw bytes, and no byte at all is an error.
pub proof fn lemma_token_bridge_classification(chain: u16, address: Seq<u8>, payload: Seq<u8>)
    requires
        bridge_in(deployments(), chain, address) == Some(Bridge::Token),
    ensures
        payload.len() == 0 ==> classification(deployments(), chain, address, payload) == Err::<
            PayloadKind,
            CooError,
        >(CooError::EmptyPayload),
        payload.len() > 0 && payload[0] == 1 ==> classification(deployments(), chain, address, payload)
            == Ok::<PayloadKind, CooError>(PayloadKind::TokenTransfer),
        payload.len() > 0 && payload[0] == 2 ==> classification(deployments(), chain, address, payload)
            == Ok::<PayloadKind, CooError>(PayloadKind::AssetMeta),
        payload.len() > 0 && payload[0] == 3 ==> classification(deployments(), chain, address, payload)
            == Ok::<PayloadKind, CooError>(PayloadKind::TokenTransferWithPayload),
        payload.len() > 0 && !(1 <= payload[0] <= 3) ==> classification(
            deployments(),
            chain,
            address,
            payload,
        ) == Ok::<PayloadKind, CooError>(PayloadKind::RawBytes),
{
}

} // verus!
