//! The VAA wire format: a header with the guardians' signatures, then the body
//! that they signed. All numbers are big-endian and no padding separates fields.

use vstd::prelude::*;
use crate::chain::CooChain;
use crate::classify::{classification, classify};
use crate::emitter::deployments;
use crate::error::CooError;
use crate::payload::{
    decode_nft_message, decode_payload, decode_token_message, nft_message_decoding, payload_decoding,
    token_message_decoding, NftMessage, NftMessageModel, PayloadKind, PayloadModel, PayloadResponse,
    PayloadType, TokenMessage, TokenMessageModel,
};
use crate::wire::{be_u16, be_u32, be_u64, read_array, read_bytes, read_u16, read_u32, read_u64};

verus! {

/// The only version of the format that is understood.
pub const VAA_VERSION: u8 = 1;

/// Bytes before the first signature: version, guardian set index, signature count.
pub const HEADER_LEN: usize = 6;

/// Bytes of one signature entry: the guardian's index and a 65-byte signature.
pub const SIGNATURE_LEN: usize = 66;

/// Bytes of the body before its payload.
pub const BODY_LEN: usize = 51;

/// One guardian's signature, with the guardian's position in its set.
#[derive(Debug, Clone, Copy, PartialEq, Eq)]
pub struct Signature {
    pub index: u8,
    pub signature: [u8; 65],
}

/// What precedes the signed part: the format's version, the guardian set that
/// signed, and the signatures in the order in which the buffer holds them.
#[derive(Debug, Clone, PartialEq, Eq)]
pub struct VaaHeader {
    pub version: u8,
    pub guardian_set_index: u32,
    pub signatures: Vec<Signature>,
}

/// The signed part: when and where the message was emitted, and the message.
#[derive(Debug, Clone, PartialEq, Eq)]
pub struct VaaBody {
    pub timestamp: u32,
    pub nonce: u32,
    pub emitter_chain: CooChain,
    pub emitter_address: [u8; 32],
    pub sequence: u64,
    pub consistency_level: u8,
    pub payload: Vec<u8>,
}

/// A parsed VAA.
#[derive(Debug, Clone, PartialEq, Eq)]
pub struct Vaa {
    pub header: VaaHeader,
    pub body: VaaBody,
}

/// What checking a VAA's signatures takes beside the VAA: the two digests of
/// its body, and the keys of the guardian set that signed.
#[derive(Debug, Clone, PartialEq, Eq, PartialOrd, Ord, Hash)]
pub struct CooVaaAugment {
    digest: [[u8; 32]; 2],
    guardians_set: Vec<[u8; 32]>,
}

impl CooVaaAugment {
    /// The digests, as a mathematical value.
    pub closed spec fn spec_digest(&self) -> [[u8; 32]; 2] {
        self.digest
    }

    /// The guardians' keys, as a mathematical value.
    pub closed spec fn spec_guardians_set(&self) -> Seq<[u8; 32]> {
        self.guardians_set@
    }

    /// Puts digests and guardian keys together.
    pub fn new(digest: [[u8; 32]; 2], guardians_set: Vec<[u8; 32]>) -> (augment: CooVaaAugment)
        ensures
            augment.spec_digest() == digest,
            augment.spec_guardians_set() == guardians_set@,
    {
        CooVaaAugment { digest, guardians_set }
    }

    /// The digest of the body, and the digest of that digest.
    pub fn digest(&self) -> (digest: &[[u8; 32]; 2])
        ensures
            *digest == self.spec_digest(),
    {
        &self.digest
    }

    /// The keys of the guardian set.
    pub fn guardians_set(&self) -> (keys: &Vec<[u8; 32]>)
        ensures
            keys@ == self.spec_guardians_set(),
    {
        &self.guardians_set
    }
}

/// A signature as a mathematical value.
pub struct SignatureModel {
    pub index: u8,
    pub signature: Seq<u8>,
}

/// A VAA as a mathematical value.
pub struct VaaModel {
    pub version: u8,
    pub guardian_set_index: u32,
    pub signatures: Seq<SignatureModel>,
    pub timestamp: u32,
    pub nonce: u32,
    pub emitter_chain: u16,
    pub emitter_address: Seq<u8>,
    pub sequence: u64,
    pub consistency_level: u8,
    pub payload: Seq<u8>,
}

impl View for Signature {
    type V = SignatureModel;

    open spec fn view(&self) -> SignatureModel {
        SignatureModel { index: self.index, signature: self.signature@ }
    }
}

impl View for Vaa {
    type V = VaaModel;

    open spec fn view(&self) -> VaaModel {
        VaaModel {
            version: self.header.version,
            guardian_set_index: self.header.guardian_set_index,
            signatures: Seq::new(
                self.header.signatures@.len(),
                |k: int| self.header.signatures@[k]@,
            ),
            timestamp: self.body.timestamp,
            nonce: self.body.nonce,
            emitter_chain: self.body.emitter_chain.spec_id(),
            emitter_address: self.body.emitter_address@,
            sequence: self.body.sequence,
            consistency_level: self.body.consistency_level,
            payload: self.body.payload@,
        }
    }
}

/// Where the signature entry number `k` starts.
pub open spec fn signature_start(k: int) -> int {
    HEADER_LEN as int + SIGNATURE_LEN as int * k
}

/// Where the body starts: behind as many signature entries as the header announces.
pub open spec fn body_start(bytes: Seq<u8>) -> int {
    signature_start(bytes[5] as int)
}

/// The signature entry number `k` of a buffer.
pub open spec fn signature_at(bytes: Seq<u8>, k: int) -> SignatureModel {
    SignatureModel {
        index: bytes[signature_start(k)],
        signature: bytes.subrange(signature_start(k) + 1, signature_start(k + 1)),
    }
}

/// The VAA that a buffer of sufficient length holds.
pub open spec fn vaa_fields(bytes: Seq<u8>) -> VaaModel {
    let body = body_start(bytes);
    VaaModel {
        version: bytes[0],
        guardian_set_index: be_u32(bytes, 1) as u32,
        signatures: Seq::new(bytes[5] as nat, |k: int| signature_at(bytes, k)),
        timestamp: be_u32(bytes, body) as u32,
        nonce: be_u32(bytes, body + 4) as u32,
        emitter_chain: be_u16(bytes, body + 8) as u16,
        emitter_address: bytes.subrange(body + 10, body + 42),
        sequence: be_u64(bytes, body + 42) as u64,
        consistency_level: bytes[body + 50],
        payload: bytes.subrange(body + BODY_LEN as int, bytes.len() as int),
    }
}

/// What parsing a buffer gives. A buffer that ends inside the header is
/// truncated, whatever its first byte; then the version decides; then the
/// announced signatures and the fixed part of the body must fit. What follows
/// the fixed part is the payload, which may be empty.
pub open spec fn vaa_parsing(bytes: Seq<u8>) -> Result<VaaModel, CooError> {
    if bytes.len() < HEADER_LEN {
        Err(CooError::TruncatedVaa)
    } else if bytes[0] != VAA_VERSION {
        Err(CooError::MalformedVaa)
    } else if bytes.len() < body_start(bytes) + BODY_LEN {
        Err(CooError::TruncatedVaa)
    } else {
        Ok(vaa_fields(bytes))
    }
}

/// Parses a VAA from its wire format.
pub fn parse_vaa(vaa_bytes: &[u8]) -> (r: Result<Vaa, CooError>)
    ensures
        match r {
            Ok(vaa) => vaa_parsing(vaa_bytes@) == Ok::<VaaModel, CooError>(vaa@),
            Err(e) => vaa_parsing(vaa_bytes@) == Err::<VaaModel, CooError>(e),
        },
        vaa_bytes@.len() < HEADER_LEN ==> r == Err::<Vaa, CooError>(CooError::TruncatedVaa),
{
    let len = vaa_bytes.len();
    if len < HEADER_LEN {
        return Err(CooError::TruncatedVaa);
    }
    let version = vaa_bytes[0];
    if version != VAA_VERSION {
        return Err(CooError::MalformedVaa);
    }
    let guardian_set_index = read_u32(vaa_bytes, 1);
    let count: usize = vaa_bytes[5] as usize;
    let body: usize = HEADER_LEN + SIGNATURE_LEN * count;
    if len < body || len - body < BODY_LEN {
        return Err(CooError::TruncatedVaa);
    }
    let mut signatures: Vec<Signature> = Vec::new();
    let mut k: usize = 0;
    while k < count
        invariant
            k <= count,
            count == vaa_bytes@[5],
            body == signature_start(count as int),
            body + BODY_LEN <= vaa_bytes@.len() <= usize::MAX,
            signatures@.len() == k,
            forall|j: int| 0 <= j < k ==> (#[trigger] signatures@[j])@ == signature_at(vaa_bytes@, j),
        decreases count - k,
    {
        let start: usize = HEADER_LEN + SIGNATURE_LEN * k;
        let entry = Signature {
            index: vaa_bytes[start],
            signature: read_array::<65>(vaa_bytes, start + 1),
        };
        signatures.push(entry);
        k = k + 1;
    }
    let vaa = Vaa {
        header: VaaHeader { version, guardian_set_index, signatures },
        body: VaaBody {
            timestamp: read_u32(vaa_bytes, body),
            nonce: read_u32(vaa_bytes, body + 4),
            emitter_chain: CooChain::Inner(read_u16(vaa_bytes, body + 8)),
            emitter_address: read_array::<32>(vaa_bytes, body + 10),
            sequence: read_u64(vaa_bytes, body + 42),
            consistency_level: vaa_bytes[body + 50],
            payload: read_bytes(vaa_bytes, body + BODY_LEN, len),
        },
    };
    proof {
        assert(vaa@.signatures =~= vaa_fields(vaa_bytes@).signatures);
        assert(vaa@ == vaa_fields(vaa_bytes@));
    }
    Ok(vaa)
}

/// Decodes a VAA's payload as a message of the token bridge.
pub fn decode_wormhole_token(vaa: &Vaa) -> (r: Result<TokenMessage, CooError>)
    ensures
        match r {
            Ok(m) => token_message_decoding(vaa@.payload) == Ok::<TokenMessageModel, CooError>(m@),
            Err(e) => token_message_decoding(vaa@.payload) == Err::<TokenMessageModel, CooError>(e),
        },
{
    decode_token_message(vaa.body.payload.as_slice())
}

/// Decodes a VAA's payload as a message of the NFT bridge.
pub fn decode_wormhole_nft(vaa: &Vaa) -> (r: Result<NftMessage, CooError>)
    ensures
        match r {
            Ok(m) => nft_message_decoding(vaa@.payload) == Ok::<NftMessageModel, CooError>(m@),
            Err(e) => nft_message_decoding(vaa@.payload) == Err::<NftMessageModel, CooError>(e),
        },
{
    decode_nft_message(vaa.body.payload.as_slice())
}

/// The kind that a VAA's payload is decoded as on a request: the kind that the
/// request names, or, for `SmartInfer`, the kind that the emitter and the
/// payload's leading byte tell.
pub open spec fn requested_kind(vaa: VaaModel, requested: PayloadType) -> Result<PayloadKind, CooError> {
    match requested.spec_kind() {
        Some(kind) => Ok(kind),
        None => classification(deployments(), vaa.emitter_chain, vaa.emitter_address, vaa.payload),
    }
}

/// What decoding a VAA's payload on a request gives.
pub open spec fn vaa_payload_decoding(vaa: VaaModel, requested: PayloadType) -> Result<PayloadModel, CooError> {
    match requested_kind(vaa, requested) {
        Ok(kind) => payload_decoding(vaa.payload, kind),
        Err(e) => Err(e),
    }
}

/// Tells the kind of a VAA's payload from the VAA's emitter.
pub fn classify_vaa(vaa: &Vaa) -> (r: Result<PayloadKind, CooError>)
    ensures
        r == classification(deployments(), vaa@.emitter_chain, vaa@.emitter_address, vaa@.payload),
{
    classify(vaa.body.emitter_chain, &vaa.body.emitter_address, vaa.body.payload.as_slice())
}

/// Decodes a VAA's payload as requested: as the kind that the request names,
/// or, for `SmartInfer`, as the kind that classification tells.
pub fn decode_vaa_payload(vaa: &Vaa, requested: PayloadType) -> (r: Result<PayloadResponse, CooError>)
    ensures
        match r {
            Ok(m) => vaa_payload_decoding(vaa@, requested) == Ok::<PayloadModel, CooError>(m@),
            Err(e) => vaa_payload_decoding(vaa@, requested) == Err::<PayloadModel, CooError>(e),
        },
{
    let kind = match requested.kind() {
        Some(kind) => kind,
        None => match classify_vaa(vaa) {
            Ok(kind) => kind,
            Err(e) => {
                return Err(e);
            },
        },
    };
    decode_payload(vaa.body.payload.as_slice(), kind)
}

} // verus!
