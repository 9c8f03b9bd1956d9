//! Emitters: the contracts whose messages a VAA attests to, and the table of
//! the bridge contracts that are known on each chain.

use vstd::prelude::*;
use vstd::string::StrSliceExecFns;
use vstd::string::StringExecFns;
use crate::chain::CooChain;
use crate::codec::{
    bytestoplainhex, hex_bytes, hex_lower, hex_payload, hextobytes, is_hex_text, lemma_hex_round_trip,
};
use crate::error::CooError;
use crate::text::same_text;

verus! {

/// Length of a contract address as the chains that are listed here use it.
pub const CONTRACT_LEN: usize = 20;

/// Length of an emitter address on the wire.
pub const ADDRESS_LEN: usize = 32;

/// The protocol contracts that are deployed once per chain.
#[derive(Debug, Clone, Copy, PartialEq, Eq, PartialOrd, Ord, Hash, Structural)]
pub enum Bridge {
    Core,
    Token,
    Nft,
}

/// How a caller names an emitter: by the role of a known contract, or by its
/// address. `Unset` names none, and no operation accepts it.
#[derive(Debug, Clone, Copy, PartialEq, Eq, PartialOrd, Ord, Hash)]
pub enum EmitterType {
    Unset,
    CoreBridge,
    TokenBridge,
    NftBridge,
    Address([u8; 32]),
}

impl EmitterType {
    /// The bridge that a role names; `None` for `Unset` and for an address.
    pub open spec fn spec_bridge(self) -> Option<Bridge> {
        match self {
            EmitterType::CoreBridge => Some(Bridge::Core),
            EmitterType::TokenBridge => Some(Bridge::Token),
            EmitterType::NftBridge => Some(Bridge::Nft),
            _ => None,
        }
    }

    /// The bridge that a role names; `None` for `Unset` and for an address.
    #[verifier::when_used_as_spec(spec_bridge)]
    pub fn bridge(self) -> (bridge: Option<Bridge>)
        ensures
            bridge == self.spec_bridge(),
    {
        match self {
            EmitterType::CoreBridge => Some(Bridge::Core),
            EmitterType::TokenBridge => Some(Bridge::Token),
            EmitterType::NftBridge => Some(Bridge::Nft),
            _ => None,
        }
    }
}

/// Whether a text names an emitter: it is empty, one of the words `core`,
/// `token` and `nft`, or hexadecimal, with or without `0x`, of at most 32 bytes.
pub open spec fn is_emitter_text(text: Seq<char>) -> bool {
    ||| text == Seq::<char>::empty()
    ||| text == seq!['c', 'o', 'r', 'e']
    ||| text == seq!['t', 'o', 'k', 'e', 'n']
    ||| text == seq!['n', 'f', 't']
    ||| is_hex_text(hex_payload(text)) && hex_bytes(hex_payload(text)).len() <= ADDRESS_LEN
}

/// Whether `emitter` is what a text names: the empty text names `Unset`, the
/// three words name the bridges, and hexadecimal names the address that holds its
/// bytes at the right end, behind zero bytes.
pub open spec fn names_emitter(text: Seq<char>, emitter: EmitterType) -> bool {
    if text == Seq::<char>::empty() {
        emitter is Unset
    } else if text == seq!['c', 'o', 'r', 'e'] {
        emitter is CoreBridge
    } else if text == seq!['t', 'o', 'k', 'e', 'n'] {
        emitter is TokenBridge
    } else if text == seq!['n', 'f', 't'] {
        emitter is NftBridge
    } else {
        emitter matches EmitterType::Address(bytes) && bytes@ == left_padded(hex_bytes(hex_payload(text)))
    }
}

/// The word or digits that stand for an emitter; `None` for `Unset`.
pub open spec fn emitter_label(emitter: EmitterType) -> Option<Seq<char>> {
    match emitter {
        EmitterType::Unset => None,
        EmitterType::CoreBridge => Some(seq!['c', 'o', 'r', 'e']),
        EmitterType::TokenBridge => Some(seq!['t', 'o', 'k', 'e', 'n']),
        EmitterType::NftBridge => Some(seq!['n', 'f', 't']),
        EmitterType::Address(bytes) => Some(hex_lower(bytes@)),
    }
}

/// The word or digits that stand for an emitter name that emitter when they
/// are read.
pub proof fn lemma_label_names_emitter(emitter: EmitterType)
    requires
        !(emitter is Unset),
    ensures
        is_emitter_text(emitter_label(emitter).unwrap()),
        names_emitter(emitter_label(emitter).unwrap(), emitter),
{
    let text = emitter_label(emitter).unwrap();
    match emitter {
        EmitterType::Address(bytes) => {
            lemma_hex_round_trip(bytes@);
            assert(text.len() == 64);
            assert(left_padded(bytes@) =~= bytes@);
        },
        _ => {
            assert(text.len() != 0);
            assert(seq!['c', 'o', 'r', 'e'].len() == 4);
            assert(seq!['t', 'o', 'k', 'e', 'n'].len() == 5);
            assert(seq!['n', 'f', 't'].len() == 3);
        },
    }
}

impl EmitterType {
    /// Reads an emitter from what a person wrote.
    pub fn parse(s: &str) -> (r: Result<EmitterType, CooError>)
        ensures
            r is Ok <==> is_emitter_text(s@),
            r is Ok ==> names_emitter(s@, r->Ok_0),
            r is Err ==> r->Err_0 == CooError::HexDecodeError,
    {
        proof {
            reveal_strlit("");
            reveal_strlit("core");
            reveal_strlit("token");
            reveal_strlit("nft");
            assert(""@ =~= Seq::<char>::empty());
            assert("core"@ =~= seq!['c', 'o', 'r', 'e']);
            assert("token"@ =~= seq!['t', 'o', 'k', 'e', 'n']);
            assert("nft"@ =~= seq!['n', 'f', 't']);
        }
        if same_text(s, "") {
            Ok(EmitterType::Unset)
        } else if same_text(s, "core") {
            Ok(EmitterType::CoreBridge)
        } else if same_text(s, "token") {
            Ok(EmitterType::TokenBridge)
        } else if same_text(s, "nft") {
            Ok(EmitterType::NftBridge)
        } else {
            let decoded = hextobytes(s)?;
            let n = decoded.len();
            if n > ADDRESS_LEN {
                return Err(CooError::HexDecodeError);
            }
            let pad: usize = ADDRESS_LEN - n;
            let mut address = [0u8; 32];
            let mut i: usize = 0;
            while i < n
                invariant
                    i <= n,
                    n == decoded@.len(),
                    pad + n == ADDRESS_LEN,
                    forall|k: int| 0 <= k < pad ==> address@[k] == 0,
                    forall|k: int| 0 <= k < i ==> address@[pad + k] == decoded@[k],
                decreases n - i,
            {
                address[pad + i] = decoded[i];
                i = i + 1;
            }
            assert(address@ =~= left_padded(decoded@));
            Ok(EmitterType::Address(address))
        }
    }

    /// The word or digits that stand for the emitter. `Unset` has none.
    pub fn label(&self) -> (r: Result<String, CooError>)
        ensures
            match r {
                Ok(text) => emitter_label(*self) == Some(text@),
                Err(e) => e == CooError::UnknownEmitter && *self is Unset,
            },
    {
        proof {
            reveal_strlit("core");
            reveal_strlit("token");
            reveal_strlit("nft");
            assert("core"@ =~= seq!['c', 'o', 'r', 'e']);
            assert("token"@ =~= seq!['t', 'o', 'k', 'e', 'n']);
            assert("nft"@ =~= seq!['n', 'f', 't']);
        }
        match self {
            EmitterType::Unset => Err(CooError::UnknownEmitter),
            EmitterType::CoreBridge => Ok(String::from_str("core")),
            EmitterType::TokenBridge => Ok(String::from_str("token")),
            EmitterType::NftBridge => Ok(String::from_str("nft")),
            EmitterType::Address(bytes) => Ok(bytestoplainhex(bytes.as_slice())),
        }
    }
}

/// One known contract: which bridge it is, on which chain, at which address.
#[derive(Debug, Clone, Copy, PartialEq, Eq)]
pub struct Deployment {
    pub chain: CooChain,
    pub bridge: Bridge,
    pub address: [u8; 20],
}

/// A deployment as a mathematical value.
pub struct DeploymentModel {
    pub chain: u16,
    pub bridge: Bridge,
    pub address: Seq<u8>,
}

impl View for Deployment {
    type V = DeploymentModel;

    open spec fn view(&self) -> DeploymentModel {
        DeploymentModel { chain: self.chain.spec_id(), bridge: self.bridge, address: self.address@ }
    }
}

/// The deployments that a table lists, in its order.
pub open spec fn table_model(table: Seq<Deployment>) -> Seq<DeploymentModel> {
    Seq::new(table.len(), |i: int| table[i]@)
}

/// An address in the form the network uses: zero bytes in front, up to 32 bytes.
pub open spec fn left_padded(address: Seq<u8>) -> Seq<u8> {
    Seq::new((ADDRESS_LEN - address.len()) as nat, |i: int| 0u8) + address
}

/// The address of the first entry of a table for a bridge on a chain.
pub open spec fn address_in(table: Seq<DeploymentModel>, chain: u16, bridge: Bridge) -> Option<Seq<u8>>
    decreases table.len(),
{
    if table.len() == 0 {
        None
    } else if table[0].chain == chain && table[0].bridge == bridge {
        Some(table[0].address)
    } else {
        address_in(table.skip(1), chain, bridge)
    }
}

/// The bridge of the first entry of a table whose chain is `chain` and whose
/// address, padded to 32 bytes, is `address`.
pub open spec fn bridge_in(table: Seq<DeploymentModel>, chain: u16, address: Seq<u8>) -> Option<Bridge>
    decreases table.len(),
{
    if table.len() == 0 {
        None
    } else if table[0].chain == chain && left_padded(table[0].address) == address {
        Some(table[0].bridge)
    } else {
        bridge_in(table.skip(1), chain, address)
    }
}

/// The known deployments.
pub open spec fn deployments() -> Seq<DeploymentModel> {
    seq![
        DeploymentModel {
            chain: 2,
            bridge: Bridge::Core,
            address: seq![
                0x98u8, 0xf3, 0xc9, 0xe6, 0xe3, 0xfa, 0xce, 0x36, 0xba, 0xad,
                0x05, 0xfe, 0x09, 0xd3, 0x75, 0xef, 0x14, 0x64, 0x28, 0x8b,
            ],
        },
        DeploymentModel {
            chain: 2,
            bridge: Bridge::Token,
            address: seq![
                0x3eu8, 0xe1, 0x8b, 0x22, 0x14, 0xaf, 0xf9, 0x70, 0x00, 0xd9,
                0x74, 0xcf, 0x64, 0x7e, 0x7c, 0x34, 0x7e, 0x8f, 0xa5, 0x85,
            ],
        },
        DeploymentModel {
            chain: 2,
            bridge: Bridge::Nft,
            address: seq![
                0x6fu8, 0xfd, 0x7e, 0xde, 0x62, 0x32, 0x8b, 0x3a, 0xf3, 0x8f,
                0xcd, 0x61, 0x46, 0x1b, 0xbf, 0xc5, 0x2f, 0x56, 0x51, 0xfe,
            ],
        },
        DeploymentModel {
            chain: 6,
            bridge: Bridge::Core,
            address: seq![
                0x54u8, 0xa8, 0xe5, 0xf9, 0xc4, 0xcb, 0xa0, 0x8f, 0x99, 0x43,
                0x96, 0x58, 0x59, 0xf6, 0xc3, 0x4e, 0xaf, 0x03, 0xe2, 0x6c,
            ],
        },
        DeploymentModel {
            chain: 6,
            bridge: Bridge::Token,
            address: seq![
                0x0eu8, 0x08, 0x2f, 0x06, 0xff, 0x65, 0x7d, 0x94, 0x31, 0x0c,
                0xb8, 0xce, 0x8b, 0x0d, 0x9a, 0x04, 0x54, 0x1d, 0x80, 0x52,
            ],
        },
        DeploymentModel {
            chain: 6,
            bridge: Bridge::Nft,
            address: seq![
                0xf7u8, 0xb6, 0x73, 0x7c, 0xa9, 0xc4, 0xe0, 0x8a, 0xe5, 0x73,
                0xf7, 0x5a, 0x97, 0xb7, 0x3d, 0x7a, 0x81, 0x3f, 0x5d, 0xe5,
            ],
        },
    ]
}

/// The table of the known deployments.
pub fn known_deployments() -> (table: Vec<Deployment>)
    ensures
        table_model(table@) == deployments(),
{
    let mut table: Vec<Deployment> = Vec::new();
    table.push(Deployment {
        chain: CooChain::Inner(2),
        bridge: Bridge::Core,
        address: [
            0x98, 0xf3, 0xc9, 0xe6, 0xe3, 0xfa, 0xce, 0x36, 0xba, 0xad,
            0x05, 0xfe, 0x09, 0xd3, 0x75, 0xef, 0x14, 0x64, 0x28, 0x8b,
        ],
    });
    table.push(Deployment {
        chain: CooChain::Inner(2),
        bridge: Bridge::Token,
        address: [
            0x3e, 0xe1, 0x8b, 0x22, 0x14, 0xaf, 0xf9, 0x70, 0x00, 0xd9,
            0x74, 0xcf, 0x64, 0x7e, 0x7c, 0x34, 0x7e, 0x8f, 0xa5, 0x85,
        ],
    });
    table.push(Deployment {
        chain: CooChain::Inner(2),
        bridge: Bridge::Nft,
        address: [
            0x6f, 0xfd, 0x7e, 0xde, 0x62, 0x32, 0x8b, 0x3a, 0xf3, 0x8f,
            0xcd, 0x61, 0x46, 0x1b, 0xbf, 0xc5, 0x2f, 0x56, 0x51, 0xfe,
        ],
    });
    table.push(Deployment {
        chain: CooChain::Inner(6),
        bridge: Bridge::Core,
        address: [
            0x54, 0xa8, 0xe5, 0xf9, 0xc4, 0xcb, 0xa0, 0x8f, 0x99, 0x43,
            0x96, 0x58, 0x59, 0xf6, 0xc3, 0x4e, 0xaf, 0x03, 0xe2, 0x6c,
        ],
    });
    table.push(Deployment {
        chain: CooChain::Inner(6),
        bridge: Bridge::Token,
        address: [
            0x0e, 0x08, 0x2f, 0x06, 0xff, 0x65, 0x7d, 0x94, 0x31, 0x0c,
            0xb8, 0xce, 0x8b, 0x0d, 0x9a, 0x04, 0x54, 0x1d, 0x80, 0x52,
        ],
    });
    table.push(Deployment {
        chain: CooChain::Inner(6),
        bridge: Bridge::Nft,
        address: [
            0xf7, 0xb6, 0x73, 0x7c, 0xa9, 0xc4, 0xe0, 0x8a, 0xe5, 0x73,
            0xf7, 0x5a, 0x97, 0xb7, 0x3d, 0x7a, 0x81, 0x3f, 0x5d, 0xe5,
        ],
    });
    proof {
        let model = table_model(table@);
        assert(model.len() == 6);
        assert(model[0].address =~= deployments()[0].address);
        assert(model[1].address =~= deployments()[1].address);
        assert(model[2].address =~= deployments()[2].address);
        assert(model[3].address =~= deployments()[3].address);
        assert(model[4].address =~= deployments()[4].address);
        assert(model[5].address =~= deployments()[5].address);
        assert(model =~= deployments());
    }
    table
}

/// Looks a bridge's contract up in a table: the address of the first entry for
/// that bridge on that chain.
pub fn lookup_address(table: &[Deployment], chain: CooChain, bridge: Bridge) -> (found: Option<[u8; 20]>)
    ensures
        match found {
            Some(address) => address_in(table_model(table@), chain.spec_id(), bridge) == Some(address@),
            None => address_in(table_model(table@), chain.spec_id(), bridge) is None,
        },
{
    let mut i: usize = 0;
    assert(table_model(table@).skip(0) =~= table_model(table@));
    while i < table.len()
        invariant
            i <= table@.len(),
            address_in(table_model(table@), chain.spec_id(), bridge) == address_in(
                table_model(table@).skip(i as int),
                chain.spec_id(),
                bridge,
            ),
        decreases table@.len() - i,
    {
        let entry = &table[i];
        if entry.chain.id() == chain.id() && entry.bridge == bridge {
            return Some(entry.address);
        }
        proof {
            let rest = table_model(table@).skip(i as int);
            assert(rest[0] == table@[i as int]@);
            assert(rest.skip(1) =~= table_model(table@).skip(i + 1));
        }
        i = i + 1;
    }
    None
}

/// Whether a 32-byte address is a 20-byte contract address behind twelve zero bytes.
fn is_padded(address: &[u8; 32], contract: &[u8; 20]) -> (same: bool)
    ensures
        same == (left_padded(contract@) == address@),
{
    let mut i: usize = 0;
    while i < 32
        invariant
            i <= 32,
            forall|k: int| 0 <= k < i ==> left_padded(contract@)[k] == address@[k],
        decreases 32 - i,
    {
        let expected: u8 = if i < 12 { 0 } else { contract[i - 12] };
        if address[i] != expected {
            return false;
        }
        i = i + 1;
    }
    assert(left_padded(contract@) =~= address@);
    true
}

/// Looks an emitter up in a table: the bridge of the first entry on that chain
/// whose padded address is the emitter's.
pub fn lookup_bridge(table: &[Deployment], chain: CooChain, address: &[u8; 32]) -> (found: Option<Bridge>)
    ensures
        found == bridge_in(table_model(table@), chain.spec_id(), address@),
{
    let mut i: usize = 0;
    assert(table_model(table@).skip(0) =~= table_model(table@));
    while i < table.len()
        invariant
            i <= table@.len(),
            bridge_in(table_model(table@), chain.spec_id(), address@) == bridge_in(
                table_model(table@).skip(i as int),
                chain.spec_id(),
                address@,
            ),
        decreases table@.len() - i,
    {
        let entry = &table[i];
        proof {
            let rest = table_model(table@).skip(i as int);
            assert(rest[0] == table@[i as int]@);
            assert(rest.skip(1) =~= table_model(table@).skip(i + 1));
        }
        if entry.chain.id() == chain.id() && is_padded(address, &entry.address) {
            return Some(entry.bridge);
        }
        i = i + 1;
    }
    None
}

/// The text of a contract address in the network's form: 24 zeros, then the 40
/// lowercase hexadecimal digits of the address.
pub open spec fn padded_text(contract: Seq<u8>) -> Seq<char> {
    Seq::new(24, |i: int| '0') + hex_lower(contract)
}

/// What resolving an emitter gives, over a table of deployments: for a bridge the
/// padded text of its contract on that chain, for an address its 64 digits, and
/// `None` where the role is unset or the table has no such contract.
pub open spec fn resolved_text(table: Seq<DeploymentModel>, chain: u16, emitter: EmitterType) -> Option<Seq<char>> {
    match emitter {
        EmitterType::Unset => None,
        EmitterType::Address(bytes) => Some(hex_lower(bytes@)),
        _ => match address_in(table, chain, emitter.spec_bridge().unwrap()) {
            Some(contract) => Some(padded_text(contract)),
            None => None,
        },
    }
}

/// The emitter's address as the 64 hexadecimal digits that queries and cache
/// names use, with the contracts of `table` standing for the bridge roles.
pub fn resolve_emitter_address_in(table: &[Deployment], chain: CooChain, emitter: EmitterType) -> (r: Result<String, CooError>)
    ensures
        match r {
            Ok(text) => resolved_text(table_model(table@), chain.spec_id(), emitter) == Some(text@),
            Err(e) => e == CooError::UnknownEmitter
                && resolved_text(table_model(table@), chain.spec_id(), emitter) is None,
        },
{
    match emitter {
        EmitterType::Unset => Err(CooError::UnknownEmitter),
        EmitterType::Address(bytes) => Ok(bytestoplainhex(bytes.as_slice())),
        _ => {
            let bridge = emitter.bridge().unwrap();
            match lookup_address(table, chain, bridge) {
                Some(contract) => {
                    let digits = bytestoplainhex(contract.as_slice());
                    proof {
                        reveal_strlit("000000000000000000000000");
                        assert("000000000000000000000000"@ =~= Seq::new(24, |i: int| '0'));
                    }
                    Ok(String::from_str("000000000000000000000000").concat(digits.as_str()))
                },
                None => Err(CooError::UnknownEmitter),
            }
        },
    }
}

/// The emitter's address as the 64 hexadecimal digits that queries and cache
/// names use. A bridge role stands for the known contract of that bridge on the
/// chain; an address stands for itself, on every chain.
pub fn resolve_emitter_address(chain: CooChain, emitter: EmitterType) -> (r: Result<String, CooError>)
    ensures
        match r {
            Ok(text) => resolved_text(deployments(), chain.spec_id(), emitter) == Some(text@),
            Err(e) => e == CooError::UnknownEmitter
                && resolved_text(deployments(), chain.spec_id(), emitter) is None,
        },
        emitter is Unset ==> r is Err,
        emitter matches EmitterType::Address(bytes) ==> r is Ok && r->Ok_0@ == hex_lower(bytes@),
        emitter.spec_bridge() matches Some(bridge) ==> match r {
            Ok(text) => address_in(deployments(), chain.spec_id(), bridge) matches Some(contract)
                && text@.len() == 64
                && (forall|i: int| 0 <= i < 24 ==> text@[i] == '0')
                && text@.subrange(24, 64) == hex_lower(contract)
                && (forall|i: int| 0 <= i < 64 ==> is_lower_hex_digit(#[trigger] text@[i])),
            Err(_) => address_in(deployments(), chain.spec_id(), bridge) is None,
        },
{
    let table = known_deployments();
    proof {
        if emitter.spec_bridge() is Some && address_in(
            deployments(),
            chain.spec_id(),
            emitter.spec_bridge().unwrap(),
        ) is Some {
            lemma_resolved_bridge_text(chain.spec_id(), emitter);
        }
    }
    resolve_emitter_address_in(table.as_slice(), chain, emitter)
}

/// Whether a character is a decimal digit or one of the letters `a` to `f`.
pub open spec fn is_lower_hex_digit(c: char) -> bool {
    '0' <= c <= '9' || 'a' <= c <= 'f'
}

/// An address that a lookup finds is the address of an entry of the table, for
/// that chain and that bridge.
pub proof fn lemma_address_in_listed(table: Seq<DeploymentModel>, chain: u16, bridge: Bridge)
    ensures
        address_in(table, chain, bridge) matches Some(address) ==> exists|i: int|
            0 <= i < table.len() && table[i].chain == chain && table[i].bridge == bridge
                && #[trigger] table[i].address == address,
    decreases table.len(),
{
    if table.len() > 0 && !(table[0].chain == chain && table[0].bridge == bridge) {
        lemma_address_in_listed(table.skip(1), chain, bridge);
        if let Some(address) = address_in(table, chain, bridge) {
            let i = choose|i: int|
                0 <= i < table.skip(1).len() && table.skip(1)[i].chain == chain && table.skip(1)[i].bridge
                    == bridge && #[trigger] table.skip(1)[i].address == address;
            assert(table[i + 1].address == address);
        }
    }
}

/// Every known contract has an address of 20 bytes.
pub proof fn lemma_deployments_contract_len(i: int)
    requires
        0 <= i < deployments().len(),
    ensures
        deployments()[i].address.len() == CONTRACT_LEN,
{
}

/// For every bridge that is known on a chain, the emitter resolves to 64
/// lowercase hexadecimal digits: 24 zeros, then the 40 digits of the contract's
/// 20-byte address.
pub proof fn lemma_resolved_bridge_text(chain: u16, emitter: EmitterType)
    requires
        emitter.spec_bridge() is Some,
        address_in(deployments(), chain, emitter.spec_bridge().unwrap()) is Some,
    ensures
        resolved_text(deployments(), chain, emitter) is Some,
        ({
            let text = resolved_text(deployments(), chain, emitter).unwrap();
            let contract = address_in(deployments(), chain, emitter.spec_bridge().unwrap()).unwrap();
            &&& contract.len() == CONTRACT_LEN
            &&& text.len() == 64
            &&& forall|i: int| 0 <= i < 24 ==> text[i] == '0'
            &&& text.subrange(24, 64) == hex_lower(contract)
            &&& forall|i: int| 0 <= i < 64 ==> is_lower_hex_digit(#[trigger] text[i])
        }),
{
    let bridge = emitter.spec_bridge().unwrap();
    let contract = address_in(deployments(), chain, bridge).unwrap();
    lemma_address_in_listed(deployments(), chain, bridge);
    let i = choose|i: int|
        0 <= i < deployments().len() && deployments()[i].chain == chain && deployments()[i].bridge
            == bridge && #[trigger] deployments()[i].address == contract;
    lemma_deployments_contract_len(i);
    let text = padded_text(contract);
    assert(text.subrange(24, 64) =~= hex_lower(contract));
}

} // verus!
