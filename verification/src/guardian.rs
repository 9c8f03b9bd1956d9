//! Asking a guardian for a signed VAA: where to ask, and how to read the answer.

use vstd::prelude::*;
use vstd::string::StrSliceExecFns;
use vstd::string::StringExecFns;
use crate::chain::CooChain;
use crate::codec::{base64_decoding, base64tobytes};
use crate::emitter::{deployments, resolve_emitter_address, resolved_text, EmitterType};
use crate::error::CooError;
use crate::text::{decimal, decimal_text, decimal_value, lemma_decimal_round_trip, parse_decimal};

verus! {

/// The guardian that is asked where the caller names none.
pub const GUARDIAN_URL: &'static str = "https://wormhole-v2-mainnet-api.certus.one/";

/// The path under which a guardian serves a signed VAA.
pub open spec fn query_path_text(chain: u16, emitter: Seq<char>, sequence: u64) -> Seq<char> {
    seq!['v', '1', '/', 's', 'i', 'g', 'n', 'e', 'd', '_', 'v', 'a', 'a', '/'] + decimal_text(chain as nat)
        + seq!['/'] + emitter + seq!['/'] + decimal_text(sequence as nat)
}

/// The name under which a VAA is kept on disk, without its extension.
pub open spec fn cache_stem_text(chain: u16, emitter: Seq<char>, sequence: u64) -> Seq<char> {
    decimal_text(chain as nat) + seq!['-'] + emitter + seq!['-'] + decimal_text(sequence as nat)
}

/// The name under which a VAA is kept on disk.
pub open spec fn cache_name_text(chain: u16, emitter: Seq<char>, sequence: u64) -> Seq<char> {
    cache_stem_text(chain, emitter, sequence) + seq!['.', 'v', 'a', 'a']
}

/// The path of the query for the VAA that an emitter on a chain published
/// under a sequence number: `v1/signed_vaa/`, then chain, emitter and sequence
/// number with `/` between them.
pub fn query_path(chain: CooChain, emitter: EmitterType, sequence: u64) -> (r: Result<String, CooError>)
    ensures
        match r {
            Ok(path) => resolved_text(deployments(), chain.spec_id(), emitter) matches Some(address)
                && path@ == query_path_text(chain.spec_id(), address, sequence),
            Err(e) => e == CooError::UnknownEmitter && resolved_text(deployments(), chain.spec_id(), emitter) is None,
        },
{
    let address = resolve_emitter_address(chain, emitter)?;
    proof {
        reveal_strlit("v1/signed_vaa/");
        reveal_strlit("/");
        assert("v1/signed_vaa/"@ =~= seq![
            'v',
            '1',
            '/',
            's',
            'i',
            'g',
            'n',
            'e',
            'd',
            '_',
            'v',
            'a',
            'a',
            '/',
        ]);
        assert("/"@ =~= seq!['/']);
    }
    let path = String::from_str("v1/signed_vaa/").concat(decimal(chain.id() as u64).as_str()).concat(
        "/",
    ).concat(address.as_str()).concat("/").concat(decimal(sequence).as_str());
    Ok(path)
}

/// The name of the file that keeps the VAA of an emitter on a chain under a
/// sequence number: chain, emitter and sequence number with `-` between them,
/// then `.vaa`.
pub fn cache_file_name(chain: CooChain, emitter: EmitterType, sequence: u64) -> (r: Result<String, CooError>)
    ensures
        match r {
            Ok(name) => resolved_text(deployments(), chain.spec_id(), emitter) matches Some(address)
                && name@ == cache_name_text(chain.spec_id(), address, sequence),
            Err(e) => e == CooError::UnknownEmitter && resolved_text(deployments(), chain.spec_id(), emitter) is None,
        },
{
    let address = resolve_emitter_address(chain, emitter)?;
    proof {
        reveal_strlit("-");
        reveal_strlit(".vaa");
        assert("-"@ =~= seq!['-']);
        assert(".vaa"@ =~= seq!['.', 'v', 'a', 'a']);
    }
    let name = decimal(chain.id() as u64).concat("-").concat(address.as_str()).concat("-").concat(
        decimal(sequence).as_str(),
    ).concat(".vaa");
    Ok(name)
}

/// What the name of a kept VAA says: the chain, the emitter and the sequence
/// number.
#[derive(Debug, Clone, PartialEq, Eq)]
pub struct CacheEntry {
    pub chain: CooChain,
    pub emitter: String,
    pub sequence: u64,
}

/// A cache entry as a mathematical value.
pub struct CacheEntryModel {
    pub chain: u16,
    pub emitter: Seq<char>,
    pub sequence: u64,
}

impl View for CacheEntry {
    type V = CacheEntryModel;

    open spec fn view(&self) -> CacheEntryModel {
        CacheEntryModel { chain: self.chain.spec_id(), emitter: self.emitter@, sequence: self.sequence }
    }
}

/// Where the first `-` at or behind `from` stands; the text's length where
/// there is none.
pub open spec fn dash_from(text: Seq<char>, from: int) -> int
    decreases text.len() - from,
{
    if from >= text.len() {
        text.len() as int
    } else if text[from] == '-' {
        from
    } else {
        dash_from(text, from + 1)
    }
}

/// What a name without its extension says. Its parts stand between `-`: the
/// first is the chain's number, the second the emitter, the third the sequence
/// number; further parts say nothing. `None` where a part is missing or a
/// number is none.
pub open spec fn cache_name_parsing(stem: Seq<char>) -> Option<CacheEntryModel> {
    let first = dash_from(stem, 0);
    let second = dash_from(stem, first + 1);
    let third = dash_from(stem, second + 1);
    if first >= stem.len() || second >= stem.len() {
        None
    } else {
        match (
            decimal_value(stem.subrange(0, first), u16::MAX as nat),
            decimal_value(stem.subrange(second + 1, third), u64::MAX as nat),
        ) {
            (Some(chain), Some(sequence)) => Some(
                CacheEntryModel {
                    chain: chain as u16,
                    emitter: stem.subrange(first + 1, second),
                    sequence: sequence as u64,
                },
            ),
            _ => None,
        }
    }
}

/// Where the next `-` stands, given that none stands before it.
pub proof fn lemma_dash_from(text: Seq<char>, from: int, to: int)
    requires
        0 <= from <= to <= text.len(),
        forall|i: int| from <= i < to ==> text[i] != '-',
        to < text.len() ==> text[to] == '-',
    ensures
        dash_from(text, from) == to,
    decreases to - from,
{
    if from < to {
        lemma_dash_from(text, from + 1, to);
    }
}

/// A name that was made for a chain, an emitter and a sequence number says
/// these three when it is read, as long as the emitter's text holds no `-`.
pub proof fn lemma_cache_name_round_trip(chain: u16, emitter: Seq<char>, sequence: u64)
    requires
        forall|i: int| 0 <= i < emitter.len() ==> emitter[i] != '-',
    ensures
        cache_name_parsing(cache_stem_text(chain, emitter, sequence)) == Some(
            CacheEntryModel { chain, emitter, sequence },
        ),
{
    let c = decimal_text(chain as nat);
    let s = decimal_text(sequence as nat);
    let stem = cache_stem_text(chain, emitter, sequence);
    lemma_decimal_round_trip(chain as nat, u16::MAX as nat);
    lemma_decimal_round_trip(sequence as nat, u64::MAX as nat);
    let first = c.len() as int;
    let second = first + 1 + emitter.len();
    let third = stem.len() as int;
    assert(third == second + 1 + s.len());
    assert forall|i: int| 0 <= i < first implies stem[i] != '-' by {
        assert(stem[i] == c[i]);
    }
    assert(stem[first] == '-');
    assert forall|i: int| first + 1 <= i < second implies stem[i] != '-' by {
        assert(stem[i] == emitter[i - first - 1]);
    }
    assert(stem[second] == '-');
    assert forall|i: int| second + 1 <= i < third implies stem[i] != '-' by {
        assert(stem[i] == s[i - second - 1]);
    }
    lemma_dash_from(stem, 0, first);
    lemma_dash_from(stem, first + 1, second);
    lemma_dash_from(stem, second + 1, third);
    assert(stem.subrange(0, first) =~= c);
    assert(stem.subrange(first + 1, second) =~= emitter);
    assert(stem.subrange(second + 1, third) =~= s);
}

/// Finds the first `-` at or behind `from`.
fn find_dash(text: &str, from: usize) -> (at: usize)
    requires
        from <= text@.len(),
    ensures
        at == dash_from(text@, from as int),
        from <= at <= text@.len(),
{
    let n = text.unicode_len();
    let mut at: usize = from;
    while at < n && text.get_char(at) != '-'
        invariant
            from <= at <= n,
            n == text@.len(),
            dash_from(text@, from as int) == dash_from(text@, at as int),
        decreases n - at,
    {
        at = at + 1;
    }
    at
}

/// Reads what the name of a kept VAA says, from the name without its extension.
pub fn parse_cache_name(stem: &str) -> (r: Option<CacheEntry>)
    ensures
        match r {
            Some(entry) => cache_name_parsing(stem@) == Some(entry@),
            None => cache_name_parsing(stem@) is None,
        },
{
    let n = stem.unicode_len();
    let first = find_dash(stem, 0);
    if first >= n {
        return None;
    }
    let second = find_dash(stem, first + 1);
    if second >= n {
        return None;
    }
    let third = find_dash(stem, second + 1);
    let chain = parse_decimal(stem.substring_char(0, first), 0xffff);
    let sequence = parse_decimal(stem.substring_char(second + 1, third), u64::MAX);
    match (chain, sequence) {
        (Some(chain), Some(sequence)) => Some(
            CacheEntry {
                chain: CooChain::Inner(chain as u16),
                emitter: String::from_str(stem.substring_char(first + 1, second)),
                sequence,
            },
        ),
        _ => None,
    }
}

/// The address that a reference gives when it is read relative to a base
/// address; `None` where the base is no address or the reference cannot be
/// joined to it.
pub uninterp spec fn url_joining(base: Seq<char>, path: Seq<char>) -> Option<Seq<char>>;

/// `Url::join`, on the address that `Url::parse` reads from `base`, with the
/// joined address handed back as its text: the outcome is a function of the two
/// texts alone, here called `url_joining`.
#[verifier::external_body]
fn url_join(base: &str, path: &str) -> (r: Option<String>)
    ensures
        match r {
            Some(text) => url_joining(base@, path@) == Some(text@),
            None => url_joining(base@, path@) is None,
        },
{
    match url::Url::parse(base) {
        Ok(address) => address.join(path).ok().map(String::from),
        Err(_) => None,
    }
}

/// What asking for a query address gives: an emitter that does not resolve
/// fails first; else the query path is joined to the guardian's address.
pub open spec fn query_url_text(chain: u16, emitter: EmitterType, sequence: u64, guardian_url: Seq<char>) -> Result<
    Seq<char>,
    CooError,
> {
    match resolved_text(deployments(), chain, emitter) {
        None => Err(CooError::UnknownEmitter),
        Some(address) => match url_joining(guardian_url, query_path_text(chain, address, sequence)) {
            Some(text) => Ok(text),
            None => Err(CooError::UrlError),
        },
    }
}

/// The address at which a guardian serves the VAA of an emitter on a chain
/// under a sequence number: the query path, joined to the guardian's address.
pub fn get_query_url(chain: CooChain, emitter: EmitterType, sequence: u64, guardian_url: &str) -> (r: Result<
    String,
    CooError,
>)
    ensures
        match r {
            Ok(text) => query_url_text(chain.spec_id(), emitter, sequence, guardian_url@) == Ok::<
                Seq<char>,
                CooError,
            >(text@),
            Err(e) => query_url_text(chain.spec_id(), emitter, sequence, guardian_url@) == Err::<
                Seq<char>,
                CooError,
            >(e),
        },
{
    let path = query_path(chain, emitter, sequence)?;
    match url_join(guardian_url, path.as_str()) {
        Some(text) => Ok(text),
        None => Err(CooError::UrlError),
    }
}

/// The member of a guardian's answer that carries the VAA, in base64.
pub const VAA_MEMBER: &'static str = "vaaBytes";

/// `serde_json::Error`, why a text is no JSON. It is carried as it is: nothing
/// is known of what it holds.
#[verifier::external_type_specification]
#[verifier::external_body]
pub struct ExJsonError(serde_json::Error);

/// What a JSON text holds under a name: `None` where the text is not JSON,
/// `Some(None)` where it is JSON without a text member of that name, and the
/// member's text else.
pub uninterp spec fn json_text_member(body: Seq<char>, name: Seq<char>) -> Option<Option<Seq<char>>>;

/// `serde_json::from_str` to a `Value`, of which `Value::get` picks the member
/// of the given name and `Value::as_str` its text: the outcome is a function of
/// the two texts alone, here called `json_text_member`.
#[verifier::external_body]
fn json_lookup(body: &str, name: &str) -> (r: Result<Option<String>, serde_json::Error>)
    ensures
        match r {
            Ok(Some(text)) => json_text_member(body@, name@) == Some(Some(text@)),
            Ok(None) => json_text_member(body@, name@) == Some(None::<Seq<char>>),
            Err(_) => json_text_member(body@, name@) is None,
        },
{
    let value: serde_json::Value = serde_json::from_str(body)?;
    Ok(value.get(name).and_then(serde_json::Value::as_str).map(String::from))
}

/// The VAA of an answer whose member was looked up: without the member the
/// answer is an error that keeps the whole answer; with it, the member's text is
/// read as base64.
pub fn vaa_bytes_of_member(member: Option<&str>, body: &str) -> (r: Result<Vec<u8>, CooError>)
    ensures
        match member {
            None => r matches Err(CooError::ProtocolResponseError(kept)) && kept@ == body@,
            Some(text) => match r {
                Ok(bytes) => base64_decoding(text@) == Some(bytes@),
                Err(e) => e == CooError::Base64Error && base64_decoding(text@) is None,
            },
        },
{
    match member {
        None => Err(CooError::ProtocolResponseError(String::from_str(body))),
        Some(text) => base64tobytes(text),
    }
}

/// The VAA that a guardian's answer carries. The answer must be JSON, must
/// have a text member `vaaBytes`, and that text must be base64.
pub fn vaa_bytes_from_response(body: &str) -> (r: Result<Vec<u8>, CooError>)
    ensures
        match json_text_member(body@, VAA_MEMBER@) {
            None => r == Err::<Vec<u8>, CooError>(CooError::JsonError),
            Some(None) => r matches Err(CooError::ProtocolResponseError(kept)) && kept@ == body@,
            Some(Some(text)) => match r {
                Ok(bytes) => base64_decoding(text) == Some(bytes@),
                Err(e) => e == CooError::Base64Error && base64_decoding(text) is None,
            },
        },
{
    match json_lookup(body, VAA_MEMBER) {
        Err(_) => Err(CooError::JsonError),
        Ok(None) => vaa_bytes_of_member(None, body),
        Ok(Some(text)) => vaa_bytes_of_member(Some(text.as_str()), body),
    }
}

} // verus!
