use crate::cbor::{encoder_finish, encoder_new, head, put_map, put_text, put_uint, text, MAP, UNSIGNED};
use crate::error::ConfigurationError;
use crate::keys::CurveContext;
use vstd::prelude::*;
use vstd::utf8::{encode_utf8, is_ascii_chars, is_ascii_chars_encode_utf8};

verus! {

/// The signing context of one run: assembled once, then only read.
#[derive(Debug, Clone)]
pub struct Payload {
    pub copied_data: CopiedData,
    pub secp: CurveContext,
    /// The funding transaction's id, as the 32 bytes that a transaction
    /// refers to it by.
    pub funding_utxo_id: [u8; 32],
    pub funding_utxo_index: u32,
    pub funding_utxo_vout: u32,
    pub funding_utxo_value: u64,
    pub xonly_pub_key: [u8; 32],
    pub funding_private_key: [u8; 32],
    /// The script of the funding output, which also takes the change.
    pub funding_private_script_pubkey: Vec<u8>,
    /// The value of the change output; zero when there is none.
    pub funding_value: u64,
    pub fixed_output_script_pubkey: Vec<u8>,
    pub fixed_output_value: u64,
    pub need_change_fee_output: bool,
    pub valid_prefix: Option<String>,
    pub valid_ext: Option<u8>,
}

/// Everything a mining run is configured with.
#[derive(Default, Debug, Clone, PartialEq)]
pub struct Root {
    pub copied_data: CopiedData,
    pub worker_options: WorkerOptions,
    pub funding_wif: String,
    pub funding_utxo: FundingUtxo,
    pub fees: Fees,
    pub perform_bitwork_for_commit_tx: bool,
    pub worker_bitwork_info_commit: WorkerBitworkInfoCommit,
    pub concurrency: u32,
    pub network: Network,
}

/// The chain a run addresses.
#[derive(Default, Debug, Copy, Clone, PartialEq, Eq, Structural)]
pub enum Network {
    #[default]
    Bitcoin,
    Test,
}

impl Network {
    /// The number that selects a network in a configuration.
    pub open spec fn selector(self) -> u8 {
        match self {
            Network::Bitcoin => 0,
            Network::Test => 1,
        }
    }

    /// Reads a network selector. Only the selectors of the two networks are
    /// recognized.
    pub fn from_repr(selector: u8) -> (network: Result<Network, ConfigurationError>)
        ensures
            match network {
                Ok(known) => known.selector() == selector,
                Err(error) => error == ConfigurationError::UnknownNetwork && selector > 1,
            },
    {
        if selector == 0 {
            Ok(Network::Bitcoin)
        } else if selector == 1 {
            Ok(Network::Test)
        } else {
            Err(ConfigurationError::UnknownNetwork)
        }
    }

    pub fn to_repr(self) -> (selector: u8)
        ensures
            selector == self.selector(),
    {
        match self {
            Network::Bitcoin => 0,
            Network::Test => 1,
        }
    }
}

/// The data that the reveal script carries on chain.
#[derive(Default, Debug, Clone, PartialEq)]
pub struct CopiedData {
    pub args: Args,
}

/// The arguments of one mint operation.
#[derive(Default, Debug, Clone, PartialEq)]
pub struct Args {
    pub time: u64,
    pub nonce: u64,
    pub bitworkc: Option<String>,
    pub bitworkr: Option<String>,
    pub mint_ticker: String,
}

#[derive(Default, Debug, Clone, PartialEq)]
pub struct WorkerOptions {
    pub electrum_api: ElectrumApi,
    pub satsbyte: u64,
    pub address: String,
    pub op_type: String,
    pub dmt_options: DmtOptions,
}

#[derive(Default, Debug, Clone, PartialEq)]
pub struct ElectrumApi {
    pub base_url: String,
    pub use_post: bool,
    pub is_open_flag: bool,
}

#[derive(Default, Debug, Clone, PartialEq)]
pub struct DmtOptions {
    pub mint_amount: i64,
    pub ticker: String,
}

/// The output that funds the commit transaction.
#[derive(Default, Debug, Clone, PartialEq)]
pub struct FundingUtxo {
    pub txid: String,
    pub tx_id: String,
    pub output_index: u64,
    pub index: u32,
    pub vout: u32,
    pub value: u64,
}

/// The five fee totals that accompany a mint request, in satoshis.
#[derive(Default, Debug, Copy, Clone, PartialEq)]
pub struct Fees {
    pub commit_and_reveal_fee: u64,
    pub commit_and_reveal_fee_plus_outputs: u64,
    pub reveal_fee_plus_outputs: u64,
    pub commit_fee_only: u64,
    pub reveal_fee_only: u64,
}

/// The bitwork requirement on the commit transaction's id.
#[derive(Default, Debug, Clone, PartialEq)]
pub struct WorkerBitworkInfoCommit {
    pub input_bitwork: String,
    pub hex_bitwork: String,
    pub prefix: Option<String>,
    pub ext: Option<u8>,
}

/// The mint arguments as mathematical values.
pub struct ArgsView {
    pub time: u64,
    pub nonce: u64,
    pub bitworkc: Option<Seq<char>>,
    pub bitworkr: Option<Seq<char>>,
    pub mint_ticker: Seq<char>,
}

/// The characters of an optional string.
pub open spec fn opt_text(text: Option<String>) -> Option<Seq<char>> {
    match text {
        Some(s) => Some(s@),
        None => None,
    }
}

impl View for Args {
    type V = ArgsView;

    open spec fn view(&self) -> ArgsView {
        ArgsView {
            time: self.time,
            nonce: self.nonce,
            bitworkc: opt_text(self.bitworkc),
            bitworkr: opt_text(self.bitworkr),
            mint_ticker: self.mint_ticker@,
        }
    }
}

impl View for CopiedData {
    type V = ArgsView;

    open spec fn view(&self) -> ArgsView {
        self.args@
    }
}

/// How many entries the inner map declares: three that are always there,
/// and one for each difficulty string that is present.
pub open spec fn declared_entries(args: ArgsView) -> u64 {
    let commit: int = if args.bitworkc is Some { 1 } else { 0 };
    let reveal: int = if args.bitworkr is Some { 1 } else { 0 };
    (3 + commit + reveal) as u64
}

/// An optional entry of the inner map: nothing when the value is absent.
pub open spec fn optional_entry(key: Seq<char>, value: Option<Seq<char>>) -> Seq<u8> {
    match value {
        Some(chars) => text(key) + text(chars),
        None => Seq::empty(),
    }
}

/// The canonical encoding of the mint arguments: a map with the single key
/// `args`, whose value is a map of the fields in a fixed order.
pub open spec fn encoding(args: ArgsView) -> Seq<u8> {
    head(MAP, 1) + text("args"@) + head(MAP, declared_entries(args))
        + text("time"@) + head(UNSIGNED, args.time)
        + text("nonce"@) + head(UNSIGNED, args.nonce)
        + optional_entry("bitworkc"@, args.bitworkc)
        + optional_entry("bitworkr"@, args.bitworkr)
        + text("mint_ticker"@) + text(args.mint_ticker)
}

impl CopiedData {
    /// Encodes the mint arguments. The bytes depend on the value alone.
    pub fn encode(&self) -> (bytes: Vec<u8>)
        ensures
            bytes@ == encoding(self@),
    {
        let mut encoder = encoder_new(Vec::new());
        let mut valid_args: u64 = 3;
        if self.args.bitworkc.is_some() {
            valid_args += 1;
        }
        if self.args.bitworkr.is_some() {
            valid_args += 1;
        }
        put_map(&mut encoder, 1);
        put_text(&mut encoder, "args");
        put_map(&mut encoder, valid_args);
        put_text(&mut encoder, "time");
        put_uint(&mut encoder, self.args.time);
        put_text(&mut encoder, "nonce");
        put_uint(&mut encoder, self.args.nonce);
        if let Some(bitworkc) = &self.args.bitworkc {
            put_text(&mut encoder, "bitworkc");
            put_text(&mut encoder, bitworkc.as_str());
        }
        if let Some(bitworkr) = &self.args.bitworkr {
            put_text(&mut encoder, "bitworkr");
            put_text(&mut encoder, bitworkr.as_str());
        }
        put_text(&mut encoder, "mint_ticker");
        put_text(&mut encoder, self.args.mint_ticker.as_str());
        encoder_finish(encoder)
    }
}

/// Encoding is a function of the value: two sets of arguments that agree in
/// every field have the same bytes, whatever strings hold them.
pub proof fn lemma_encoding_depends_on_value_alone(first: CopiedData, second: CopiedData)
    requires
        first.args.time == second.args.time,
        first.args.nonce == second.args.nonce,
        opt_text(first.args.bitworkc) == opt_text(second.args.bitworkc),
        opt_text(first.args.bitworkr) == opt_text(second.args.bitworkr),
        first.args.mint_ticker@ == second.args.mint_ticker@,
    ensures
        encoding(first@) == encoding(second@),
{
}

/// The encoding opens with the outer map of one entry and the key `args`;
/// the byte after them declares the inner map, and the count in it is
/// 3 plus the number of difficulty strings that are present.
pub proof fn lemma_declared_map_length(args: ArgsView)
    ensures
        encoding(args).len() > 6,
        encoding(args).subrange(0, 6) == seq![0xa1u8, 0x64u8, 0x61u8, 0x72u8, 0x67u8, 0x73u8],
        encoding(args)[6] == 0xa0 + declared_entries(args),
        declared_entries(args) == 3 + (if args.bitworkc is Some { 1int } else { 0 })
            + (if args.bitworkr is Some { 1int } else { 0 }),
{
    reveal_strlit("args");
    let key = "args"@;
    assert(is_ascii_chars(key));
    is_ascii_chars_encode_utf8(key);
    let key_bytes = encode_utf8(key);
    assert(key_bytes =~= seq![0x61u8, 0x72u8, 0x67u8, 0x73u8]);
    assert(text(key) =~= seq![0x64u8, 0x61u8, 0x72u8, 0x67u8, 0x73u8]);
    let opening = head(MAP, 1) + text(key) + head(MAP, declared_entries(args));
    assert(opening =~= seq![0xa1u8, 0x64u8, 0x61u8, 0x72u8, 0x67u8, 0x73u8,
        (0xa0 + declared_entries(args)) as u8]);
    let rest = text("time"@) + head(UNSIGNED, args.time)
        + text("nonce"@) + head(UNSIGNED, args.nonce)
        + optional_entry("bitworkc"@, args.bitworkc)
        + optional_entry("bitworkr"@, args.bitworkr)
        + text("mint_ticker"@) + text(args.mint_ticker);
    assert(encoding(args) =~= opening + rest);
    assert(encoding(args).subrange(0, 6) =~= opening.subrange(0, 6));
}

} // verus!
