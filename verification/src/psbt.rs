//! The partially signed form of the commit transaction: the unsigned
//! transaction, and what is known of its input while it is being signed.

use crate::tx::{Tx, TxInput, TxOutput, TxView};
use vstd::prelude::*;

verus! {

/// Which parts of a transaction a taproot signature commits to.
#[derive(Debug, Copy, Clone, PartialEq, Eq, Structural)]
pub enum TapSighashType {
    Default,
    All,
    NoOutputs,
    Single,
    AllPlusAnyoneCanPay,
    NoOutputsPlusAnyoneCanPay,
    SinglePlusAnyoneCanPay,
}

impl TapSighashType {
    /// The byte that stands for the type in a digest and after a signature.
    pub open spec fn code(self) -> u8 {
        match self {
            TapSighashType::Default => 0x00,
            TapSighashType::All => 0x01,
            TapSighashType::NoOutputs => 0x02,
            TapSighashType::Single => 0x03,
            TapSighashType::AllPlusAnyoneCanPay => 0x81,
            TapSighashType::NoOutputsPlusAnyoneCanPay => 0x82,
            TapSighashType::SinglePlusAnyoneCanPay => 0x83,
        }
    }

    pub fn to_u8(self) -> (code: u8)
        ensures
            code == self.code(),
    {
        match self {
            TapSighashType::Default => 0x00,
            TapSighashType::All => 0x01,
            TapSighashType::NoOutputs => 0x02,
            TapSighashType::Single => 0x03,
            TapSighashType::AllPlusAnyoneCanPay => 0x81,
            TapSighashType::NoOutputsPlusAnyoneCanPay => 0x82,
            TapSighashType::SinglePlusAnyoneCanPay => 0x83,
        }
    }
}

/// A Schnorr signature and the type it was made under.
#[derive(Debug, Copy, Clone, PartialEq, Eq)]
pub struct TapSignature {
    pub sig: [u8; 64],
    pub hash_ty: TapSighashType,
}

impl TapSignature {
    /// The signature as a witness item: its 64 bytes, followed by the type's
    /// code unless the type is the default one.
    pub open spec fn serialized(self) -> Seq<u8> {
        if self.hash_ty == TapSighashType::Default {
            self.sig@
        } else {
            self.sig@.push(self.hash_ty.code())
        }
    }

    pub fn to_vec(&self) -> (bytes: Vec<u8>)
        ensures
            bytes@ == self.serialized(),
    {
        let mut bytes: Vec<u8> = Vec::new();
        let mut at: usize = 0;
        while at < 64
            invariant
                at <= 64,
                bytes@ == self.sig@.take(at as int),
            decreases 64 - at,
        {
            bytes.push(self.sig[at]);
            assert(self.sig@.take(at as int).push(self.sig@[at as int]) =~= self.sig@.take(at + 1));
            at += 1;
        }
        assert(self.sig@.take(64) =~= self.sig@);
        match self.hash_ty {
            TapSighashType::Default => {},
            other => {
                bytes.push(other.to_u8());
            },
        }
        bytes
    }
}

/// A signature for one script of a taproot tree, made with one key.
#[derive(Debug, Copy, Clone, PartialEq, Eq)]
pub struct TapScriptSig {
    pub key: [u8; 32],
    pub leaf_hash: [u8; 32],
    pub signature: TapSignature,
}

/// What is known of the input while the transaction is being signed.
#[derive(Debug, Clone, PartialEq, Eq)]
pub struct PsbtInput {
    /// The output that the input spends.
    pub witness_utxo: Option<TxOutput>,
    pub partial_sigs: Vec<(Vec<u8>, Vec<u8>)>,
    pub sighash_type: Option<TapSighashType>,
    pub redeem_script: Option<Vec<u8>>,
    pub witness_script: Option<Vec<u8>>,
    pub bip32_derivation: Vec<(Vec<u8>, Vec<u8>)>,
    pub final_script_witness: Option<Vec<Vec<u8>>>,
    pub tap_key_sig: Option<TapSignature>,
    pub tap_script_sigs: Vec<TapScriptSig>,
    pub tap_internal_key: Option<[u8; 32]>,
    pub tap_merkle_root: Option<[u8; 32]>,
}

/// A transaction on its way to being signed.
#[derive(Debug, Clone, PartialEq, Eq)]
pub struct Psbt {
    pub unsigned_tx: Tx,
    pub input: PsbtInput,
}

impl PsbtInput {
    /// Each of the three lists stands for a map: none holds a key twice.
    pub open spec fn well_formed(self) -> bool {
        &&& one_entry_each(self.partial_sigs@)
        &&& one_entry_each(self.bip32_derivation@)
        &&& one_signature_each(self.tap_script_sigs@)
    }

    /// An input of which only the spent output and the internal key are
    /// known.
    pub open spec fn is_fresh(self) -> bool {
        &&& self.witness_utxo is Some
        &&& self.partial_sigs@.len() == 0
        &&& self.sighash_type is None
        &&& self.redeem_script is None
        &&& self.witness_script is None
        &&& self.bip32_derivation@.len() == 0
        &&& self.final_script_witness is None
        &&& self.tap_key_sig is None
        &&& self.tap_script_sigs@.len() == 0
        &&& self.tap_internal_key is Some
        &&& self.tap_merkle_root is None
    }

    /// The type to sign under: the one the input asks for, else the default.
    pub fn hash_type(&self) -> (hash_ty: TapSighashType)
        ensures
            hash_ty == match self.sighash_type {
                Some(asked) => asked,
                None => TapSighashType::Default,
            },
    {
        match self.sighash_type {
            Some(asked) => asked,
            None => TapSighashType::Default,
        }
    }

    /// Finalizes an input that was signed by key: the witness becomes the
    /// signature alone, and what signing needed along the way is cleared.
    pub fn finalize(&mut self)
        requires
            old(self).tap_key_sig is Some,
        ensures
            final(self).final_script_witness is Some,
            final(self).final_script_witness->0.deep_view() == seq![
                old(self).tap_key_sig->0.serialized(),
            ],
            final(self).partial_sigs@.len() == 0,
            final(self).sighash_type is None,
            final(self).redeem_script is None,
            final(self).witness_script is None,
            final(self).bip32_derivation@.len() == 0,
            final(self).witness_utxo == old(self).witness_utxo,
            final(self).tap_key_sig == old(self).tap_key_sig,
            final(self).tap_script_sigs == old(self).tap_script_sigs,
            final(self).tap_internal_key == old(self).tap_internal_key,
            final(self).tap_merkle_root == old(self).tap_merkle_root,
            old(self).well_formed() ==> final(self).well_formed(),
    {
        let mut script_witness: Vec<Vec<u8>> = Vec::new();
        match &self.tap_key_sig {
            Some(signature) => {
                script_witness.push(signature.to_vec());
            },
            None => {},
        }
        assert(script_witness.deep_view() =~= seq![old(self).tap_key_sig->0.serialized()]) by {
            assert(script_witness@.len() == 1);
            assert(script_witness@[0].deep_view() =~= script_witness@[0]@);
        }
        self.final_script_witness = Some(script_witness);
        self.partial_sigs = Vec::new();
        self.sighash_type = None;
        self.redeem_script = None;
        self.witness_script = None;
        self.bip32_derivation = Vec::new();
    }
}

/// No key has two entries: the list stands for a map from its keys.
pub open spec fn one_entry_each(entries: Seq<(Vec<u8>, Vec<u8>)>) -> bool {
    forall|first: int, second: int|
        0 <= first < second < entries.len() ==> (#[trigger] entries[first]).0@ != (
        #[trigger] entries[second]).0@
}

/// No key has two signatures for the same leaf: the list stands for a map
/// from keys and leaves.
pub open spec fn one_signature_each(entries: Seq<TapScriptSig>) -> bool {
    forall|first: int, second: int|
        0 <= first < second < entries.len() ==> !signs_for(
            #[trigger] entries[second],
            (#[trigger] entries[first]).key@,
            entries[first].leaf_hash@,
        )
}

/// Whether an entry is the signature for the script with the leaf hash
/// `leaf_hash`, made with the key `key`.
pub open spec fn signs_for(entry: TapScriptSig, key: Seq<u8>, leaf_hash: Seq<u8>) -> bool {
    entry.key@ == key && entry.leaf_hash@ == leaf_hash
}

/// `after` is `before` with `entry` put in: in the place of the first entry
/// for the same key and leaf, or at the end where there is none.
pub open spec fn put_in(before: Seq<TapScriptSig>, after: Seq<TapScriptSig>, entry: TapScriptSig) -> bool {
    exists|at: int|
        {
            &&& 0 <= at <= before.len()
            &&& forall|earlier: int|
                0 <= earlier < at ==> !signs_for(#[trigger] before[earlier], entry.key@, entry.leaf_hash@)
            &&& at < before.len() ==> signs_for(before[at], entry.key@, entry.leaf_hash@)
            &&& #[trigger] replaced_or_appended(before, after, entry, at)
        }
}

/// `after` is `before` with `entry` at index `at`, which is an index of
/// `before` or its length.
pub open spec fn replaced_or_appended(
    before: Seq<TapScriptSig>,
    after: Seq<TapScriptSig>,
    entry: TapScriptSig,
    at: int,
) -> bool {
    if at < before.len() {
        after == before.update(at, entry)
    } else {
        after == before.push(entry)
    }
}

/// Whether two keys or hashes hold the same bytes.
fn same_bytes(left: &[u8; 32], right: &[u8; 32]) -> (same: bool)
    ensures
        same == (left@ == right@),
{
    let mut at: usize = 0;
    while at < 32
        invariant
            at <= 32,
            forall|k: int| 0 <= k < at ==> left@[k] == right@[k],
        decreases 32 - at,
    {
        if left[at] != right[at] {
            return false;
        }
        at += 1;
    }
    assert(left@ =~= right@);
    true
}

/// Records a script signature: it takes the place of the signature that the
/// same key made for the same leaf, if there is one. A list that held one
/// signature for each key and leaf still does, and the signature recorded is
/// then the only one for its key and leaf.
pub fn insert_script_sig(entries: &mut Vec<TapScriptSig>, entry: TapScriptSig)
    ensures
        put_in(old(entries)@, final(entries)@, entry),
        one_signature_each(old(entries)@) ==> one_signature_each(final(entries)@),
        one_signature_each(old(entries)@) ==> forall|at: int|
            0 <= at < final(entries)@.len() && signs_for(
                #[trigger] final(entries)@[at],
                entry.key@,
                entry.leaf_hash@,
            ) ==> final(entries)@[at] == entry,
{
    let mut at: usize = 0;
    while at < entries.len()
        invariant
            at <= entries.len(),
            *entries == *old(entries),
            forall|earlier: int|
                0 <= earlier < at ==> !signs_for(#[trigger] entries@[earlier], entry.key@, entry.leaf_hash@),
        decreases entries.len() - at,
    {
        if same_bytes(&entries[at].key, &entry.key) && same_bytes(&entries[at].leaf_hash, &entry.leaf_hash) {
            entries.set(at, entry);
            assert(replaced_or_appended(old(entries)@, entries@, entry, at as int));
            return;
        }
        at += 1;
    }
    entries.push(entry);
    assert(replaced_or_appended(old(entries)@, entries@, entry, at as int));
}

impl Psbt {
    /// The transaction with the input's final witness in place, and no
    /// script signature. Nothing is checked: not the fee, not the signature.
    pub fn extract_tx_unchecked_fee_rate(self) -> (tx: Tx)
        ensures
            tx@ == (TxView {
                script_sig: Seq::empty(),
                witness: match self.input.final_script_witness {
                    Some(witness) => witness.deep_view(),
                    None => Seq::empty(),
                },
                ..self.unsigned_tx@
            }),
    {
        let Psbt { unsigned_tx, input } = self;
        let witness: Vec<Vec<u8>> = match input.final_script_witness {
            Some(witness) => witness,
            None => Vec::new(),
        };
        assert(input.final_script_witness is None ==> witness.deep_view() =~= Seq::<Seq<u8>>::empty());
        Tx {
            version: unsigned_tx.version,
            lock_time: unsigned_tx.lock_time,
            input: TxInput {
                previous_output: unsigned_tx.input.previous_output,
                script_sig: Vec::new(),
                sequence: unsigned_tx.input.sequence,
                witness,
            },
            output: unsigned_tx.output,
        }
    }
}

} // verus!
