//! Script bytes, and the builder that lays them down.

use bitcoin::opcodes::Opcode;
use bitcoin::script::{Builder, PushBytesBuf};
use vstd::prelude::*;

verus! {

/// Pushes an empty byte string.
pub const OP_0: u8 = 0x00;

/// The first of the three opcodes that carry the length of a push.
pub const OP_PUSHDATA1: u8 = 0x4c;

pub const OP_PUSHDATA2: u8 = 0x4d;

pub const OP_PUSHDATA4: u8 = 0x4e;

/// Pushes the number one; as the first byte of an output script it names
/// witness version 1.
pub const OP_1: u8 = 0x51;

pub const OP_IF: u8 = 0x63;

pub const OP_ENDIF: u8 = 0x68;

pub const OP_CHECKSIG: u8 = 0xac;

/// The longest byte string a single push may carry.
pub const MAX_PUSH: usize = 520;

/// No script holds a push of this many bytes or more.
pub const PUSH_LIMIT: u64 = 0x1_0000_0000;

/// The `width` low-order bytes of `value`, least significant first.
pub open spec fn le_bytes(value: nat, width: nat) -> Seq<u8>
    decreases width,
{
    if width == 0 {
        Seq::empty()
    } else {
        seq![(value % 256) as u8] + le_bytes(value / 256, (width - 1) as nat)
    }
}

/// The instruction that pushes `data`: its length in the shortest of the
/// four forms, then the data.
pub open spec fn push(data: Seq<u8>) -> Seq<u8> {
    if data.len() < OP_PUSHDATA1 {
        seq![data.len() as u8] + data
    } else if data.len() < 0x100 {
        seq![OP_PUSHDATA1, data.len() as u8] + data
    } else if data.len() < 0x10000 {
        seq![OP_PUSHDATA2] + le_bytes(data.len(), 2) + data
    } else {
        seq![OP_PUSHDATA4] + le_bytes(data.len(), 4) + data
    }
}

#[verifier::external_type_specification]
#[verifier::external_body]
pub struct ExBuilder(Builder);

/// The bytes of the script that a builder holds.
pub uninterp spec fn script_of(builder: Builder) -> Seq<u8>;

/// `bitcoin::script::Builder::new`: a builder of the empty script.
#[verifier::external_body]
pub(crate) fn builder_new() -> (builder: Builder)
    ensures
        script_of(builder) == Seq::<u8>::empty(),
{
    Builder::new()
}

/// `Builder::push_opcode`: appends the one byte of the opcode.
#[verifier::external_body]
pub(crate) fn push_opcode(builder: Builder, opcode: u8) -> (next: Builder)
    ensures
        script_of(next) == script_of(builder).push(opcode),
{
    builder.push_opcode(Opcode::from(opcode))
}

/// `Builder::push_slice`, fed through a `PushBytesBuf`: appends the
/// instruction that pushes `data`. The buffer refuses data of `PUSH_LIMIT`
/// bytes or more, which the precondition rules out.
#[verifier::external_body]
pub(crate) fn push_slice(builder: Builder, data: &[u8]) -> (next: Builder)
    requires
        data@.len() < PUSH_LIMIT,
    ensures
        script_of(next) == script_of(builder) + push(data@),
{
    let mut buffer = PushBytesBuf::new();
    buffer.extend_from_slice(data).unwrap();
    builder.push_slice(buffer.as_push_bytes())
}

/// `Builder::into_script`, then `ScriptBuf::into_bytes`: the script's bytes.
#[verifier::external_body]
pub(crate) fn into_bytes(builder: Builder) -> (script: Vec<u8>)
    ensures
        script@ == script_of(builder),
{
    builder.into_script().into_bytes()
}

} // verus!
