//! Account addresses and the instructions built over them by the system
//! program and the token program.
use vstd::prelude::*;
use crate::codec::{b58_decode, b58_encode};
use std::str::FromStr;

verus! {

/// One account that an instruction touches, with its signer and writable flags.
#[derive(Clone, Copy, Debug, PartialEq, Eq)]
pub struct KeyMeta {
    pub key: [u8; 32],
    pub is_signer: bool,
    pub is_writable: bool,
}

/// An instruction: the program that runs it, the accounts it touches in order,
/// and its payload.
#[derive(Debug)]
pub struct Instruction {
    pub program_id: [u8; 32],
    pub accounts: Vec<KeyMeta>,
    pub data: Vec<u8>,
}

/// The address, as text, is at most this many characters long.
pub const MAX_ADDRESS_TEXT_LEN: usize = 44;

/// The decimals that a token transfer states for every mint.
pub const TRANSFER_DECIMALS: u8 = 6;

/// The 32 bytes an address text stands for, if it stands for any.
pub open spec fn address_of(s: Seq<char>) -> Option<Seq<u8>> {
    if s.len() <= MAX_ADDRESS_TEXT_LEN as int && b58_decode(s) is Some
        && b58_decode(s)->0.len() == 32 {
        b58_decode(s)
    } else {
        None
    }
}

/// The little-endian bytes of a 64-bit integer.
pub open spec fn le_bytes(x: u64) -> Seq<u8> {
    Seq::new(8, |i: int| ((x >> (8 * i) as u64) & 0xff) as u8)
}

/// The address of the native system program: 32 zero bytes.
pub open spec fn system_program_id() -> Seq<u8> {
    Seq::new(32, |i: int| 0u8)
}

/// The address of the token program.
pub open spec fn token_program_id() -> Seq<u8> {
    seq![6u8, 221, 246, 225, 215, 101, 161, 147, 217, 203, 225, 70, 206, 235, 121, 172,
        28, 180, 133, 237, 95, 91, 55, 145, 58, 140, 245, 133, 126, 255, 0, 169]
}

/// The address of the rent sysvar.
pub open spec fn rent_sysvar_id() -> Seq<u8> {
    seq![6u8, 167, 213, 23, 25, 44, 92, 81, 33, 140, 201, 76, 61, 74, 241, 127,
        88, 218, 238, 8, 155, 161, 253, 68, 227, 219, 217, 138, 0, 0, 0, 0]
}

/// Relies on `Pubkey::from_str`: text of at most 44 bytes that base58-decodes
/// to exactly 32 bytes; `bs58` encodes those bytes back to the same text.
#[verifier::external_body]
pub(crate) fn parse_address(s: &str) -> (r: Option<[u8; 32]>)
    ensures
        match r {
            Some(k) => address_of(s@) == Some(k@) && b58_encode(k@) == s@,
            None => address_of(s@) is None,
        },
{
    match solana_program::pubkey::Pubkey::from_str(s) {
        Ok(p) => Some(p.to_bytes()),
        Err(_) => None,
    }
}

/// Relies on `system_instruction::transfer`: the system program's transfer of
/// lamports, from a signing, writable funder to a writable recipient, with the
/// bincode payload of `Transfer { lamports }` (variant 2 as a 32-bit tag).
#[verifier::external_body]
pub(crate) fn system_transfer(from: [u8; 32], to: [u8; 32], lamports: u64) -> (r: Instruction)
    ensures
        r.program_id@ == system_program_id(),
        r.accounts@ == seq![
            (KeyMeta { key: from, is_signer: true, is_writable: true }),
            (KeyMeta { key: to, is_signer: false, is_writable: true }),
        ],
        r.data@ == seq![2u8, 0, 0, 0] + le_bytes(lamports),
{
    let ix = solana_sdk::system_instruction::transfer(&from.into(), &to.into(), lamports);
    let accounts = ix.accounts.iter().map(|m| KeyMeta {
        key: m.pubkey.to_bytes(), is_signer: m.is_signer, is_writable: m.is_writable,
    }).collect();
    Instruction { program_id: ix.program_id.to_bytes(), accounts, data: ix.data }
}

/// Relies on `spl_token::instruction::initialize_mint` with the token program's
/// id and no freeze authority: it then always succeeds, with the writable mint
/// and the rent sysvar as accounts and the packed `InitializeMint` payload.
#[verifier::external_body]
pub(crate) fn token_initialize_mint(mint: [u8; 32], authority: [u8; 32], decimals: u8) -> (r: Result<Instruction, String>)
    ensures
        r is Ok,
        r matches Ok(ix) ==> {
            &&& ix.program_id@ == token_program_id()
            &&& ix.accounts@.len() == 2
            &&& ix.accounts@[0] == (KeyMeta { key: mint, is_signer: false, is_writable: true })
            &&& ix.accounts@[1].key@ == rent_sysvar_id()
            &&& !ix.accounts@[1].is_signer && !ix.accounts@[1].is_writable
            &&& ix.data@ == seq![0u8, decimals] + authority@ + seq![0u8]
        },
{
    let ix = spl_token::instruction::initialize_mint(
        &spl_token::id(), &mint.into(), &authority.into(), None, decimals,
    ).map_err(|e| e.to_string())?;
    let accounts = ix.accounts.iter().map(|m| KeyMeta {
        key: m.pubkey.to_bytes(), is_signer: m.is_signer, is_writable: m.is_writable,
    }).collect();
    Ok(Instruction { program_id: ix.program_id.to_bytes(), accounts, data: ix.data })
}

/// Relies on `spl_token::instruction::mint_to` with the token program's id and
/// no multisig signers: it then always succeeds, with the writable mint and
/// destination and the signing authority as accounts and the packed `MintTo`
/// payload.
#[verifier::external_body]
pub(crate) fn token_mint_to(mint: [u8; 32], destination: [u8; 32], authority: [u8; 32], amount: u64) -> (r: Result<Instruction, String>)
    ensures
        r is Ok,
        r matches Ok(ix) ==> {
            &&& ix.program_id@ == token_program_id()
            &&& ix.accounts@ == seq![
                (KeyMeta { key: mint, is_signer: false, is_writable: true }),
                (KeyMeta { key: destination, is_signer: false, is_writable: true }),
                (KeyMeta { key: authority, is_signer: true, is_writable: false }),
            ]
            &&& ix.data@ == seq![7u8] + le_bytes(amount)
        },
{
    let ix = spl_token::instruction::mint_to(
        &spl_token::id(), &mint.into(), &destination.into(), &authority.into(), &[], amount,
    ).map_err(|e| e.to_string())?;
    let accounts = ix.accounts.iter().map(|m| KeyMeta {
        key: m.pubkey.to_bytes(), is_signer: m.is_signer, is_writable: m.is_writable,
    }).collect();
    Ok(Instruction { program_id: ix.program_id.to_bytes(), accounts, data: ix.data })
}

/// Relies on `spl_token::instruction::transfer_checked` with the token
/// program's id and no multisig signers: it then always succeeds, with the
/// writable source, the mint, the writable destination and the signing
/// authority as accounts and the packed `TransferChecked` payload.
#[verifier::external_body]
pub(crate) fn token_transfer_checked(
    source: [u8; 32],
    mint: [u8; 32],
    destination: [u8; 32],
    authority: [u8; 32],
    amount: u64,
    decimals: u8,
) -> (r: Result<Instruction, String>)
    ensures
        r is Ok,
        r matches Ok(ix) ==> {
            &&& ix.program_id@ == token_program_id()
            &&& ix.accounts@ == seq![
                (KeyMeta { key: source, is_signer: false, is_writable: true }),
                (KeyMeta { key: mint, is_signer: false, is_writable: false }),
                (KeyMeta { key: destination, is_signer: false, is_writable: true }),
                (KeyMeta { key: authority, is_signer: true, is_writable: false }),
            ]
            &&& ix.data@ == seq![12u8] + le_bytes(amount) + seq![decimals]
        },
{
    let ix = spl_token::instruction::transfer_checked(
        &spl_token::id(), &source.into(), &mint.into(), &destination.into(), &authority.into(),
        &[], amount, decimals,
    ).map_err(|e| e.to_string())?;
    let accounts = ix.accounts.iter().map(|m| KeyMeta {
        key: m.pubkey.to_bytes(), is_signer: m.is_signer, is_writable: m.is_writable,
    }).collect();
    Ok(Instruction { program_id: ix.program_id.to_bytes(), accounts, data: ix.data })
}

} // verus!
