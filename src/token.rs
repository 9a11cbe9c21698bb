//! Token program instructions that initialize a mint and mint to an account,
//! in the verbose response shape.
use vstd::prelude::*;
use crate::chain::{
    address_of, le_bytes, parse_address, rent_sysvar_id, token_initialize_mint, token_mint_to,
    token_program_id, Instruction,
};
use crate::codec::{b58_encode, b64_decode, b64_encode, to_base58, to_base64};
use crate::keypair::ApiResponse;

verus! {

/// A request to initialize a mint with an authority and a number of decimals.
pub struct CreateTokenRequest {
    pub mint_authority: String,
    pub mint: String,
    pub decimals: u8,
}

/// A request to mint `amount` tokens to a destination account.
pub struct MintTokenRequest {
    pub mint: String,
    pub destination: String,
    pub authority: String,
    pub amount: u64,
}

/// An account of an instruction: its address text and its flags.
pub struct AccountMeta {
    pub pubkey: String,
    pub is_signer: bool,
    pub is_writable: bool,
}

/// A token instruction: the program, its accounts, its payload in base64.
pub struct TokenInstructionResponse {
    pub program_id: String,
    pub accounts: Vec<AccountMeta>,
    pub instruction_data: String,
}

/// An account as its address text and its signer and writable flags.
pub open spec fn meta_view(m: AccountMeta) -> (Seq<char>, bool, bool) {
    (m.pubkey@, m.is_signer, m.is_writable)
}

/// The accounts of a response, each as its text and flags.
pub open spec fn metas_view(v: Seq<AccountMeta>) -> Seq<(Seq<char>, bool, bool)> {
    v.map_values(|m: AccountMeta| meta_view(m))
}

/// A response that failed with its reason, as plain text, in `instruction_data`.
pub open spec fn token_failed(r: ApiResponse<TokenInstructionResponse>, why: Seq<char>) -> bool {
    &&& !r.success
    &&& r.data.program_id@.len() == 0
    &&& r.data.accounts@.len() == 0
    &&& r.data.instruction_data@ == why
}

/// A response that carries an instruction: its program, its accounts, its payload.
pub open spec fn token_built(
    r: ApiResponse<TokenInstructionResponse>,
    program: Seq<u8>,
    accounts: Seq<(Seq<char>, bool, bool)>,
    data: Seq<u8>,
) -> bool {
    &&& r.success
    &&& r.data.program_id@ == b58_encode(program)
    &&& metas_view(r.data.accounts@) == accounts
    &&& r.data.instruction_data@ == b64_encode(data)
    &&& b64_decode(r.data.instruction_data@) == Some(data)
}

fn token_failure(why: String) -> (r: ApiResponse<TokenInstructionResponse>)
    ensures
        token_failed(r, why@),
{
    ApiResponse {
        success: false,
        data: TokenInstructionResponse { program_id: String::new(), accounts: Vec::new(), instruction_data: why },
    }
}

/// The response that carries an instruction, with each account's address as text.
pub fn token_response(ix: &Instruction) -> (r: ApiResponse<TokenInstructionResponse>)
    ensures
        r.success,
        r.data.program_id@ == b58_encode(ix.program_id@),
        r.data.accounts@.len() == ix.accounts@.len(),
        forall|j: int| 0 <= j < r.data.accounts@.len() ==> #[trigger] meta_view(r.data.accounts@[j])
            == (b58_encode(ix.accounts@[j].key@), ix.accounts@[j].is_signer, ix.accounts@[j].is_writable),
        r.data.instruction_data@ == b64_encode(ix.data@),
        b64_decode(r.data.instruction_data@) == Some(ix.data@),
{
    let mut accounts: Vec<AccountMeta> = Vec::new();
    let mut i: usize = 0;
    while i < ix.accounts.len()
        invariant
            i <= ix.accounts@.len(),
            accounts@.len() == i,
            forall|j: int| 0 <= j < i ==> #[trigger] meta_view(accounts@[j])
                == (b58_encode(ix.accounts@[j].key@), ix.accounts@[j].is_signer, ix.accounts@[j].is_writable),
        decreases ix.accounts@.len() - i,
    {
        let m = ix.accounts[i];
        accounts.push(AccountMeta { pubkey: to_base58(m.key.as_slice()), is_signer: m.is_signer, is_writable: m.is_writable });
        i = i + 1;
    }
    ApiResponse {
        success: true,
        data: TokenInstructionResponse {
            program_id: to_base58(ix.program_id.as_slice()),
            accounts,
            instruction_data: to_base64(ix.data.as_slice()),
        },
    }
}

/// Builds the token program's instruction that initializes `mint` with the
/// given authority, no freeze authority, and the given decimals. An address
/// that does not parse is reported, mint first, as plain text in
/// `instruction_data`.
pub fn create_token(payload: CreateTokenRequest) -> (r: ApiResponse<TokenInstructionResponse>)
    ensures
        address_of(payload.mint@) is None ==> token_failed(r, "Invalid mint pubkey"@),
        address_of(payload.mint@) is Some && address_of(payload.mint_authority@) is None
            ==> token_failed(r, "Invalid mintAuthority pubkey"@),
        address_of(payload.mint@) is Some && address_of(payload.mint_authority@) is Some ==> token_built(
            r,
            token_program_id(),
            seq![(payload.mint@, false, true), (b58_encode(rent_sysvar_id()), false, false)],
            seq![0u8, payload.decimals] + address_of(payload.mint_authority@)->0 + seq![0u8],
        ),
{
    let mint = match parse_address(payload.mint.as_str()) {
        Some(k) => k,
        None => return token_failure("Invalid mint pubkey".to_string()),
    };
    let authority = match parse_address(payload.mint_authority.as_str()) {
        Some(k) => k,
        None => return token_failure("Invalid mintAuthority pubkey".to_string()),
    };
    let ix = match token_initialize_mint(mint, authority, payload.decimals) {
        Ok(ix) => ix,
        Err(e) => return token_failure(e),
    };
    let r = token_response(&ix);
    assert(metas_view(r.data.accounts@) =~= seq![
        (b58_encode(mint@), false, true),
        (b58_encode(rent_sysvar_id()), false, false),
    ]);
    r
}

/// Builds the token program's instruction that mints `amount` to
/// `destination`, signed by the authority alone. An address that does not
/// parse is reported, in the order mint, destination, authority, as plain text
/// in `instruction_data`.
pub fn mint_token(payload: MintTokenRequest) -> (r: ApiResponse<TokenInstructionResponse>)
    ensures
        address_of(payload.mint@) is None ==> token_failed(r, "Invalid mint pubkey"@),
        address_of(payload.mint@) is Some && address_of(payload.destination@) is None
            ==> token_failed(r, "Invalid destination pubkey"@),
        address_of(payload.mint@) is Some && address_of(payload.destination@) is Some
            && address_of(payload.authority@) is None ==> token_failed(r, "Invalid authority pubkey"@),
        address_of(payload.mint@) is Some && address_of(payload.destination@) is Some
            && address_of(payload.authority@) is Some ==> token_built(
            r,
            token_program_id(),
            seq![
                (payload.mint@, false, true),
                (payload.destination@, false, true),
                (payload.authority@, true, false),
            ],
            seq![7u8] + le_bytes(payload.amount),
        ),
{
    let mint = match parse_address(payload.mint.as_str()) {
        Some(k) => k,
        None => return token_failure("Invalid mint pubkey".to_string()),
    };
    let destination = match parse_address(payload.destination.as_str()) {
        Some(k) => k,
        None => return token_failure("Invalid destination pubkey".to_string()),
    };
    let authority = match parse_address(payload.authority.as_str()) {
        Some(k) => k,
        None => return token_failure("Invalid authority pubkey".to_string()),
    };
    let ix = match token_mint_to(mint, destination, authority, payload.amount) {
        Ok(ix) => ix,
        Err(e) => return token_failure(e),
    };
    let r = token_response(&ix);
    assert(metas_view(r.data.accounts@) =~= seq![
        (b58_encode(mint@), false, true),
        (b58_encode(destination@), false, true),
        (b58_encode(authority@), true, false),
    ]);
    r
}

} // verus!
