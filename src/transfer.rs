//! Lamport and token transfer instructions, in the compact response shapes.
use vstd::prelude::*;
use vstd::string::StringSliceAdditionalSpecFns;
use crate::chain::{
    address_of, le_bytes, parse_address, system_program_id, system_transfer, token_program_id,
    token_transfer_checked, Instruction, TRANSFER_DECIMALS,
};
use crate::codec::{b58_encode, b64_decode, b64_encode, to_base58, to_base64};

verus! {

/// A request to move lamports between two addresses.
pub struct SendSolRequest {
    pub from: String,
    pub to: String,
    pub lamports: u64,
}

/// A request to move tokens of a mint from an owner to a destination.
pub struct SendTokenRequest {
    pub destination: String,
    pub mint: String,
    pub owner: String,
    pub amount: u64,
}

/// The envelope of every transfer response.
pub struct ApiSuccessResponse<T> {
    pub success: bool,
    pub data: T,
}

/// A failure carried as an error text.
pub struct ApiErrorResponse {
    pub success: bool,
    pub error: String,
}

/// A lamport transfer: the program, the addresses it touches, its payload in base64.
pub struct SolInstructionResponse {
    pub program_id: String,
    pub accounts: Vec<String>,
    pub instruction_data: String,
}

/// An account of a token transfer: its address and whether it signs.
pub struct CompactAccountMeta {
    pub pubkey: String,
    pub is_signer: bool,
}

/// A token transfer: the program, its accounts, its payload in base64.
pub struct TokenInstructionResponse {
    pub program_id: String,
    pub accounts: Vec<CompactAccountMeta>,
    pub instruction_data: String,
}

/// The texts of a list of strings.
pub open spec fn texts(v: Seq<String>) -> Seq<Seq<char>> {
    v.map_values(|s: String| s@)
}

/// The compact form of one account: its address text and its signer flag.
pub open spec fn compact_view(m: CompactAccountMeta) -> (Seq<char>, bool) {
    (m.pubkey@, m.is_signer)
}

/// A lamport transfer response that failed with a message, base64-encoded.
pub open spec fn sol_failed(r: ApiSuccessResponse<SolInstructionResponse>, msg: &str) -> bool {
    &&& !r.success
    &&& r.data.program_id@.len() == 0
    &&& r.data.accounts@.len() == 0
    &&& r.data.instruction_data@ == b64_encode(msg.spec_bytes())
}

/// A token transfer response that failed with a message, base64-encoded.
pub open spec fn token_failed(r: ApiSuccessResponse<TokenInstructionResponse>, msg: &str) -> bool {
    &&& !r.success
    &&& r.data.program_id@.len() == 0
    &&& r.data.accounts@.len() == 0
    &&& r.data.instruction_data@ == b64_encode(msg.spec_bytes())
}

/// The payload of a system transfer of `lamports`.
pub open spec fn sol_transfer_data(lamports: u64) -> Seq<u8> {
    seq![2u8, 0, 0, 0] + le_bytes(lamports)
}

/// The payload of a token transfer of `amount` with the fixed decimals.
pub open spec fn token_transfer_data(amount: u64) -> Seq<u8> {
    seq![12u8] + le_bytes(amount) + seq![TRANSFER_DECIMALS]
}

fn sol_failure(msg: &str) -> (r: ApiSuccessResponse<SolInstructionResponse>)
    ensures
        sol_failed(r, msg),
{
    ApiSuccessResponse {
        success: false,
        data: SolInstructionResponse {
            program_id: String::new(),
            accounts: Vec::new(),
            instruction_data: to_base64(msg.as_bytes()),
        },
    }
}

fn token_failure(msg: &str) -> (r: ApiSuccessResponse<TokenInstructionResponse>)
    ensures
        token_failed(r, msg),
{
    ApiSuccessResponse {
        success: false,
        data: TokenInstructionResponse {
            program_id: String::new(),
            accounts: Vec::new(),
            instruction_data: to_base64(msg.as_bytes()),
        },
    }
}

/// The address texts of an instruction's accounts, in order.
pub fn account_texts(ix: &Instruction) -> (r: Vec<String>)
    ensures
        r@.len() == ix.accounts@.len(),
        forall|j: int| 0 <= j < r@.len() ==> #[trigger] r@[j]@ == b58_encode(ix.accounts@[j].key@),
{
    let mut r: Vec<String> = Vec::new();
    let mut i: usize = 0;
    while i < ix.accounts.len()
        invariant
            i <= ix.accounts@.len(),
            r@.len() == i,
            forall|j: int| 0 <= j < i ==> #[trigger] r@[j]@ == b58_encode(ix.accounts@[j].key@),
        decreases ix.accounts@.len() - i,
    {
        let key: [u8; 32] = ix.accounts[i].key;
        r.push(to_base58(key.as_slice()));
        i = i + 1;
    }
    r
}

/// The compact accounts of an instruction: address text and signer flag, in order.
pub fn compact_accounts(ix: &Instruction) -> (r: Vec<CompactAccountMeta>)
    ensures
        r@.len() == ix.accounts@.len(),
        forall|j: int| 0 <= j < r@.len() ==> #[trigger] compact_view(r@[j])
            == (b58_encode(ix.accounts@[j].key@), ix.accounts@[j].is_signer),
{
    let mut r: Vec<CompactAccountMeta> = Vec::new();
    let mut i: usize = 0;
    while i < ix.accounts.len()
        invariant
            i <= ix.accounts@.len(),
            r@.len() == i,
            forall|j: int| 0 <= j < i ==> #[trigger] compact_view(r@[j])
                == (b58_encode(ix.accounts@[j].key@), ix.accounts@[j].is_signer),
        decreases ix.accounts@.len() - i,
    {
        let meta = ix.accounts[i];
        r.push(CompactAccountMeta { pubkey: to_base58(meta.key.as_slice()), is_signer: meta.is_signer });
        i = i + 1;
    }
    r
}

/// Builds the system program's transfer of `lamports` from `from` to `to`.
/// An address that does not parse is reported, `from` first, with its message
/// base64-encoded into `instruction_data`.
pub fn send_sol(payload: SendSolRequest) -> (r: ApiSuccessResponse<SolInstructionResponse>)
    ensures
        address_of(payload.from@) is None ==> sol_failed(r, "Invalid 'from' pubkey"),
        address_of(payload.from@) is Some && address_of(payload.to@) is None
            ==> sol_failed(r, "Invalid 'to' pubkey"),
        address_of(payload.from@) is Some && address_of(payload.to@) is Some ==> {
            &&& r.success
            &&& r.data.program_id@ == b58_encode(system_program_id())
            &&& texts(r.data.accounts@) == seq![
                b58_encode(address_of(payload.from@)->0),
                b58_encode(address_of(payload.to@)->0),
            ]
            &&& texts(r.data.accounts@) == seq![payload.from@, payload.to@]
            &&& r.data.instruction_data@ == b64_encode(sol_transfer_data(payload.lamports))
            &&& b64_decode(r.data.instruction_data@) == Some(sol_transfer_data(payload.lamports))
        },
{
    let from = match parse_address(payload.from.as_str()) {
        Some(k) => k,
        None => return sol_failure("Invalid 'from' pubkey"),
    };
    let to = match parse_address(payload.to.as_str()) {
        Some(k) => k,
        None => return sol_failure("Invalid 'to' pubkey"),
    };
    let ix = system_transfer(from, to, payload.lamports);
    let accounts = account_texts(&ix);
    assert(texts(accounts@) =~= seq![b58_encode(from@), b58_encode(to@)]);
    ApiSuccessResponse {
        success: true,
        data: SolInstructionResponse {
            program_id: to_base58(ix.program_id.as_slice()),
            accounts,
            instruction_data: to_base64(ix.data.as_slice()),
        },
    }
}

/// Builds the token program's checked transfer of `amount` from the owner's
/// account to `destination`, signed by the owner, with the decimals fixed at
/// six. An address that does not parse is reported, in the order destination,
/// mint, owner, with its message base64-encoded into `instruction_data`.
pub fn send_token(payload: SendTokenRequest) -> (r: ApiSuccessResponse<TokenInstructionResponse>)
    ensures
        address_of(payload.destination@) is None ==> token_failed(r, "Invalid destination pubkey"),
        address_of(payload.destination@) is Some && address_of(payload.mint@) is None
            ==> token_failed(r, "Invalid mint pubkey"),
        address_of(payload.destination@) is Some && address_of(payload.mint@) is Some
            && address_of(payload.owner@) is None ==> token_failed(r, "Invalid owner pubkey"),
        address_of(payload.destination@) is Some && address_of(payload.mint@) is Some
            && address_of(payload.owner@) is Some ==> {
            let owner = payload.owner@;
            &&& r.success
            &&& r.data.program_id@ == b58_encode(token_program_id())
            &&& r.data.accounts@.map_values(|m: CompactAccountMeta| compact_view(m)) == seq![
                (owner, false),
                (payload.mint@, false),
                (payload.destination@, false),
                (owner, true),
            ]
            &&& r.data.instruction_data@ == b64_encode(token_transfer_data(payload.amount))
            &&& b64_decode(r.data.instruction_data@) == Some(token_transfer_data(payload.amount))
        },
{
    let destination = match parse_address(payload.destination.as_str()) {
        Some(k) => k,
        None => return token_failure("Invalid destination pubkey"),
    };
    let mint = match parse_address(payload.mint.as_str()) {
        Some(k) => k,
        None => return token_failure("Invalid mint pubkey"),
    };
    let owner = match parse_address(payload.owner.as_str()) {
        Some(k) => k,
        None => return token_failure("Invalid owner pubkey"),
    };
    let ix = match token_transfer_checked(owner, mint, destination, owner, payload.amount, TRANSFER_DECIMALS) {
        Ok(ix) => ix,
        Err(e) => return token_failure(e.as_str()),
    };
    let accounts = compact_accounts(&ix);
    assert(accounts@.map_values(|m: CompactAccountMeta| compact_view(m)) =~= seq![
        (b58_encode(owner@), false),
        (b58_encode(mint@), false),
        (b58_encode(destination@), false),
        (b58_encode(owner@), true),
    ]);
    ApiSuccessResponse {
        success: true,
        data: TokenInstructionResponse {
            program_id: to_base58(ix.program_id.as_slice()),
            accounts,
            instruction_data: to_base64(ix.data.as_slice()),
        },
    }
}

/// A failure envelope around an error text.
pub fn error_response(msg: &str) -> (r: ApiSuccessResponse<ApiErrorResponse>)
    ensures
        !r.success,
        !r.data.success,
        r.data.error@ == msg@,
{
    ApiSuccessResponse {
        success: false,
        data: ApiErrorResponse { success: false, error: msg.to_string() },
    }
}

} // verus!
