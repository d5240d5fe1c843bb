//! The uniform envelope: every outcome is either `{ success: true, data }`
//! or `{ success: false, error }`, paired with a status.

use vstd::prelude::*;
use crate::encoding::{base58_encode, base64_encode, encode_base58, encode_base64};
use crate::error::{ApiError, StatusCode};
use crate::instruction::{AccountMeta, AccountMetaView, InstructionDescriptor, InstructionView};

verus! {

/// One participant of an instruction, as it goes on the wire.
#[derive(Clone, Debug, PartialEq, Eq)]
pub struct AccountEntry {
    pub pubkey: String,
    pub is_signer: bool,
    pub is_writable: bool,
}

/// The model of an `AccountEntry`.
pub struct AccountEntryView {
    pub pubkey: Seq<char>,
    pub is_signer: bool,
    pub is_writable: bool,
}

impl View for AccountEntry {
    type V = AccountEntryView;

    open spec fn view(&self) -> AccountEntryView {
        AccountEntryView {
            pubkey: self.pubkey@,
            is_signer: self.is_signer,
            is_writable: self.is_writable,
        }
    }
}

/// What a successful operation hands back.
#[derive(Clone, Debug, PartialEq, Eq)]
pub enum ResponseData {
    /// A fresh keypair: the public key and the 64-byte secret, both base-58.
    Keypair { pubkey: String, secret: String },
    /// An instruction: addresses in base-58, the payload in base-64.
    Instruction { program_id: String, accounts: Vec<AccountEntry>, instruction_data: String },
    /// A signature in base-64, the signer's public key, and the message.
    Signed { signature: String, public_key: String, message: String },
    /// The verdict on a signature, with the message and the key as given.
    Verified { valid: bool, message: String, pubkey: String },
}

/// The model of a `ResponseData`.
pub enum ResponseDataView {
    Keypair { pubkey: Seq<char>, secret: Seq<char> },
    Instruction {
        program_id: Seq<char>,
        accounts: Seq<AccountEntryView>,
        instruction_data: Seq<char>,
    },
    Signed { signature: Seq<char>, public_key: Seq<char>, message: Seq<char> },
    Verified { valid: bool, message: Seq<char>, pubkey: Seq<char> },
}

/// The models of a sequence of wire entries.
pub open spec fn entry_views(entries: Seq<AccountEntry>) -> Seq<AccountEntryView> {
    entries.map_values(|entry: AccountEntry| entry@)
}

impl View for ResponseData {
    type V = ResponseDataView;

    open spec fn view(&self) -> ResponseDataView {
        match *self {
            ResponseData::Keypair { pubkey, secret } => ResponseDataView::Keypair {
                pubkey: pubkey@,
                secret: secret@,
            },
            ResponseData::Instruction {
                program_id,
                accounts,
                instruction_data,
            } => ResponseDataView::Instruction {
                program_id: program_id@,
                accounts: entry_views(accounts@),
                instruction_data: instruction_data@,
            },
            ResponseData::Signed { signature, public_key, message } => ResponseDataView::Signed {
                signature: signature@,
                public_key: public_key@,
                message: message@,
            },
            ResponseData::Verified { valid, message, pubkey } => ResponseDataView::Verified {
                valid,
                message: message@,
                pubkey: pubkey@,
            },
        }
    }
}

/// The body of a success.
#[derive(Clone, Debug, PartialEq, Eq)]
pub struct SuccessResponse {
    pub success: bool,
    pub data: ResponseData,
}

/// The body of a failure.
#[derive(Clone, Debug, PartialEq, Eq)]
pub struct ErrorResponse {
    pub success: bool,
    pub error: String,
}

/// Either body.
#[derive(Clone, Debug, PartialEq, Eq)]
pub enum ResponseBody {
    Success(SuccessResponse),
    Error(ErrorResponse),
}

/// The model of a `ResponseBody`.
pub enum ResponseBodyView {
    Success { success: bool, data: ResponseDataView },
    Error { success: bool, error: Seq<char> },
}

impl View for ResponseBody {
    type V = ResponseBodyView;

    open spec fn view(&self) -> ResponseBodyView {
        match *self {
            ResponseBody::Success(body) => ResponseBodyView::Success {
                success: body.success,
                data: body.data@,
            },
            ResponseBody::Error(body) => ResponseBodyView::Error {
                success: body.success,
                error: body.error@,
            },
        }
    }
}

/// A status and the body that goes with it.
#[derive(Clone, Debug, PartialEq, Eq)]
pub struct Response {
    pub status: StatusCode,
    pub body: ResponseBody,
}

/// The model of a `Response`.
pub struct ResponseView {
    pub status: StatusCode,
    pub body: ResponseBodyView,
}

impl View for Response {
    type V = ResponseView;

    open spec fn view(&self) -> ResponseView {
        ResponseView { status: self.status, body: self.body@ }
    }
}

/// The response that carries `data`.
pub open spec fn success(data: ResponseDataView) -> ResponseView {
    ResponseView {
        status: StatusCode::Success,
        body: ResponseBodyView::Success { success: true, data },
    }
}

/// The response that reports `message` under `status`.
pub open spec fn failure(status: StatusCode, message: Seq<char>) -> ResponseView {
    ResponseView { status, body: ResponseBodyView::Error { success: false, error: message } }
}

/// Wraps the result of an operation.
pub fn success_response(data: ResponseData) -> (r: Response)
    ensures
        r@ == success(data@),
{
    Response {
        status: StatusCode::Success,
        body: ResponseBody::Success(SuccessResponse { success: true, data }),
    }
}

/// Wraps a failure. The payload holds the message and nothing else that
/// tells the kinds of failure apart.
pub fn error_response(status: StatusCode, message: &str) -> (r: Response)
    ensures
        r@ == failure(status, message@),
{
    Response {
        status,
        body: ResponseBody::Error(ErrorResponse { success: false, error: message.to_string() }),
    }
}

/// Wraps an error of the taxonomy: its own status, its own message.
pub fn failure_response(error: ApiError) -> (r: Response)
    ensures
        r@ == failure(error.spec_status(), error.spec_message()),
{
    let message: String = error.message();
    error_response(error.status(), message.as_str())
}

/// A participant as it goes on the wire: the address in base-58, the flags
/// as they are.
pub open spec fn rendered_account(meta: AccountMetaView) -> AccountEntryView {
    AccountEntryView {
        pubkey: base58_encode(meta.pubkey),
        is_signer: meta.is_signer,
        is_writable: meta.is_writable,
    }
}

/// An instruction as it goes on the wire: the accounts in their order, the
/// payload in base-64.
pub open spec fn rendered_instruction(ix: InstructionView) -> ResponseDataView {
    ResponseDataView::Instruction {
        program_id: base58_encode(ix.program_id),
        accounts: ix.accounts.map_values(|meta: AccountMetaView| rendered_account(meta)),
        instruction_data: base64_encode(ix.data),
    }
}

/// Renders one participant.
pub fn render_account(meta: &AccountMeta) -> (entry: AccountEntry)
    ensures
        entry@ == rendered_account(meta@),
{
    AccountEntry {
        pubkey: encode_base58(meta.pubkey.bytes.as_slice()),
        is_signer: meta.is_signer,
        is_writable: meta.is_writable,
    }
}

/// Renders an instruction for the wire.
pub fn render_instruction(ix: &InstructionDescriptor) -> (data: ResponseData)
    ensures
        data@ == rendered_instruction(ix@),
{
    let mut accounts: Vec<AccountEntry> = Vec::new();
    let mut i: usize = 0;
    while i < ix.accounts.len()
        invariant
            i <= ix.accounts@.len(),
            accounts@.len() == i,
            forall|j: int| 0 <= j < i ==> accounts@[j]@ == rendered_account(ix.accounts@[j]@),
        decreases ix.accounts@.len() - i,
    {
        accounts.push(render_account(&ix.accounts[i]));
        i = i + 1;
    }
    let data = ResponseData::Instruction {
        program_id: encode_base58(ix.program_id.bytes.as_slice()),
        accounts,
        instruction_data: encode_base64(ix.data.as_slice()),
    };
    proof {
        let want = ix@.accounts.map_values(|meta: AccountMetaView| rendered_account(meta));
        assert(entry_views(accounts@) =~= want);
    }
    data
}

} // verus!
