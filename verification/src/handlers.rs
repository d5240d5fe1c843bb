//! One operation per route: a typed request goes in, a response comes out.
//! The address fields of an instruction request are checked one after the
//! other in the order in which the request lists them; the first that fails
//! ends the operation with its own message, and nothing of a half-built
//! result is returned.

use vstd::prelude::*;
use vstd::utf8::encode_utf8;
use crate::address::{address_of_text, parse_address};
use crate::encoding::{
    base58_decode, base58_encode, base64_decode, base64_encode, decode_base58, decode_base64,
};
use crate::error::{ApiError, StatusCode};
use crate::instruction::{
    initialize_mint, initialize_mint_instruction, mint_to, mint_to_instruction, transfer_native,
    transfer_native_instruction, transfer_token, transfer_token_instruction, InstructionDescriptor,
};
use crate::keypair::{is_keypair_encoding, keypair_of_text, Keypair};
use crate::response::{
    error_response, failure, failure_response, render_instruction, rendered_instruction, success,
    success_response, Response, ResponseBodyView, ResponseData, ResponseDataView, ResponseView,
};
use crate::signature::{ed25519_signature, ed25519_verifies, sign, SIGNATURE_BYTES};

verus! {

/// Body of `POST /token/create`.
#[derive(Clone, Debug, PartialEq, Eq)]
pub struct CreateTokenRequest {
    pub mint: String,
    pub mint_authority: String,
    pub decimals: u8,
}

/// Body of `POST /token/mint`.
#[derive(Clone, Debug, PartialEq, Eq)]
pub struct MintTokenRequest {
    pub mint: String,
    pub destination: String,
    pub authority: String,
    pub amount: u64,
}

/// Body of `POST /message/sign`.
#[derive(Clone, Debug, PartialEq, Eq)]
pub struct SignMessageRequest {
    pub message: String,
    pub secret: String,
}

/// Body of `POST /message/verify`.
#[derive(Clone, Debug, PartialEq, Eq)]
pub struct VerifyMessageRequest {
    pub message: String,
    pub signature: String,
    pub pubkey: String,
}

/// Body of `POST /send/sol`.
#[derive(Clone, Debug, PartialEq, Eq)]
pub struct SendSolRequest {
    pub from: String,
    pub to: String,
    pub lamports: u64,
}

/// Body of `POST /send/token`.
#[derive(Clone, Debug, PartialEq, Eq)]
pub struct SendTokenRequest {
    pub destination: String,
    pub mint: String,
    pub owner: String,
    pub amount: u64,
}

/// The response to an assembly result: the rendered instruction, or the
/// generic server-side failure.
pub open spec fn assembly_response(r: Result<InstructionDescriptor, ApiError>) -> ResponseView {
    match r {
        Ok(ix) => success(rendered_instruction(ix@)),
        Err(e) => failure(e.spec_status(), e.spec_message()),
    }
}

/// Turns an assembly result into a response.
pub fn respond_with_instruction(r: Result<InstructionDescriptor, ApiError>) -> (response: Response)
    ensures
        response@ == assembly_response(r),
{
    match r {
        Ok(ix) => success_response(render_instruction(&ix)),
        Err(e) => failure_response(e),
    }
}

/// What `generate_keypair` may answer: success, with the public key and the
/// 64-byte secret of one keypair, each in text that parses back to it.
pub open spec fn is_keypair_response(response: ResponseView) -> bool {
    exists|bytes: Seq<u8>|
        #![trigger is_keypair_encoding(bytes)]
        {
            &&& is_keypair_encoding(bytes)
            &&& response == success(
                ResponseDataView::Keypair {
                    pubkey: base58_encode(bytes.subrange(32, 64)),
                    secret: base58_encode(bytes),
                },
            )
            &&& address_of_text(base58_encode(bytes.subrange(32, 64))) == Some(
                bytes.subrange(32, 64),
            )
            &&& keypair_of_text(base58_encode(bytes)) == Some(bytes)
        }
}

/// `POST /keypair`: a fresh keypair.
///
/// Never fails. The public key decodes to 32 bytes and the secret to 64, of
/// which the last 32 are the public key derived from the first 32.
pub fn generate_keypair() -> (response: Response)
    ensures
        is_keypair_response(response@),
{
    let keypair = crate::keypair::generate_keypair();
    let public = keypair.pubkey();
    let response = success_response(
        ResponseData::Keypair { pubkey: public.to_base58(), secret: keypair.to_base58() },
    );
    assert(is_keypair_encoding(keypair@));
    response
}

/// What `create_token` answers.
pub open spec fn create_token_response(
    mint: Seq<char>,
    mint_authority: Seq<char>,
    decimals: u8,
) -> ResponseView {
    if address_of_text(mint) is None {
        failure(StatusCode::BadRequest, "Invalid mint pubkey"@)
    } else if address_of_text(mint_authority) is None {
        failure(StatusCode::BadRequest, "Invalid mint_authority pubkey"@)
    } else {
        success(
            rendered_instruction(
                initialize_mint_instruction(
                    address_of_text(mint).unwrap(),
                    address_of_text(mint_authority).unwrap(),
                    decimals,
                ),
            ),
        )
    }
}

/// `POST /token/create`: the instruction that initializes a mint.
///
/// Checks `mint`, then `mint_authority`.
pub fn create_token(payload: &CreateTokenRequest) -> (response: Response)
    ensures
        response@ == create_token_response(
            payload.mint@,
            payload.mint_authority@,
            payload.decimals,
        ),
{
    let mint = match parse_address(payload.mint.as_str()) {
        Ok(address) => address,
        Err(_) => return error_response(StatusCode::BadRequest, "Invalid mint pubkey"),
    };
    let authority = match parse_address(payload.mint_authority.as_str()) {
        Ok(address) => address,
        Err(_) => return error_response(StatusCode::BadRequest, "Invalid mint_authority pubkey"),
    };
    respond_with_instruction(initialize_mint(&mint, &authority, payload.decimals))
}

/// What `mint_token` answers.
pub open spec fn mint_token_response(
    mint: Seq<char>,
    destination: Seq<char>,
    authority: Seq<char>,
    amount: u64,
) -> ResponseView {
    if address_of_text(mint) is None {
        failure(StatusCode::BadRequest, "Invalid mint pubkey"@)
    } else if address_of_text(destination) is None {
        failure(StatusCode::BadRequest, "Invalid destination pubkey"@)
    } else if address_of_text(authority) is None {
        failure(StatusCode::BadRequest, "Invalid authority pubkey"@)
    } else {
        success(
            rendered_instruction(
                mint_to_instruction(
                    address_of_text(mint).unwrap(),
                    address_of_text(destination).unwrap(),
                    address_of_text(authority).unwrap(),
                    amount,
                ),
            ),
        )
    }
}

/// `POST /token/mint`: the instruction that mints to a token account.
///
/// Checks `mint`, then `destination`, then `authority`. Any amount is
/// taken, zero too.
pub fn mint_token(payload: &MintTokenRequest) -> (response: Response)
    ensures
        response@ == mint_token_response(
            payload.mint@,
            payload.destination@,
            payload.authority@,
            payload.amount,
        ),
{
    let mint = match parse_address(payload.mint.as_str()) {
        Ok(address) => address,
        Err(_) => return error_response(StatusCode::BadRequest, "Invalid mint pubkey"),
    };
    let destination = match parse_address(payload.destination.as_str()) {
        Ok(address) => address,
        Err(_) => return error_response(StatusCode::BadRequest, "Invalid destination pubkey"),
    };
    let authority = match parse_address(payload.authority.as_str()) {
        Ok(address) => address,
        Err(_) => return error_response(StatusCode::BadRequest, "Invalid authority pubkey"),
    };
    respond_with_instruction(mint_to(&mint, &destination, &authority, payload.amount))
}

/// What `sign_message` answers.
pub open spec fn sign_message_response(message: Seq<char>, secret: Seq<char>) -> ResponseView {
    match base58_decode(secret) {
        None => failure(StatusCode::BadRequest, "Invalid secret key"@),
        Some(bytes) => if !is_keypair_encoding(bytes) {
            failure(StatusCode::BadRequest, "Invalid keypair"@)
        } else {
            success(
                ResponseDataView::Signed {
                    signature: base64_encode(
                        ed25519_signature(bytes.subrange(0, 32), encode_utf8(message)),
                    ),
                    public_key: base58_encode(bytes.subrange(32, 64)),
                    message,
                },
            )
        },
    }
}

/// Whether `response` is a signed answer whose texts read back: the
/// signature text decodes to the 64 bytes `signature`, and the key text
/// parses to `public`.
pub open spec fn is_signed_answer(
    response: ResponseView,
    public: Seq<u8>,
    signature: Seq<u8>,
) -> bool {
    &&& response.status == StatusCode::Success
    &&& response.body matches ResponseBodyView::Success { success, data }
    &&& success
    &&& data matches ResponseDataView::Signed { signature: signature_text, public_key, message }
    &&& base64_decode(signature_text) == Some(signature)
    &&& signature.len() == SIGNATURE_BYTES
    &&& address_of_text(public_key) == Some(public)
}

/// `POST /message/sign`: the signature of the message's UTF-8 bytes.
///
/// A secret that is not base-58 is refused with one message, one that does
/// not decode to a keypair with another. What is answered on success reads
/// back: the signature text as the 64 bytes of the signature, the key text
/// as the signer's public key.
pub fn sign_message(payload: &SignMessageRequest) -> (response: Response)
    ensures
        response@ == sign_message_response(payload.message@, payload.secret@),
        response@.body is Success ==> is_signed_answer(
            response@,
            base58_decode(payload.secret@).unwrap().subrange(32, 64),
            ed25519_signature(
                base58_decode(payload.secret@).unwrap().subrange(0, 32),
                encode_utf8(payload.message@),
            ),
        ),
{
    let secret_bytes = match decode_base58(payload.secret.as_str()) {
        Ok(bytes) => bytes,
        Err(_) => return error_response(StatusCode::BadRequest, "Invalid secret key"),
    };
    let keypair = match Keypair::from_bytes(secret_bytes.as_slice()) {
        Ok(keypair) => keypair,
        Err(_) => return error_response(StatusCode::BadRequest, "Invalid keypair"),
    };
    let signature = sign(&keypair, payload.message.as_str().as_bytes());
    let public = keypair.pubkey();
    success_response(
        ResponseData::Signed {
            signature: signature.to_base64(),
            public_key: public.to_base58(),
            message: payload.message.clone(),
        },
    )
}

/// What `verify_message` answers.
pub open spec fn verify_message_response(
    message: Seq<char>,
    signature: Seq<char>,
    pubkey: Seq<char>,
) -> ResponseView {
    match address_of_text(pubkey) {
        None => failure(StatusCode::BadRequest, "Invalid public key"@),
        Some(public) => match base64_decode(signature) {
            None => failure(StatusCode::BadRequest, "Invalid signature format"@),
            Some(bytes) => if bytes.len() != SIGNATURE_BYTES {
                failure(StatusCode::BadRequest, "Invalid signature length"@)
            } else {
                success(
                    ResponseDataView::Verified {
                        valid: ed25519_verifies(public, encode_utf8(message), bytes),
                        message,
                        pubkey,
                    },
                )
            },
        },
    }
}

/// `POST /message/verify`: the verdict on a signature.
///
/// Checks `pubkey`, then that `signature` is base-64, then that it decodes
/// to 64 bytes. A signature that is well formed and does not fit is a
/// success with `valid: false`.
pub fn verify_message(payload: &VerifyMessageRequest) -> (response: Response)
    ensures
        response@ == verify_message_response(
            payload.message@,
            payload.signature@,
            payload.pubkey@,
        ),
{
    let public = match parse_address(payload.pubkey.as_str()) {
        Ok(address) => address,
        Err(_) => return error_response(StatusCode::BadRequest, "Invalid public key"),
    };
    let signature_bytes = match decode_base64(payload.signature.as_str()) {
        Ok(bytes) => bytes,
        Err(_) => return error_response(StatusCode::BadRequest, "Invalid signature format"),
    };
    let message = payload.message.as_str().as_bytes();
    match crate::signature::verify(&public, message, signature_bytes.as_slice()) {
        Ok(valid) => success_response(
            ResponseData::Verified {
                valid,
                message: payload.message.clone(),
                pubkey: payload.pubkey.clone(),
            },
        ),
        Err(_) => error_response(StatusCode::BadRequest, "Invalid signature length"),
    }
}

/// What `send_sol` answers.
pub open spec fn send_sol_response(from: Seq<char>, to: Seq<char>, lamports: u64) -> ResponseView {
    if address_of_text(from) is None {
        failure(StatusCode::BadRequest, "Invalid from address"@)
    } else if address_of_text(to) is None {
        failure(StatusCode::BadRequest, "Invalid to address"@)
    } else {
        success(
            rendered_instruction(
                transfer_native_instruction(
                    address_of_text(from).unwrap(),
                    address_of_text(to).unwrap(),
                    lamports,
                ),
            ),
        )
    }
}

/// `POST /send/sol`: the instruction that moves lamports.
///
/// Checks `from`, then `to`. Any number of lamports is taken.
pub fn send_sol(payload: &SendSolRequest) -> (response: Response)
    ensures
        response@ == send_sol_response(payload.from@, payload.to@, payload.lamports),
{
    let from = match parse_address(payload.from.as_str()) {
        Ok(address) => address,
        Err(_) => return error_response(StatusCode::BadRequest, "Invalid from address"),
    };
    let to = match parse_address(payload.to.as_str()) {
        Ok(address) => address,
        Err(_) => return error_response(StatusCode::BadRequest, "Invalid to address"),
    };
    respond_with_instruction(transfer_native(&from, &to, payload.lamports))
}

/// What `send_token` answers.
pub open spec fn send_token_response(
    destination: Seq<char>,
    mint: Seq<char>,
    owner: Seq<char>,
    amount: u64,
) -> ResponseView {
    if address_of_text(destination) is None {
        failure(StatusCode::BadRequest, "Invalid destination address"@)
    } else if address_of_text(mint) is None {
        failure(StatusCode::BadRequest, "Invalid mint address"@)
    } else if address_of_text(owner) is None {
        failure(StatusCode::BadRequest, "Invalid owner address"@)
    } else {
        success(
            rendered_instruction(
                transfer_token_instruction(
                    address_of_text(owner).unwrap(),
                    address_of_text(destination).unwrap(),
                    address_of_text(owner).unwrap(),
                    amount,
                ),
            ),
        )
    }
}

/// `POST /send/token`: the instruction that moves tokens.
///
/// Checks `destination`, then `mint`, then `owner`, as the request lists
/// them. The mint must be an address and is not used further. The owner's address stands in for the
/// source token account: this operation does not derive the owner's token
/// account for the mint, so the instruction is right only where the owner's
/// address is itself the token account to draw from.
pub fn send_token(payload: &SendTokenRequest) -> (response: Response)
    ensures
        response@ == send_token_response(
            payload.destination@,
            payload.mint@,
            payload.owner@,
            payload.amount,
        ),
{
    let destination = match parse_address(payload.destination.as_str()) {
        Ok(address) => address,
        Err(_) => return error_response(StatusCode::BadRequest, "Invalid destination address"),
    };
    match parse_address(payload.mint.as_str()) {
        Ok(_) => {},
        Err(_) => return error_response(StatusCode::BadRequest, "Invalid mint address"),
    }
    let owner = match parse_address(payload.owner.as_str()) {
        Ok(address) => address,
        Err(_) => return error_response(StatusCode::BadRequest, "Invalid owner address"),
    };
    let source = owner;
    respond_with_instruction(transfer_token(&source, &destination, &owner, payload.amount))
}

/// Mint creation is refused exactly where an address field is malformed,
/// with the message of the first such field in checking order; a refusal
/// carries no data.
pub proof fn create_token_names_first_malformed_field(
    mint: Seq<char>,
    mint_authority: Seq<char>,
    decimals: u8,
)
    ensures
        address_of_text(mint) is None ==> create_token_response(mint, mint_authority, decimals)
            == failure(StatusCode::BadRequest, "Invalid mint pubkey"@),
        address_of_text(mint) is Some && address_of_text(mint_authority) is None
            ==> create_token_response(mint, mint_authority, decimals) == failure(
            StatusCode::BadRequest,
            "Invalid mint_authority pubkey"@,
        ),
        address_of_text(mint) is Some && address_of_text(mint_authority) is Some
            <==> create_token_response(mint, mint_authority, decimals).body is Success,
{
}

/// Minting is refused exactly where an address field is malformed, with the
/// message of the first such field in checking order; the amount plays no
/// part in it, so an amount of zero is taken.
pub proof fn mint_token_names_first_malformed_field(
    mint: Seq<char>,
    destination: Seq<char>,
    authority: Seq<char>,
    amount: u64,
)
    ensures
        address_of_text(mint) is None ==> mint_token_response(mint, destination, authority, amount)
            == failure(StatusCode::BadRequest, "Invalid mint pubkey"@),
        address_of_text(mint) is Some && address_of_text(destination) is None
            ==> mint_token_response(mint, destination, authority, amount) == failure(
            StatusCode::BadRequest,
            "Invalid destination pubkey"@,
        ),
        address_of_text(mint) is Some && address_of_text(destination) is Some && address_of_text(
            authority,
        ) is None ==> mint_token_response(mint, destination, authority, amount) == failure(
            StatusCode::BadRequest,
            "Invalid authority pubkey"@,
        ),
        address_of_text(mint) is Some && address_of_text(destination) is Some && address_of_text(
            authority,
        ) is Some <==> mint_token_response(mint, destination, authority, amount).body is Success,
        mint_token_response(mint, destination, authority, amount).body is Success
            <==> mint_token_response(mint, destination, authority, 0).body is Success,
{
}

/// A native transfer is refused exactly where an address field is
/// malformed, with the message of the first such field in checking order;
/// the lamports play no part in it, so zero lamports are taken.
pub proof fn send_sol_names_first_malformed_field(from: Seq<char>, to: Seq<char>, lamports: u64)
    ensures
        address_of_text(from) is None ==> send_sol_response(from, to, lamports) == failure(
            StatusCode::BadRequest,
            "Invalid from address"@,
        ),
        address_of_text(from) is Some && address_of_text(to) is None ==> send_sol_response(
            from,
            to,
            lamports,
        ) == failure(StatusCode::BadRequest, "Invalid to address"@),
        address_of_text(from) is Some && address_of_text(to) is Some <==> send_sol_response(
            from,
            to,
            lamports,
        ).body is Success,
        send_sol_response(from, to, lamports).body is Success <==> send_sol_response(
            from,
            to,
            0,
        ).body is Success,
{
}

/// A token transfer is refused exactly where an address field is malformed,
/// with the message of the first such field in checking order; the amount
/// plays no part in it, so an amount of zero is taken.
pub proof fn send_token_names_first_malformed_field(
    destination: Seq<char>,
    mint: Seq<char>,
    owner: Seq<char>,
    amount: u64,
)
    ensures
        address_of_text(destination) is None ==> send_token_response(
            destination,
            mint,
            owner,
            amount,
        ) == failure(StatusCode::BadRequest, "Invalid destination address"@),
        address_of_text(destination) is Some && address_of_text(mint) is None
            ==> send_token_response(destination, mint, owner, amount) == failure(
            StatusCode::BadRequest,
            "Invalid mint address"@,
        ),
        address_of_text(destination) is Some && address_of_text(mint) is Some && address_of_text(
            owner,
        ) is None ==> send_token_response(destination, mint, owner, amount) == failure(
            StatusCode::BadRequest,
            "Invalid owner address"@,
        ),
        address_of_text(destination) is Some && address_of_text(mint) is Some && address_of_text(
            owner,
        ) is Some <==> send_token_response(destination, mint, owner, amount).body is Success,
        send_token_response(destination, mint, owner, amount).body is Success
            <==> send_token_response(destination, mint, owner, 0).body is Success,
{
}

/// Where the signature field is no base-64 or holds another number of bytes
/// than 64, the answer is a refusal with a client-error status and never a
/// verdict, whatever the key and the message are.
pub proof fn verify_message_refuses_malformed_signature(
    message: Seq<char>,
    signature: Seq<char>,
    pubkey: Seq<char>,
)
    requires
        base64_decode(signature) matches Some(bytes) ==> bytes.len() != SIGNATURE_BYTES,
    ensures
        verify_message_response(message, signature, pubkey).body is Error,
        verify_message_response(message, signature, pubkey).status == StatusCode::BadRequest,
        address_of_text(pubkey) is Some ==> verify_message_response(message, signature, pubkey)
            == failure(
            StatusCode::BadRequest,
            if base64_decode(signature) is None {
                "Invalid signature format"@
            } else {
                "Invalid signature length"@
            },
        ),
{
}

/// A request with a well-formed key and a signature of 64 bytes is always
/// answered with a verdict, `valid: false` included: a signature that does
/// not fit is no error.
pub proof fn verify_message_answers_well_formed_request(
    message: Seq<char>,
    signature: Seq<char>,
    pubkey: Seq<char>,
)
    requires
        address_of_text(pubkey) is Some,
        base64_decode(signature) matches Some(bytes) && bytes.len() == SIGNATURE_BYTES,
    ensures
        verify_message_response(message, signature, pubkey) == success(
            ResponseDataView::Verified {
                valid: ed25519_verifies(
                    address_of_text(pubkey).unwrap(),
                    encode_utf8(message),
                    base64_decode(signature).unwrap(),
                ),
                message,
                pubkey,
            },
        ),
{
}

/// What `sign_message` answered is never refused by `verify_message`: with
/// the answer's signature text, any message and any well-formed key get a
/// verdict, the signed message under the answer's own key among them. A
/// changed message or another key is thus a matter of `valid`, not an
/// error. The verdict itself is the scheme's.
pub proof fn signed_answer_gets_a_verdict(
    response: ResponseView,
    public: Seq<u8>,
    signature: Seq<u8>,
    message: Seq<char>,
    pubkey: Seq<char>,
)
    requires
        is_signed_answer(response, public, signature),
    ensures
        address_of_text(pubkey) is Some ==> verify_message_response(
            message,
            response.body->Success_data->Signed_signature,
            pubkey,
        ) == success(
            ResponseDataView::Verified {
                valid: ed25519_verifies(
                    address_of_text(pubkey).unwrap(),
                    encode_utf8(message),
                    signature,
                ),
                message,
                pubkey,
            },
        ),
        verify_message_response(
            message,
            response.body->Success_data->Signed_signature,
            response.body->Success_data->Signed_public_key,
        ) == success(
            ResponseDataView::Verified {
                valid: ed25519_verifies(public, encode_utf8(message), signature),
                message,
                pubkey: response.body->Success_data->Signed_public_key,
            },
        ),
{
}

} // verus!
