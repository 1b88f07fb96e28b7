use solana_sdk::signer::Signer;
use vstd::prelude::*;

verus! {

/// Whether a byte string is a well-formed signing credential: exactly the
/// byte strings that solana_sdk's `Keypair::from_bytes` recovers a keypair
/// from (64 bytes whose second half is the public key of the first half).
pub uninterp spec fn credential_ok(c: Seq<u8>) -> bool;

/// The base58 public-key string that solana_sdk derives from a signing
/// credential; a function of the credential bytes alone.
pub uninterp spec fn pubkey_of(c: Seq<u8>) -> Seq<char>;

/// Relies on solana_sdk's `Keypair::from_bytes` and `Signer::pubkey`:
/// recovery succeeds exactly on well-formed keypair bytes, and the derived
/// public key is a function of those bytes alone.
#[verifier::external_body]
pub(crate) fn derive_pubkey(credential: &Vec<u8>) -> (r: Option<String>)
    ensures
        r is Some <==> credential_ok(credential@),
        r matches Some(p) ==> p@ == pubkey_of(credential@),
{
    match solana_sdk::signature::Keypair::from_bytes(credential) {
        Ok(keypair) => Some(keypair.pubkey().to_string()),
        Err(_) => None,
    }
}

#[verifier::external_type_specification]
#[verifier::external_body]
pub struct ExTransaction(solana_sdk::transaction::Transaction);

/// Relies on solana_sdk's `Keypair::from_bytes`, `Message::new` and
/// `Transaction::new`: recovering the keypair succeeds exactly on
/// well-formed keypair bytes, and signing the placeholder system
/// instruction over the given anchor value then cannot fail, since the
/// recovered keypair is the message's only required signer.
#[verifier::external_body]
pub(crate) fn sign_placeholder(credential: &Vec<u8>, anchor: &[u8; 32]) -> (r: Option<
    solana_sdk::transaction::Transaction,
>)
    ensures
        r is Some <==> credential_ok(credential@),
{
    let keypair = match solana_sdk::signature::Keypair::from_bytes(credential) {
        Ok(keypair) => keypair,
        Err(_) => return None,
    };
    let instruction = solana_sdk::instruction::Instruction {
        program_id: solana_sdk::system_program::id(),
        accounts: vec![],
        data: vec![],
    };
    let message = solana_sdk::message::Message::new(&[instruction], Some(&keypair.pubkey()));
    let hash = solana_sdk::hash::Hash::new_from_array(*anchor);
    Some(solana_sdk::transaction::Transaction::new(&[&keypair], message, hash))
}

} // verus!
