use solana_sdk::instruction::{AccountMeta, Instruction};
use solana_sdk::pubkey::Pubkey;
use solana_sdk::signer::keypair::Keypair;
use solana_sdk::transaction::Transaction;
use vstd::prelude::*;

use crate::instructions::{
    associated_address_of, create_token_instructions, is_create_account,
    is_create_associated_account, is_initialize_mint, is_mint_to, mint_account_size,
    mint_token_instructions, token_program_key, InstructionView, LedgerInstruction,
};
use crate::keys::PublicKey;
use crate::signing::KeyPair;

verus! {

#[verifier::external_type_specification]
#[verifier::external_body]
pub struct ExTransaction(Transaction);

/// The transaction that the ledger SDK compiles from `instructions` with the
/// payer's key as fee payer, signs with the payer's secret and the co-signer's
/// secret (if any), and stamps with `blockhash`.
pub uninterp spec fn signed_transaction_of(
    instructions: Seq<InstructionView>,
    payer_secret: Seq<u8>,
    co_signer_secret: Option<Seq<u8>>,
    blockhash: Seq<u8>,
) -> Transaction;

/// The instructions of `ixs`, as plain values.
pub open spec fn views_of(ixs: Seq<LedgerInstruction>) -> Seq<InstructionView> {
    ixs.map_values(|ix: LedgerInstruction| ix@)
}

/// Some instruction of `ixs` names `key` as a signer.
pub open spec fn is_required_signer(ixs: Seq<LedgerInstruction>, key: Seq<u8>) -> bool {
    exists|i: int, j: int|
        0 <= i < ixs.len() && 0 <= j < ixs[i].accounts@.len() && #[trigger] ixs[i].accounts@[j].is_signer
            && ixs[i].accounts@[j].pubkey@ == key
}

/// The keys that sign are exactly the payer and the signers that the instructions name.
pub open spec fn signers_match(
    ixs: Seq<LedgerInstruction>,
    payer: Seq<u8>,
    co_signer: Option<Seq<u8>>,
) -> bool {
    &&& forall|i: int, j: int|
        0 <= i < ixs.len() && 0 <= j < ixs[i].accounts@.len() && #[trigger] ixs[i].accounts@[j].is_signer
            ==> ixs[i].accounts@[j].pubkey@ == payer || co_signer == Some(
            ixs[i].accounts@[j].pubkey@,
        )
    &&& co_signer matches Some(k) ==> k == payer || is_required_signer(ixs, k)
}

/// The secret of the second signer, if there is one.
pub open spec fn co_signer_secret(co_signer: Option<&KeyPair>) -> Option<Seq<u8>> {
    match co_signer {
        Some(k) => Some(k.secret_view()),
        None => None,
    }
}

/// The public key of the second signer, if there is one.
pub open spec fn co_signer_key(co_signer: Option<&KeyPair>) -> Option<Seq<u8>> {
    match co_signer {
        Some(k) => Some(k.public_view()),
        None => None,
    }
}

/// Moves an instruction of the library into the ledger SDK's type.
#[verifier::external_body]
fn to_sdk(ix: &LedgerInstruction) -> Instruction {
    let accounts = ix.accounts.iter().map(|a| AccountMeta {
        pubkey: Pubkey::from(a.pubkey.bytes),
        is_signer: a.is_signer,
        is_writable: a.is_writable,
    }).collect();
    Instruction { program_id: Pubkey::from(ix.program_id.bytes), accounts, data: ix.data.clone() }
}

/// Relies on `Transaction::new_signed_with_payer`, which panics unless the keys
/// given sign for exactly the payer and every signer that the instructions name.
/// Message compilation and ed25519 signing are deterministic, so the result
/// depends on the instructions, the secrets and the blockhash alone.
#[verifier::external_body]
fn sdk_signed_transaction(
    ixs: &Vec<LedgerInstruction>,
    payer: &KeyPair,
    co_signer: Option<&KeyPair>,
    blockhash: [u8; 32],
) -> (r: Transaction)
    requires
        payer.wf(),
        co_signer matches Some(k) ==> k.wf(),
        signers_match(ixs@, payer.public_view(), co_signer_key(co_signer)),
    ensures
        r == signed_transaction_of(
            views_of(ixs@),
            payer.secret_view(),
            co_signer_secret(co_signer),
            blockhash@,
        ),
{
    let ixs: Vec<Instruction> = ixs.iter().map(to_sdk).collect();
    let mut keys = vec![Keypair::new_from_array(payer.secret)];
    if let Some(k) = co_signer { keys.push(Keypair::new_from_array(k.secret)); }
    let payer_key = Pubkey::from(payer.public);
    Transaction::new_signed_with_payer(&ixs, Some(&payer_key), &keys, solana_sdk::hash::Hash::new_from_array(blockhash))
}

/// The signed transaction that creates `mint` as a token mint, paid by `payer`:
/// the account creation, then the mint's initialisation, signed by `payer` and
/// `mint`, stamped with `blockhash`.
pub fn create_token_transaction(
    payer: &KeyPair,
    mint: &KeyPair,
    mint_authority: PublicKey,
    decimals: u8,
    rent_lamports: u64,
    blockhash: [u8; 32],
) -> (r: Transaction)
    requires
        payer.wf(),
        mint.wf(),
    ensures
        exists|ixs: Seq<InstructionView>|
            ixs.len() == 2 && is_create_account(
                ixs[0],
                payer.public_view(),
                mint.public_view(),
                rent_lamports,
                mint_account_size(),
                token_program_key(),
            ) && is_initialize_mint(ixs[1], mint.public_view(), mint_authority@, decimals) && r
                == #[trigger] signed_transaction_of(
                ixs,
                payer.secret_view(),
                Some(mint.secret_view()),
                blockhash@,
            ),
{
    let ixs = create_token_instructions(
        payer.public_key(),
        mint.public_key(),
        mint_authority,
        decimals,
        rent_lamports,
    );
    proof {
        let v = ixs@;
        assert(is_create_account(v[0]@, payer.public_view(), mint.public_view(), rent_lamports, mint_account_size(), token_program_key()));
        assert(is_initialize_mint(v[1]@, mint.public_view(), mint_authority@, decimals));
        assert(v[0].accounts@[1].is_signer && v[0].accounts@[1].pubkey@ == mint.public_view());
        assert(is_required_signer(v, mint.public_view()));
        assert forall|i: int, j: int|
            0 <= i < v.len() && 0 <= j < v[i].accounts@.len() && #[trigger] v[i].accounts@[j].is_signer
            implies v[i].accounts@[j].pubkey@ == payer.public_view() || Some(mint.public_view())
                == Some(v[i].accounts@[j].pubkey@) by {
            if i == 0 {
                assert(j == 0 || j == 1);
            } else {
                assert(i == 1);
                assert(j == 0 || j == 1);
            }
        }
    }
    let tx = sdk_signed_transaction(&ixs, payer, Some(mint), blockhash);
    proof {
        let views = views_of(ixs@);
        assert(views[0] == ixs@[0]@ && views[1] == ixs@[1]@);
    }
    tx
}

/// The signed transaction that creates the associated token account of
/// `destination` for `mint` and mints `amount` into it; `signer` pays and signs.
/// Returns the token account's address beside it. The transaction is signed by
/// `signer` alone and stamped with `blockhash`.
pub fn mint_token_transaction(
    signer: &KeyPair,
    mint: PublicKey,
    destination: PublicKey,
    authority: PublicKey,
    amount: u64,
    blockhash: [u8; 32],
) -> (r: (PublicKey, Transaction))
    requires
        signer.wf(),
    ensures
        r.0@ == associated_address_of(destination@, mint@, token_program_key()),
        exists|ixs: Seq<InstructionView>|
            ixs.len() == 2 && is_create_associated_account(
                ixs[0],
                signer.public_view(),
                destination@,
                mint@,
            ) && is_mint_to(ixs[1], mint@, r.0@, authority@, signer.public_view(), amount) && r.1
                == #[trigger] signed_transaction_of(ixs, signer.secret_view(), None, blockhash@),
{
    let (account, ixs) = mint_token_instructions(
        signer.public_key(),
        mint,
        destination,
        authority,
        amount,
    );
    proof {
        let v = ixs@;
        assert(is_create_associated_account(v[0]@, signer.public_view(), destination@, mint@));
        assert(is_mint_to(v[1]@, mint@, account@, authority@, signer.public_view(), amount));
        assert forall|i: int, j: int|
            0 <= i < v.len() && 0 <= j < v[i].accounts@.len() && #[trigger] v[i].accounts@[j].is_signer
            implies v[i].accounts@[j].pubkey@ == signer.public_view() || None::<Seq<u8>> == Some(
            v[i].accounts@[j].pubkey@,
        ) by {
            if i == 0 {
                assert(j == 0);
            } else {
                assert(i == 1);
                assert(j == 3);
            }
        }
    }
    let tx = sdk_signed_transaction(&ixs, signer, None, blockhash);
    proof {
        let views = views_of(ixs@);
        assert(views[0] == ixs@[0]@ && views[1] == ixs@[1]@);
    }
    (account, tx)
}

} // verus!
