use vstd::prelude::*;

use crate::address::{
    derive_vault_address, keys_equal, seeds_view, vault_address_of, vault_signer_seeds,
    vault_signer_seeds_for,
};
use crate::error::VaultError;
use crate::instruction::{decode, encode, lemma_decode_bijective, VaultInstruction};

verus! {

/// What the vault reads of an account that the host passes in.
#[derive(Clone, Copy, Debug)]
pub struct AccountState {
    pub key: [u8; 32],
    pub is_signer: bool,
    pub lamports: u64,
}

/// A native transfer that the host is asked to perform. The three indices
/// point into the invocation's account list; the accounts are handed to the
/// transfer in the order source, destination, provider.
#[derive(Debug)]
pub struct Transfer {
    /// The debited account.
    pub source: usize,
    /// The credited account.
    pub destination: usize,
    /// The native-transfer provider (the system program).
    pub provider: usize,
    pub lamports: u64,
    /// The seeds with which the program signs for the source, when the
    /// source is the vault rather than a signer of the transaction.
    pub signer_seeds: Option<Vec<Vec<u8>>>,
}

/// The mathematical content of a `Transfer`.
pub struct TransferModel {
    pub source: int,
    pub destination: int,
    pub provider: int,
    pub lamports: u64,
    pub signer_seeds: Option<Seq<Seq<u8>>>,
}

impl View for Transfer {
    type V = TransferModel;

    open spec fn view(&self) -> TransferModel {
        TransferModel {
            source: self.source as int,
            destination: self.destination as int,
            provider: self.provider as int,
            lamports: self.lamports,
            signer_seeds: match self.signer_seeds {
                Some(s) => Some(seeds_view(s@)),
                None => None,
            },
        }
    }
}

/// The mathematical content of a handler's result.
pub open spec fn result_view(r: Result<Transfer, VaultError>) -> Result<TransferModel, VaultError> {
    match r {
        Ok(t) => Ok(t@),
        Err(e) => Err(e),
    }
}

/// The account checks shared by both instructions, in order: three accounts,
/// a signing user, and a vault account at the user's derived address. On
/// success, the vault's bump seed.
pub open spec fn check_accounts(program: Seq<u8>, accounts: Seq<AccountState>) -> Result<u8, VaultError> {
    if accounts.len() < 3 {
        Err(VaultError::NotEnoughAccountKeys)
    } else if !accounts[0].is_signer {
        Err(VaultError::MissingRequiredSignature)
    } else {
        match vault_address_of(accounts[0].key@, program) {
            Some((vault, bump)) => if accounts[1].key@ == vault {
                Ok(bump)
            } else {
                Err(VaultError::InvalidSeeds)
            },
            None => Err(VaultError::InvalidSeeds),
        }
    }
}

/// What a deposit asks of the host: the user pays the vault, and the user's
/// own signature is the authority.
pub open spec fn deposit_outcome(program: Seq<u8>, accounts: Seq<AccountState>, amount: u64) -> Result<TransferModel, VaultError> {
    match check_accounts(program, accounts) {
        Ok(_) => Ok(
            TransferModel { source: 0, destination: 1, provider: 2, lamports: amount, signer_seeds: None },
        ),
        Err(e) => Err(e),
    }
}

/// What a withdrawal asks of the host: the vault pays the user, once the
/// vault is seen to hold the amount, and the program signs for the vault.
pub open spec fn withdraw_outcome(program: Seq<u8>, accounts: Seq<AccountState>, amount: u64) -> Result<TransferModel, VaultError> {
    match check_accounts(program, accounts) {
        Ok(bump) => if accounts[1].lamports < amount {
            Err(VaultError::InsufficientFunds)
        } else {
            Ok(
                TransferModel {
                    source: 1,
                    destination: 0,
                    provider: 2,
                    lamports: amount,
                    signer_seeds: Some(vault_signer_seeds(accounts[0].key@, bump)),
                },
            )
        },
        Err(e) => Err(e),
    }
}

/// What an invocation asks of the host.
pub open spec fn outcome(program: Seq<u8>, accounts: Seq<AccountState>, data: Seq<u8>) -> Result<TransferModel, VaultError> {
    match decode(data) {
        Some(VaultInstruction::Deposit { amount }) => deposit_outcome(program, accounts, amount),
        Some(VaultInstruction::Withdraw { amount }) => withdraw_outcome(program, accounts, amount),
        None => Err(VaultError::InvalidInstructionData),
    }
}

/// Checks the account roles for either instruction and returns the vault's
/// bump seed.
pub fn check_vault_accounts(program_id: &[u8; 32], accounts: &[AccountState]) -> (r: Result<u8, VaultError>)
    ensures
        r == check_accounts(program_id@, accounts@),
{
    if accounts.len() < 3 {
        return Err(VaultError::NotEnoughAccountKeys);
    }
    let user = &accounts[0];
    let vault = &accounts[1];
    if !user.is_signer {
        return Err(VaultError::MissingRequiredSignature);
    }
    match derive_vault_address(&user.key, program_id) {
        Some((address, bump)) => {
            if keys_equal(&address, &vault.key) {
                Ok(bump)
            } else {
                Err(VaultError::InvalidSeeds)
            }
        },
        None => Err(VaultError::InvalidSeeds),
    }
}

/// Handles a deposit of `amount` lamports.
pub fn process_deposit(program_id: &[u8; 32], accounts: &[AccountState], amount: u64) -> (r: Result<Transfer, VaultError>)
    ensures
        result_view(r) == deposit_outcome(program_id@, accounts@, amount),
{
    match check_vault_accounts(program_id, accounts) {
        Ok(_) => Ok(Transfer { source: 0, destination: 1, provider: 2, lamports: amount, signer_seeds: None }),
        Err(e) => Err(e),
    }
}

/// Handles a withdrawal of `amount` lamports.
pub fn process_withdraw(program_id: &[u8; 32], accounts: &[AccountState], amount: u64) -> (r: Result<Transfer, VaultError>)
    ensures
        result_view(r) == withdraw_outcome(program_id@, accounts@, amount),
{
    match check_vault_accounts(program_id, accounts) {
        Ok(bump) => {
            if accounts[1].lamports < amount {
                return Err(VaultError::InsufficientFunds);
            }
            let seeds = vault_signer_seeds_for(&accounts[0].key, bump);
            Ok(Transfer { source: 1, destination: 0, provider: 2, lamports: amount, signer_seeds: Some(seeds) })
        },
        Err(e) => Err(e),
    }
}

/// Decodes an instruction and hands it to its handler.
pub fn process_instruction(program_id: &[u8; 32], accounts: &[AccountState], instruction_data: &[u8]) -> (r: Result<Transfer, VaultError>)
    ensures
        result_view(r) == outcome(program_id@, accounts@, instruction_data@),
{
    match VaultInstruction::try_from_slice(instruction_data) {
        Ok(VaultInstruction::Deposit { amount }) => process_deposit(program_id, accounts, amount),
        Ok(VaultInstruction::Withdraw { amount }) => process_withdraw(program_id, accounts, amount),
        Err(e) => Err(e),
    }
}

/// An invocation whose user account does not sign is refused with
/// `MissingRequiredSignature`, so no transfer is requested and the vault's
/// balance stays as it was. (A malformed payload or a short account list is
/// refused earlier, with its own error.)
pub proof fn lemma_unsigned_refused(program: Seq<u8>, accounts: Seq<AccountState>, data: Seq<u8>)
    requires
        decode(data) is Some,
        accounts.len() >= 3,
        !accounts[0].is_signer,
    ensures
        outcome(program, accounts, data) == Err::<TransferModel, VaultError>(
            VaultError::MissingRequiredSignature,
        ),
{
}

/// A signed invocation whose second account is not the user's derived vault
/// is refused with `InvalidSeeds`, and no transfer is requested.
pub proof fn lemma_wrong_vault_refused(program: Seq<u8>, accounts: Seq<AccountState>, data: Seq<u8>)
    requires
        decode(data) is Some,
        accounts.len() >= 3,
        accounts[0].is_signer,
        !(vault_address_of(accounts[0].key@, program) matches Some((v, _)) && v == accounts[1].key@),
    ensures
        outcome(program, accounts, data) == Err::<TransferModel, VaultError>(VaultError::InvalidSeeds),
{
}

/// A withdrawal of more than the vault holds, with the accounts otherwise in
/// order, is refused with `InsufficientFunds`, and no transfer is requested.
pub proof fn lemma_overdraw_refused(program: Seq<u8>, accounts: Seq<AccountState>, amount: u64)
    requires
        check_accounts(program, accounts) is Ok,
        amount > accounts[1].lamports,
    ensures
        outcome(program, accounts, encode(VaultInstruction::Withdraw { amount }))
            == Err::<TransferModel, VaultError>(VaultError::InsufficientFunds),
{
    lemma_decode_bijective(VaultInstruction::Withdraw { amount }, encode(VaultInstruction::Withdraw { amount }));
}

} // verus!
