use vstd::prelude::*;

use crate::address::vault_address_of;
use crate::instruction::{encode, lemma_decode_bijective, VaultInstruction};
use crate::processor::{outcome, AccountState, TransferModel};

verus! {

/// The vault's balance once the host has carried out a requested transfer:
/// account 1 of the invocation is the vault.
pub open spec fn vault_balance_after(t: TransferModel, balance: int) -> int {
    if t.destination == 1 {
        balance + t.lamports
    } else if t.source == 1 {
        balance - t.lamports
    } else {
        balance
    }
}

/// The account list of an invocation by a signing user on a vault that
/// holds `balance`.
pub open spec fn invocation(
    user: [u8; 32],
    user_lamports: u64,
    vault: [u8; 32],
    balance: u64,
    provider: [u8; 32],
) -> Seq<AccountState> {
    seq![
        AccountState { key: user, is_signer: true, lamports: user_lamports },
        AccountState { key: vault, is_signer: false, lamports: balance },
        AccountState { key: provider, is_signer: false, lamports: 0 },
    ]
}

/// The vault's balance after the user sends `ops` in turn, each one encoded,
/// starting from `balance`; a refused instruction leaves it as it was.
pub open spec fn run_vault(
    program: Seq<u8>,
    user: [u8; 32],
    user_lamports: u64,
    vault: [u8; 32],
    provider: [u8; 32],
    balance: int,
    ops: Seq<VaultInstruction>,
) -> int
    decreases ops.len(),
{
    if ops.len() == 0 || balance < 0 || balance > u64::MAX {
        balance
    } else {
        let accounts = invocation(user, user_lamports, vault, balance as u64, provider);
        let next = match outcome(program, accounts, encode(ops[0])) {
            Ok(t) => vault_balance_after(t, balance),
            Err(_) => balance,
        };
        run_vault(program, user, user_lamports, vault, provider, next, ops.subrange(1, ops.len() as int))
    }
}

/// What an instruction adds to the vault.
pub open spec fn flow(op: VaultInstruction) -> int {
    match op {
        VaultInstruction::Deposit { amount } => amount as int,
        VaultInstruction::Withdraw { amount } => -(amount as int),
    }
}

/// The sum of the deposits less the sum of the withdrawals.
pub open spec fn net_flow(ops: Seq<VaultInstruction>) -> int
    decreases ops.len(),
{
    if ops.len() == 0 {
        0
    } else {
        flow(ops[0]) + net_flow(ops.subrange(1, ops.len() as int))
    }
}

/// Every withdrawal is covered by the balance before it, and no balance
/// along the way leaves the range of a lamport count.
pub open spec fn covered(balance: int, ops: Seq<VaultInstruction>) -> bool
    decreases ops.len(),
{
    ops.len() == 0 || (0 <= balance + flow(ops[0]) <= u64::MAX && covered(
        balance + flow(ops[0]),
        ops.subrange(1, ops.len() as int),
    ))
}

/// Deposits and withdrawals interleaved in any order, with every withdrawal
/// covered, leave the vault holding its starting balance plus the deposits
/// less the withdrawals.
pub proof fn lemma_balance_is_net_flow(
    program: Seq<u8>,
    user: [u8; 32],
    user_lamports: u64,
    vault: [u8; 32],
    provider: [u8; 32],
    balance: int,
    ops: Seq<VaultInstruction>,
)
    requires
        vault_address_of(user@, program) matches Some((v, _)) && v == vault@,
        0 <= balance <= u64::MAX,
        covered(balance, ops),
    ensures
        run_vault(program, user, user_lamports, vault, provider, balance, ops) == balance + net_flow(ops),
    decreases ops.len(),
{
    if ops.len() > 0 {
        let op = ops[0];
        lemma_decode_bijective(op, encode(op));
        let rest = ops.subrange(1, ops.len() as int);
        lemma_balance_is_net_flow(program, user, user_lamports, vault, provider, balance + flow(op), rest);
    }
}

} // verus!
