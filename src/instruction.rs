use vstd::prelude::*;
use vstd::arithmetic::div_mod::lemma_fundamental_div_mod_converse;

use crate::error::VaultError;

verus! {

/// An instruction understood by the vault.
#[derive(Clone, Copy, Debug, PartialEq, Eq, Structural)]
pub enum VaultInstruction {
    /// Move `amount` lamports from the user into the vault.
    /// Accounts: user (signer), vault (writable), system program.
    Deposit { amount: u64 },
    /// Move `amount` lamports from the vault back to the user.
    /// Accounts: user (signer), vault (writable), system program.
    Withdraw { amount: u64 },
}

/// Length of an encoded instruction: one tag byte and eight amount bytes.
pub const INSTRUCTION_LEN: usize = 9;

/// The value of a little-endian byte string.
pub open spec fn le_value(s: Seq<u8>) -> nat
    decreases s.len(),
{
    if s.len() == 0 {
        0
    } else {
        s[0] as nat + 256 * le_value(s.subrange(1, s.len() as int))
    }
}

/// The `n` low bytes of `x`, least significant first.
pub open spec fn le_bytes(x: nat, n: nat) -> Seq<u8>
    decreases n,
{
    if n == 0 {
        Seq::empty()
    } else {
        seq![(x % 256) as u8] + le_bytes(x / 256, (n - 1) as nat)
    }
}

/// The instruction that a byte string encodes, if any: a tag byte
/// (0 for a deposit, 1 for a withdrawal) followed by the amount as eight
/// little-endian bytes, and nothing after.
pub open spec fn decode(b: Seq<u8>) -> Option<VaultInstruction> {
    if b.len() != 9 {
        None
    } else {
        let amount = le_value(b.subrange(1, 9)) as u64;
        if b[0] == 0 {
            Some(VaultInstruction::Deposit { amount })
        } else if b[0] == 1 {
            Some(VaultInstruction::Withdraw { amount })
        } else {
            None
        }
    }
}

/// The byte string of an instruction.
pub open spec fn encode(i: VaultInstruction) -> Seq<u8> {
    match i {
        VaultInstruction::Deposit { amount } => seq![0u8] + le_bytes(amount as nat, 8),
        VaultInstruction::Withdraw { amount } => seq![1u8] + le_bytes(amount as nat, 8),
    }
}

/// Relies on borsh::from_slice::<u64>: it reads exactly eight bytes as a
/// little-endian integer and refuses any other length.
#[verifier::external_body]
fn read_u64_le(b: &[u8]) -> (r: Option<u64>)
    ensures
        r == (if b@.len() == 8 { Some(le_value(b@) as u64) } else { None::<u64> }),
{
    borsh::from_slice::<u64>(b).ok()
}

impl VaultInstruction {
    /// Decodes an instruction; any byte string that is not exactly an
    /// encoding is refused.
    pub fn try_from_slice(data: &[u8]) -> (r: Result<VaultInstruction, VaultError>)
        ensures
            r == (match decode(data@) {
                Some(i) => Ok(i),
                None => Err::<VaultInstruction, VaultError>(VaultError::InvalidInstructionData),
            }),
    {
        if data.len() != INSTRUCTION_LEN {
            return Err(VaultError::InvalidInstructionData);
        }
        let tag = data[0];
        if tag > 1 {
            return Err(VaultError::InvalidInstructionData);
        }
        let amount = match read_u64_le(vstd::slice::slice_subrange(data, 1, INSTRUCTION_LEN)) {
            Some(a) => a,
            None => {
                return Err(VaultError::InvalidInstructionData);
            },
        };
        if tag == 0 {
            Ok(VaultInstruction::Deposit { amount })
        } else {
            Ok(VaultInstruction::Withdraw { amount })
        }
    }

    /// The amount of lamports that the instruction moves.
    pub fn amount(&self) -> (r: u64)
        ensures
            r == self.spec_amount(),
    {
        match self {
            VaultInstruction::Deposit { amount } => *amount,
            VaultInstruction::Withdraw { amount } => *amount,
        }
    }

    pub open spec fn spec_amount(self) -> u64 {
        match self {
            VaultInstruction::Deposit { amount } => amount,
            VaultInstruction::Withdraw { amount } => amount,
        }
    }
}

/// `n` little-endian bytes have a value below `256^n`, and are the bytes of
/// that value.
pub proof fn lemma_le_value_bytes(s: Seq<u8>)
    ensures
        le_value(s) < pow256(s.len() as nat),
        le_bytes(le_value(s), s.len() as nat) == s,
    decreases s.len(),
{
    if s.len() > 0 {
        let rest = s.subrange(1, s.len() as int);
        lemma_le_value_bytes(rest);
        let v = le_value(s);
        lemma_fundamental_div_mod_converse(v as int, 256, le_value(rest) as int, s[0] as int);
        assert(le_bytes(v, s.len() as nat) =~= s);
        assert(v < pow256(s.len() as nat)) by (nonlinear_arith)
            requires
                v == s[0] as nat + 256 * le_value(rest),
                s[0] < 256,
                le_value(rest) < pow256(rest.len() as nat),
                pow256(s.len() as nat) == 256 * pow256(rest.len() as nat),
        ;
    }
}

/// `256^n`.
pub open spec fn pow256(n: nat) -> nat
    decreases n,
{
    if n == 0 {
        1
    } else {
        256 * pow256((n - 1) as nat)
    }
}

/// The `n` bytes of a value below `256^n` read back as that value.
pub proof fn lemma_bytes_le_value(x: nat, n: nat)
    requires
        x < pow256(n),
    ensures
        le_bytes(x, n).len() == n,
        le_value(le_bytes(x, n)) == x,
    decreases n,
{
    if n > 0 {
        assert(x / 256 < pow256((n - 1) as nat)) by (nonlinear_arith)
            requires
                x < pow256(n),
                pow256(n) == 256 * pow256((n - 1) as nat),
        ;
        lemma_bytes_le_value(x / 256, (n - 1) as nat);
        let b = le_bytes(x, n);
        assert(b.subrange(1, b.len() as int) =~= le_bytes(x / 256, (n - 1) as nat));
        assert(x == (x % 256) + 256 * (x / 256)) by (nonlinear_arith);
    }
}

/// Decoding is a bijection between encodings and instructions: every
/// instruction's encoding decodes to it, and a byte string that decodes to an
/// instruction is that instruction's encoding.
pub proof fn lemma_decode_bijective(i: VaultInstruction, b: Seq<u8>)
    ensures
        decode(encode(i)) == Some(i),
        decode(b) == Some(i) <==> b == encode(i),
{
    reveal_with_fuel(pow256, 9);
    assert(pow256(8) == 0x1_0000_0000_0000_0000nat);
    lemma_bytes_le_value(i.spec_amount() as nat, 8);
    let e = encode(i);
    assert(e.subrange(1, 9) =~= le_bytes(i.spec_amount() as nat, 8));
    if decode(b) == Some(i) {
        let tail = b.subrange(1, 9);
        lemma_le_value_bytes(tail);
        assert(b =~= e);
    }
}

} // verus!
