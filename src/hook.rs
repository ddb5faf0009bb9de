//! The amount check of a transfer hook that vets every transfer of a mint,
//! and the account-count check of its generic instruction entry point.

use vstd::prelude::*;
use crate::pool::Address;
use spl_transfer_hook_interface::instruction::TransferHookInstruction;

verus! {

/// Whole tokens above which a single transfer is refused.
pub const MAX_WHOLE_TOKENS: u64 = 1000000;

/// Accounts that an execute instruction must carry: source, mint, destination,
/// owner, and the extra-account list.
pub const EXECUTE_ACCOUNT_COUNT: usize = 5;

/// Why the hook refuses a transfer.
#[derive(Debug, Clone, Copy, PartialEq, Eq, Structural)]
pub enum TransferHookError {
    InvalidAmount,
    AmountTooLarge,
    SourceNotWhitelisted,
    DestinationNotWhitelisted,
}

/// Notification emitted for each transfer the hook lets through.
#[derive(Debug, Clone, Copy, PartialEq, Eq)]
pub struct TransferValidated {
    pub mint: Address,
    pub source: Address,
    pub destination: Address,
    pub amount: u64,
}

/// A decoded transfer-hook instruction.
#[derive(Debug, Clone, Copy, PartialEq, Eq, Structural)]
pub enum HookInstruction {
    Execute { amount: u64 },
    InitializeExtraAccountMetaList,
    UpdateExtraAccountMetaList,
}

/// Why the generic entry point refuses an instruction.
#[derive(Debug, Clone, Copy, PartialEq, Eq, Structural)]
pub enum FallbackError {
    /// A list instruction declares more entries than it holds.
    InvalidInstruction,
    /// The interface refused the bytes, with this error code.
    Decode(u64),
    /// An execute instruction moves nothing.
    InvalidAmount,
    /// An execute instruction came with too few accounts.
    NotEnoughAccountKeys,
}

/// Discriminator of the execute instruction.
pub const EXECUTE_DISCRIMINATOR: [u8; 8] = [105, 37, 101, 197, 75, 251, 102, 26];

/// The interface's error code for bytes that are no instruction.
pub const INVALID_INSTRUCTION_DATA_CODE: u64 = 12884901888;

/// The interface's error code for a list body too short for one entry.
pub const BUFFER_TOO_SMALL_CODE: u64 = 1;

/// The interface's error code for a list body that is no whole number of entries.
pub const BUFFER_TOO_LARGE_CODE: u64 = 2;

/// Discriminator of the instruction that initializes the extra-account list.
pub const INITIALIZE_LIST_DISCRIMINATOR: [u8; 8] = [43, 34, 13, 49, 167, 88, 235, 235];

/// Discriminator of the instruction that replaces the extra-account list.
pub const UPDATE_LIST_DISCRIMINATOR: [u8; 8] = [157, 105, 42, 146, 102, 85, 241, 174];

/// Bytes of one encoded extra-account entry: a kind byte, a 32-byte address
/// configuration, and the signer and writable flags.
pub const EXTRA_ACCOUNT_META_SIZE: usize = 35;

/// Bytes before the entries of an encoded list: the discriminator and a
/// little-endian `u32` count.
pub const LIST_HEADER_SIZE: usize = 12;

/// The little-endian value of four bytes.
pub open spec fn le_u32(b: Seq<u8>) -> int {
    b[0] + 256 * b[1] + 65536 * b[2] + 16777216 * b[3]
}

/// Whether `data` is a list instruction whose entries fill its body exactly
/// but fall short of the count it declares.
pub open spec fn list_count_overruns(data: Seq<u8>) -> bool {
    &&& data.len() >= LIST_HEADER_SIZE
    &&& (data.subrange(0, 8) == INITIALIZE_LIST_DISCRIMINATOR@ || data.subrange(0, 8)
        == UPDATE_LIST_DISCRIMINATOR@)
    &&& (data.len() - LIST_HEADER_SIZE) % (EXTRA_ACCOUNT_META_SIZE as int) == 0
    &&& le_u32(data.subrange(8, 12)) > (data.len() - LIST_HEADER_SIZE) / (
    EXTRA_ACCOUNT_META_SIZE as int)
}

/// Whether `data` starts with the discriminator `d`.
fn starts_with(data: &[u8], d: &[u8; 8]) -> (r: bool)
    requires
        data@.len() >= 8,
    ensures
        r == (data@.subrange(0, 8) == d@),
{
    let mut i: usize = 0;
    while i < 8
        invariant
            i <= 8,
            data@.len() >= 8,
            forall|j: int| 0 <= j < i ==> data@[j] == d@[j],
        decreases 8 - i,
    {
        if data[i] != d[i] {
            assert(data@.subrange(0, 8)[i as int] != d@[i as int]);
            return false;
        }
        i = i + 1;
    }
    assert(data@.subrange(0, 8) =~= d@);
    true
}

/// Executable form of `list_count_overruns`.
fn declared_count_overruns(data: &[u8]) -> (r: bool)
    ensures
        r == list_count_overruns(data@),
{
    if data.len() < LIST_HEADER_SIZE {
        return false;
    }
    if !(starts_with(data, &INITIALIZE_LIST_DISCRIMINATOR) || starts_with(
        data,
        &UPDATE_LIST_DISCRIMINATOR,
    )) {
        return false;
    }
    let body = data.len() - LIST_HEADER_SIZE;
    if body % EXTRA_ACCOUNT_META_SIZE != 0 {
        return false;
    }
    let count: u64 = data[8] as u64 + 256 * (data[9] as u64) + 65536 * (data[10] as u64)
        + 16777216 * (data[11] as u64);
    proof {
        let h = data@.subrange(8, 12);
        assert(h[0] == data@[8] && h[1] == data@[9] && h[2] == data@[10] && h[3] == data@[11]);
    }
    count > (body / EXTRA_ACCOUNT_META_SIZE) as u64
}

/// The little-endian value of eight bytes.
pub open spec fn le_u64(b: Seq<u8>) -> int {
    b[0] + 256 * b[1] + 65536 * b[2] + 16777216 * b[3] + 4294967296 * b[4] + 1099511627776 * b[5]
        + 281474976710656 * b[6] + 72057594037927936 * b[7]
}

/// What the transfer-hook interface decodes from `data`: the instruction its
/// discriminator names, or the interface's error code. An execute instruction
/// carries its amount in the eight bytes after the discriminator; a list
/// instruction needs its 4-byte count and a body of whole 35-byte entries.
pub open spec fn decode_of(data: Seq<u8>) -> Result<HookInstruction, u64> {
    let body = data.len() - LIST_HEADER_SIZE;
    if data.len() < 8 {
        Err(INVALID_INSTRUCTION_DATA_CODE)
    } else if data.subrange(0, 8) == EXECUTE_DISCRIMINATOR@ {
        if data.len() >= 16 {
            Ok(HookInstruction::Execute { amount: le_u64(data.subrange(8, 16)) as u64 })
        } else {
            Err(INVALID_INSTRUCTION_DATA_CODE)
        }
    } else if data.subrange(0, 8) == INITIALIZE_LIST_DISCRIMINATOR@ || data.subrange(0, 8)
        == UPDATE_LIST_DISCRIMINATOR@ {
        if data.len() < LIST_HEADER_SIZE || body < EXTRA_ACCOUNT_META_SIZE && body != 0 {
            Err(BUFFER_TOO_SMALL_CODE)
        } else if body % (EXTRA_ACCOUNT_META_SIZE as int) != 0 {
            Err(BUFFER_TOO_LARGE_CODE)
        } else if data.subrange(0, 8) == INITIALIZE_LIST_DISCRIMINATOR@ {
            Ok(HookInstruction::InitializeExtraAccountMetaList)
        } else {
            Ok(HookInstruction::UpdateExtraAccountMetaList)
        }
    } else {
        Err(INVALID_INSTRUCTION_DATA_CODE)
    }
}

/// Relies on spl_transfer_hook_interface's `TransferHookInstruction::unpack`,
/// which decodes as `decode_of` states; its error is handed on as its `u64`
/// code. The account lists of the two list instructions are not kept. It
/// panics on a list whose declared count exceeds its entries (`PodSlice::data`
/// slices by that count), so such bytes are left out.
#[verifier::external_body]
fn unpack_hook_instruction(data: &[u8]) -> (r: Result<HookInstruction, u64>)
    requires
        !list_count_overruns(data@),
    ensures
        r == decode_of(data@),
{
    match TransferHookInstruction::unpack(data) {
        Ok(TransferHookInstruction::Execute { amount }) => Ok(HookInstruction::Execute { amount }),
        Ok(TransferHookInstruction::InitializeExtraAccountMetaList { .. }) => {
            Ok(HookInstruction::InitializeExtraAccountMetaList)
        },
        Ok(TransferHookInstruction::UpdateExtraAccountMetaList { .. }) => {
            Ok(HookInstruction::UpdateExtraAccountMetaList)
        },
        Err(e) => Err(u64::from(e)),
    }
}

/// What the generic entry point answers to a decoded instruction.
pub open spec fn dispatch_of(instruction: HookInstruction, account_count: int) -> Result<
    (),
    FallbackError,
> {
    if instruction is Execute && account_count < EXECUTE_ACCOUNT_COUNT {
        Err(FallbackError::NotEnoughAccountKeys)
    } else if instruction is Execute && instruction->Execute_amount == 0 {
        Err(FallbackError::InvalidAmount)
    } else {
        Ok(())
    }
}

/// `10^n`.
pub open spec fn pow10(n: nat) -> int
    decreases n,
{
    if n == 0 {
        1
    } else {
        10 * pow10((n - 1) as nat)
    }
}

/// The largest transfer allowed for a mint with `decimals` decimal places:
/// a million whole tokens, in base units.
pub open spec fn transfer_limit(decimals: nat) -> int {
    MAX_WHOLE_TOKENS * pow10(decimals)
}

proof fn lemma_pow10_positive(n: nat)
    ensures
        pow10(n) >= 1,
    decreases n,
{
    if n > 0 {
        lemma_pow10_positive((n - 1) as nat);
    }
}

/// Whether `amount` base units are within `transfer_limit(decimals)`. The limit
/// is built up one decimal at a time and stops growing once it passes every
/// 64-bit amount.
fn within_limit(amount: u64, decimals: u8) -> (r: bool)
    ensures
        r == (amount <= transfer_limit(decimals as nat)),
{
    let mut limit: u64 = MAX_WHOLE_TOKENS;
    let mut i: u8 = 0;
    while i < decimals
        invariant
            i <= decimals,
            limit == transfer_limit(i as nat),
        decreases decimals - i,
    {
        if limit > u64::MAX / 10 {
            proof {
                lemma_limit_grows(i as nat, decimals as nat);
            }
            return true;
        }
        limit = limit * 10;
        i = i + 1;
    }
    amount <= limit
}

proof fn lemma_limit_grows(i: nat, n: nat)
    requires
        i < n,
        transfer_limit(i) > u64::MAX / 10,
    ensures
        transfer_limit(n) > u64::MAX,
    decreases n - i,
{
    if i + 1 < n {
        lemma_limit_grows(i + 1, n);
    }
    lemma_pow10_positive(i);
    lemma_pow10_monotone(i + 1, n);
}

proof fn lemma_pow10_monotone(i: nat, n: nat)
    requires
        i <= n,
    ensures
        pow10(i) <= pow10(n),
    decreases n - i,
{
    if i < n {
        lemma_pow10_monotone(i, (n - 1) as nat);
        lemma_pow10_positive((n - 1) as nat);
    }
}

/// Vets one transfer of `amount` base units of a mint with `decimals` decimal
/// places: refuses nothing moved (`InvalidAmount`) and more than a million whole
/// tokens (`AmountTooLarge`); every other transfer passes, and its notice is
/// returned.
pub fn transfer_hook(
    mint: Address,
    source: Address,
    destination: Address,
    amount: u64,
    decimals: u8,
) -> (r: Result<TransferValidated, TransferHookError>)
    ensures
        amount == 0 ==> r == Err::<TransferValidated, TransferHookError>(
            TransferHookError::InvalidAmount,
        ),
        amount > 0 && amount > transfer_limit(decimals as nat) ==> r == Err::<
            TransferValidated,
            TransferHookError,
        >(TransferHookError::AmountTooLarge),
        amount > 0 && amount <= transfer_limit(decimals as nat) ==> r == Ok::<
            TransferValidated,
            TransferHookError,
        >(TransferValidated { mint, source, destination, amount }),
{
    if amount == 0 {
        return Err(TransferHookError::InvalidAmount);
    }
    if !within_limit(amount, decimals) {
        return Err(TransferHookError::AmountTooLarge);
    }
    Ok(TransferValidated { mint, source, destination, amount })
}

/// The generic entry point, once its instruction is decoded: an execute
/// instruction with fewer than `EXECUTE_ACCOUNT_COUNT` accounts is refused with
/// `NotEnoughAccountKeys`, whatever its amount; one that has its accounts but
/// moves nothing is refused with `InvalidAmount`. The list-management
/// instructions are accepted as they come.
pub fn dispatch_hook_instruction(instruction: HookInstruction, account_count: usize) -> (r: Result<
    (),
    FallbackError,
>)
    ensures
        r == dispatch_of(instruction, account_count as int),
{
    match instruction {
        HookInstruction::Execute { amount } => {
            if account_count < EXECUTE_ACCOUNT_COUNT {
                Err(FallbackError::NotEnoughAccountKeys)
            } else if amount == 0 {
                Err(FallbackError::InvalidAmount)
            } else {
                Ok(())
            }
        },
        HookInstruction::InitializeExtraAccountMetaList => Ok(()),
        HookInstruction::UpdateExtraAccountMetaList => Ok(()),
    }
}

/// The generic entry point of the hook: decodes `data` and answers it for a
/// call that carried `account_count` accounts, returning the instruction it
/// accepted. Bytes that the interface refuses give its error code in
/// `Decode`; lists that declare more entries than they hold are refused with
/// `InvalidInstruction`.
pub fn fallback(data: &[u8], account_count: usize) -> (r: Result<HookInstruction, FallbackError>)
    ensures
        list_count_overruns(data@) ==> r == Err::<HookInstruction, FallbackError>(
            FallbackError::InvalidInstruction,
        ),
        !list_count_overruns(data@) ==> match decode_of(data@) {
            Ok(instruction) => match dispatch_of(instruction, account_count as int) {
                Ok(_) => r == Ok::<HookInstruction, FallbackError>(instruction),
                Err(e) => r == Err::<HookInstruction, FallbackError>(e),
            },
            Err(code) => r == Err::<HookInstruction, FallbackError>(FallbackError::Decode(code)),
        },
{
    if declared_count_overruns(data) {
        return Err(FallbackError::InvalidInstruction);
    }
    match unpack_hook_instruction(data) {
        Ok(instruction) => match dispatch_hook_instruction(instruction, account_count) {
            Ok(()) => Ok(instruction),
            Err(e) => Err(e),
        },
        Err(code) => Err(FallbackError::Decode(code)),
    }
}

} // verus!
