//! The operation surface: creation, the two closure paths, and
//! introspection, each over the accounts it touches.

use vstd::prelude::*;

use crate::derivation;
use crate::derivation::derivation_available;
use crate::derivation::derived_address;
use crate::derivation::domain_tag;
use crate::derivation::MAX_SEED_LEN;
use crate::errors::ErrorCode;
use crate::handles::addr_eq;
use crate::handles::zero_filled;
use crate::handles::zeroed;
use crate::handles::CheckedAccount;
use crate::handles::RawAccountHandle;
use crate::record::DynamicPdaAccount;
use crate::record::MAX_DATA_LEN;

verus! {

/// Accounts touched by [`initialize`]: none.
#[derive(Clone, Debug)]
pub struct Initialize {}

/// Accounts touched by [`create_dynamic_pda`]: the creating caller, whose
/// identity becomes the new record's authority. The created account itself
/// is the operation's result.
#[derive(Clone, Debug)]
pub struct CreateDynamicPda {
    /// Identity of the caller requesting the creation.
    pub user: [u8; 32],
}

/// Accounts touched by [`close_dynamic_pda`]: the target account as an
/// opaque handle, and the recipient of its balance.
#[derive(Clone, Debug)]
pub struct CloseDynamicPda {
    /// The account believed to correspond to the caller's seed.
    pub pda_account: RawAccountHandle,
    /// The account that receives the drained balance.
    pub receiver: RawAccountHandle,
}

/// Accounts read by [`get_pda_info`]: one validated account.
#[derive(Clone, Debug)]
pub struct GetPdaInfo {
    /// The account whose record is reported.
    pub pda_account: CheckedAccount,
}

/// Accounts touched by [`close_normal_pda_invalid`]: a statically bound
/// account and the would-be recipient.
#[derive(Clone, Debug)]
pub struct CloseNormalPdaInvalid {
    /// The account, already validated by the binding layer.
    pub pda_account: CheckedAccount,
    /// The account that would have received the balance.
    pub receiver: RawAccountHandle,
}

/// Start-up entry point. Nothing to establish: the program identity is
/// configuration the environment threads into every later call.
pub fn initialize(_ctx: &Initialize) -> (r: Result<(), ErrorCode>)
    ensures
        r == Ok::<(), ErrorCode>(()),
{
    Ok(())
}

/// Create a new account at the address derived from `seed`, recording the
/// seed, the payload and the caller as authority. The environment funds the
/// allocation with `funded_lamports`.
pub fn create_dynamic_pda(
    ctx: &CreateDynamicPda,
    program_id: &[u8; 32],
    seed: Vec<u8>,
    data: Vec<u8>,
    funded_lamports: u64,
) -> (r: Result<CheckedAccount, ErrorCode>)
    requires
        data@.len() <= MAX_DATA_LEN,
    ensures
        seed@.len() > MAX_SEED_LEN ==> r == Err::<CheckedAccount, ErrorCode>(
            ErrorCode::SeedTooLong,
        ),
        seed@.len() <= MAX_SEED_LEN && !derivation_available(program_id@, domain_tag(), seed@)
            ==> r == Err::<CheckedAccount, ErrorCode>(ErrorCode::NoViableBump),
        seed@.len() <= MAX_SEED_LEN && derivation_available(program_id@, domain_tag(), seed@) ==> (
        r matches Ok(acc) && acc.address@ == derived_address(program_id@, domain_tag(), seed@)
            && acc.lamports == funded_lamports && acc.record.seed@ == seed@ && acc.record.data@
            == data@ && acc.record.authority == ctx.user && acc.wf() && acc.validated_for(
            program_id@,
        )),
{
    let (address, _bump) = match derivation::derive(program_id, &seed) {
        Ok(p) => p,
        Err(e) => { return Err(e) },
    };
    Ok(
        CheckedAccount {
            address,
            lamports: funded_lamports,
            record: DynamicPdaAccount { seed, data, authority: ctx.user },
        },
    )
}

/// The outcome the dynamic closure owes for given inputs: rejection of an
/// over-long seed, of a seed whose derivation matches no usable address, of
/// a seed that does not reproduce the target address, or of a drain that
/// would overflow the recipient's balance; success otherwise.
pub open spec fn close_dynamic_result(
    program_id: Seq<u8>,
    seed: Seq<u8>,
    pda_address: Seq<u8>,
    pda_lamports: u64,
    receiver_lamports: u64,
) -> Result<(), ErrorCode> {
    if seed.len() > MAX_SEED_LEN {
        Err(ErrorCode::SeedTooLong)
    } else if !derivation_available(program_id, domain_tag(), seed) {
        Err(ErrorCode::NoViableBump)
    } else if derived_address(program_id, domain_tag(), seed) != pda_address {
        Err(ErrorCode::InvalidPdaAddress)
    } else if receiver_lamports + pda_lamports > u64::MAX {
        Err(ErrorCode::ArithmeticOverflow)
    } else {
        Ok(())
    }
}

/// Close an account reached as an opaque handle. The sole authorization
/// check is re-deriving the address from `seed`: on a match, the account's
/// whole balance moves to the receiver and its bytes are zeroed; on any
/// failure, nothing is mutated.
pub fn close_dynamic_pda(ctx: &mut CloseDynamicPda, program_id: &[u8; 32], seed: &Vec<u8>) -> (r:
    Result<(), ErrorCode>)
    ensures
        r == close_dynamic_result(
            program_id@,
            seed@,
            old(ctx).pda_account.address@,
            old(ctx).pda_account.lamports,
            old(ctx).receiver.lamports,
        ),
        r is Err ==> *final(ctx) == *old(ctx),
        r is Ok ==> final(ctx).pda_account.lamports == 0 && final(ctx).receiver.lamports == old(
            ctx,
        ).receiver.lamports + old(ctx).pda_account.lamports && final(ctx).pda_account.data@
            == zero_filled(old(ctx).pda_account.data@.len()),
        final(ctx).pda_account.address == old(ctx).pda_account.address,
        final(ctx).receiver.address == old(ctx).receiver.address,
        final(ctx).receiver.data == old(ctx).receiver.data,
{
    let expected = match derivation::derive(program_id, seed) {
        Ok(p) => p.0,
        Err(e) => { return Err(e) },
    };
    if !addr_eq(&expected, &ctx.pda_account.address) {
        return Err(ErrorCode::InvalidPdaAddress);
    }
    let amount = ctx.pda_account.lamports;
    let raised = match ctx.receiver.lamports.checked_add(amount) {
        Some(v) => v,
        None => { return Err(ErrorCode::ArithmeticOverflow) },
    };
    ctx.pda_account.lamports = 0;
    ctx.receiver.lamports = raised;
    let len = ctx.pda_account.data.len();
    ctx.pda_account.data = zeroed(len);
    Ok(())
}

/// Report a validated account's record: its seed, payload and authority.
/// Read-only.
pub fn get_pda_info(ctx: &GetPdaInfo) -> (r: (&Vec<u8>, &Vec<u8>, &[u8; 32]))
    ensures
        r.0@ == ctx.pda_account.record.seed@,
        r.1@ == ctx.pda_account.record.data@,
        r.2@ == ctx.pda_account.record.authority@,
{
    (&ctx.pda_account.record.seed, &ctx.pda_account.record.data, &ctx.pda_account.record.authority)
}

/// Attempt the manual closure sequence on a statically bound account. The
/// binding layer validated this account before the body ran and keeps
/// exclusive control of its balance and bytes, so the first direct
/// mutation is refused and nothing changes.
pub fn close_normal_pda_invalid(ctx: &mut CloseNormalPdaInvalid, _seed: &Vec<u8>) -> (r: Result<
    (),
    ErrorCode,
>)
    ensures
        r == Err::<(), ErrorCode>(ErrorCode::DirectMutationForbidden),
        *final(ctx) == *old(ctx),
{
    let _balance = ctx.pda_account.lamports;
    match ctx.pda_account.try_set_lamports(0) {
        Ok(_) => Err(ErrorCode::DirectMutationForbidden),
        Err(e) => Err(e),
    }
}

/// Creating then closing with the same seed succeeds: an account whose
/// address came from `seed` passes the dynamic closure's authorization
/// check, so the closure is owed success whenever the drain cannot
/// overflow the recipient's balance.
pub proof fn lemma_close_after_create(
    program_id: Seq<u8>,
    seed: Seq<u8>,
    pda_address: Seq<u8>,
    pda_lamports: u64,
    receiver_lamports: u64,
)
    requires
        seed.len() <= MAX_SEED_LEN,
        derivation_available(program_id, domain_tag(), seed),
        pda_address == derived_address(program_id, domain_tag(), seed),
        receiver_lamports + pda_lamports <= u64::MAX,
    ensures
        close_dynamic_result(program_id, seed, pda_address, pda_lamports, receiver_lamports)
            == Ok::<(), ErrorCode>(()),
{
}

/// A mismatched seed is rejected: whenever the seed's derivation does not
/// reproduce the target address, the dynamic closure is owed exactly
/// `InvalidPdaAddress` — and by the closure's own contract a rejected call
/// mutates neither balance nor bytes.
pub proof fn lemma_close_mismatched_seed_rejected(
    program_id: Seq<u8>,
    seed: Seq<u8>,
    pda_address: Seq<u8>,
    pda_lamports: u64,
    receiver_lamports: u64,
)
    requires
        seed.len() <= MAX_SEED_LEN,
        derivation_available(program_id, domain_tag(), seed),
        pda_address != derived_address(program_id, domain_tag(), seed),
    ensures
        close_dynamic_result(program_id, seed, pda_address, pda_lamports, receiver_lamports)
            == Err::<(), ErrorCode>(ErrorCode::InvalidPdaAddress),
{
}

} // verus!
