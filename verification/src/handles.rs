//! Account handles: the two access disciplines over one storage shape.
//!
//! A [`RawAccountHandle`] is an opaque view of an allocated account — an
//! address, a balance and raw bytes — whose derivation must be re-checked
//! inside any operation that mutates it. A [`CheckedAccount`] was validated
//! by the binding layer ([`bind_checked`]) before the operation body runs;
//! the binding layer keeps exclusive control of its balance and bytes, so
//! direct mutation through it is refused.

use vstd::prelude::*;

use crate::derivation;
use crate::derivation::derivation_available;
use crate::derivation::derived_address;
use crate::derivation::domain_tag;
use crate::errors::ErrorCode;
use crate::record::encode_record;
use crate::record::record_bytes;
use crate::record::DynamicPdaAccount;

verus! {

/// A byte string of `len` zeroes.
pub open spec fn zero_filled(len: nat) -> Seq<u8> {
    Seq::new(len, |i: int| 0u8)
}

/// A zeroed byte vector of the given length.
pub fn zeroed(len: usize) -> (r: Vec<u8>)
    ensures
        r@ == zero_filled(len as nat),
{
    let mut v: Vec<u8> = Vec::new();
    let mut i: usize = 0;
    while i < len
        invariant
            i <= len,
            v@.len() == i,
            forall|k: int| 0 <= k < i ==> v@[k] == 0u8,
        decreases len - i,
    {
        v.push(0);
        i = i + 1;
    }
    proof {
        assert(v@ =~= zero_filled(len as nat));
    }
    v
}

/// Whether two addresses are the same 32 bytes.
pub fn addr_eq(a: &[u8; 32], b: &[u8; 32]) -> (r: bool)
    ensures
        r <==> a@ == b@,
{
    let mut i: usize = 0;
    while i < 32
        invariant
            i <= 32,
            forall|k: int| 0 <= k < i ==> a@[k] == b@[k],
        decreases 32 - i,
    {
        if a[i] != b[i] {
            return false;
        }
        i = i + 1;
    }
    proof {
        assert(a@ =~= b@);
    }
    true
}

/// An account reached as an opaque handle: its derivation has not been
/// checked, so its balance and bytes may be manipulated directly — but only
/// by an operation that first reproduces the derivation of its address.
#[derive(Clone, Debug)]
pub struct RawAccountHandle {
    /// The address the account lives at.
    pub address: [u8; 32],
    /// The account's backing balance.
    pub lamports: u64,
    /// The account's stored bytes.
    pub data: Vec<u8>,
}

/// An account the binding layer has already typed and validated against its
/// seed. Its record is readable, but its balance and bytes belong to the
/// binding layer's own sanctioned paths: direct mutation is refused.
#[derive(Clone, Debug)]
pub struct CheckedAccount {
    /// The address the account lives at.
    pub address: [u8; 32],
    /// The account's backing balance.
    pub lamports: u64,
    /// The typed record stored in the account.
    pub record: DynamicPdaAccount,
}

impl CheckedAccount {
    /// The record stays within its layout bounds.
    pub open spec fn wf(self) -> bool {
        self.record.wf()
    }

    /// The account's address is the one its own seed derives under this
    /// program identity — the invariant the binding layer established.
    pub open spec fn validated_for(self, program_id: Seq<u8>) -> bool {
        self.address@ == derived_address(program_id, domain_tag(), self.record.seed@)
    }

    /// Attempt to overwrite the balance directly. The binding layer owns
    /// this account's balance, so the attempt is always refused and the
    /// account is left untouched.
    pub fn try_set_lamports(&mut self, _amount: u64) -> (r: Result<(), ErrorCode>)
        ensures
            *final(self) == *old(self),
            r == Err::<(), ErrorCode>(ErrorCode::DirectMutationForbidden),
    {
        Err(ErrorCode::DirectMutationForbidden)
    }

    /// Attempt to zero the stored bytes directly. Refused for the same
    /// reason as [`Self::try_set_lamports`].
    pub fn try_wipe_data(&mut self) -> (r: Result<(), ErrorCode>)
        ensures
            *final(self) == *old(self),
            r == Err::<(), ErrorCode>(ErrorCode::DirectMutationForbidden),
    {
        Err(ErrorCode::DirectMutationForbidden)
    }

    /// Release the typed view: serialize the record back into raw bytes,
    /// yielding the opaque handle the environment stores.
    pub fn into_raw(self) -> (r: RawAccountHandle)
        requires
            self.wf(),
        ensures
            r.address == self.address,
            r.lamports == self.lamports,
            r.data@ == record_bytes(self.record),
    {
        let data = encode_record(&self.record);
        RawAccountHandle { address: self.address, lamports: self.lamports, data }
    }
}

/// The binding layer's validation step: before an operation body may treat
/// an account as statically bound, its address is re-derived from the
/// record's own seed and compared against the account's actual address.
pub fn bind_checked(
    program_id: &[u8; 32],
    address: [u8; 32],
    lamports: u64,
    record: DynamicPdaAccount,
) -> (r: Result<CheckedAccount, ErrorCode>)
    requires
        record.wf(),
    ensures
        !derivation_available(program_id@, domain_tag(), record.seed@) ==> r == Err::<
            CheckedAccount,
            ErrorCode,
        >(ErrorCode::NoViableBump),
        derivation_available(program_id@, domain_tag(), record.seed@) && derived_address(
            program_id@,
            domain_tag(),
            record.seed@,
        ) != address@ ==> r == Err::<CheckedAccount, ErrorCode>(ErrorCode::InvalidPdaAddress),
        derivation_available(program_id@, domain_tag(), record.seed@) && derived_address(
            program_id@,
            domain_tag(),
            record.seed@,
        ) == address@ ==> (r matches Ok(acc) && acc.address == address && acc.lamports == lamports
            && acc.record == record && acc.wf() && acc.validated_for(program_id@)),
{
    let expected = match derivation::derive(program_id, &record.seed) {
        Ok(p) => p.0,
        Err(e) => { return Err(e) },
    };
    if !addr_eq(&expected, &address) {
        return Err(ErrorCode::InvalidPdaAddress);
    }
    Ok(CheckedAccount { address, lamports, record })
}

} // verus!
