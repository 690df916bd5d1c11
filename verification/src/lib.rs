//! Deterministic-address account lifecycle manager.
//!
//! Storage accounts live at addresses derived from a program identity and a
//! caller-supplied seed. Only a caller that can reproduce the derivation may
//! close such an account; closing drains its balance to a recipient and
//! zeroes its stored bytes.

pub mod derivation;
mod errors;
mod handles;
mod ops;
mod record;

pub use derivation::derivation_available;
pub use derivation::derived_address;
pub use derivation::derived_bump;
pub use derivation::domain_tag;
pub use derivation::lemma_derivation_deterministic;
pub use derivation::MAX_SEED_LEN;
pub use errors::ErrorCode;
pub use handles::addr_eq;
pub use handles::bind_checked;
pub use handles::zero_filled;
pub use handles::zeroed;
pub use handles::CheckedAccount;
pub use handles::RawAccountHandle;
pub use ops::close_dynamic_pda;
pub use ops::close_dynamic_result;
pub use ops::close_normal_pda_invalid;
pub use ops::create_dynamic_pda;
pub use ops::get_pda_info;
pub use ops::initialize;
pub use ops::lemma_close_after_create;
pub use ops::lemma_close_mismatched_seed_rejected;
pub use ops::CloseDynamicPda;
pub use ops::CloseNormalPdaInvalid;
pub use ops::CreateDynamicPda;
pub use ops::GetPdaInfo;
pub use ops::Initialize;
pub use record::decode_record;
pub use record::encode_record;
pub use record::lemma_image_shape;
pub use record::lemma_record_bytes_injective;
pub use record::record_bytes;
pub use record::DynamicPdaAccount;
pub use record::MAX_DATA_LEN;
pub use record::METADATA_OVERHEAD;
pub use record::RECORD_SPACE;
