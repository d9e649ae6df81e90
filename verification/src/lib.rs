//! Verified state logic of the Callora vault: initialisation, configuration
//! setters, two-step admin transfer, depositor allow-list and the read views,
//! modelled over the vault's instance storage.

mod address;
mod admin;
mod byte_map;
pub mod calls;
mod depositors;
pub mod laws;
pub mod model;
mod offerings;
mod types;
mod vault;

pub use address::{bytes_eq, copy_bytes, Address};
pub use byte_map::ByteMap;
pub use types::{
    duplicate_opt, DeductItem, MetaModel, Receipt, StorageKey, VaultError, VaultEvent,
    VaultMeta, WithdrawEventData, DEFAULT_MAX_DEDUCT, DEFAULT_MIN_DEPOSIT, MAX_BATCH_SIZE,
    MAX_METADATA_LEN, MAX_OFFERING_ID_LEN,
};
pub use vault::CalloraVault;
pub use depositors::{copy_list, list_contains};
pub use offerings::is_valid_price;
