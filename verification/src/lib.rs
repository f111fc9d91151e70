//! A multi-asset balance ledger: accounts create token collections, mint, burn
//! and transfer amounts within them, and delegate transfer rights to operators.

pub mod approvals;
pub mod balances;
pub mod laws;
pub mod model;
pub mod origin;
pub mod pair_map;
pub mod pallet;
pub mod registry;
pub mod transfer;
pub mod types;

pub use approvals::ApprovalStore;
pub use balances::BalanceLedger;
pub use model::{LedgerState, Outcome};
pub use origin::{ensure_root, ensure_signed, Origin};
pub use pallet::Pallet;
pub use registry::CollectionRegistry;
pub use transfer::apply_batch;
pub use types::{AccountId, Amount, CollectionId, Error, Event, EventView, Next};
