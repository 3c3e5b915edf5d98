//! Work-order lifecycle, inventory reservation ledger, role-scoped projection
//! and field-level audit trail of a firewood bank, as verified functions on
//! plain values. Reading and writing the entity store is left to the caller.

pub mod assignees;
pub mod audit;
pub mod client;
pub mod client_list;
pub mod drivers;
pub mod error;
pub mod event_list;
pub mod ident;
pub mod inventory;
pub mod invoice;
pub mod order_list;
pub mod quantity;
pub mod records;
pub mod role;
pub mod status;
pub mod text;
pub mod users;
pub mod work_order;
