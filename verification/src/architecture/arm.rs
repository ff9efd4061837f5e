//! ARM debug: CoreSight components and the transactions that program them.

pub mod armv6m;
pub mod capture;
pub mod component;
pub mod procedure;
pub mod romtable;
pub mod swo;
pub mod transaction;

pub use self::swo::{SwoConfig, SwoMode};
pub use self::transaction::Transaction;
