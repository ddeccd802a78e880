pub mod datastore;
pub mod error;
pub mod lease;
pub mod machine_id;
pub mod time;

pub use datastore::Firestore;
pub use error::{Error, Result};
pub use lease::Lease;
