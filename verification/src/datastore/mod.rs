pub mod probe;
pub mod scan;
pub mod store;

pub use self::store::Firestore;
