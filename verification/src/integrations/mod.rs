pub mod serde;
