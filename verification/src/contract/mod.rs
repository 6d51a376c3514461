//! Contract-side helpers: the provider interface and wallet value decryption.
pub mod provider;
pub mod random;
