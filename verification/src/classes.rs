//! Typed records that decoded objects hold.
pub mod behaviour;
pub mod component;
pub mod p_ptr;
