//! Cost ("weight") estimation for the operations of a small storage module,
//! in the style of a blockchain runtime pallet.
//!
//! The crate has two halves:
//!
//! - [`scale`] holds the pure cost models (`Fixed`, `Linear`, `Quadratic`,
//!   `Conditional`). Each turns the parameters of a call into a saturating
//!   weight estimate, together with a fee flag and a dispatch class that an
//!   execution host reads before admitting the call.
//! - [`pallet`] holds the storage module itself: a single mutable `u32` slot
//!   and five operations over it, each paired with the dispatch information
//!   it declares to the host.
//!
//! Dispatching, fee charging and caller authentication belong to the host
//! runtime and are not modelled here; the host owns a [`pallet::Module`]
//! value and calls its operations one at a time.

pub mod pallet;
pub mod scale;
