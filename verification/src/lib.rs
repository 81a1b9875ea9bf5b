//! `WeirdMutex<T>`: a wrapper that gives up shared access to a value in
//! exchange for being shareable itself.
//!
//! The wrapper holds one value and nothing else. Its accessors `get_mut` and
//! `get` take `&mut self`: whoever reads or writes the stored value holds
//! the wrapper exclusively for as long as the reference lives. No lock, no
//! flag and no counter is involved; the borrow checker is the
//! synchronisation. That discipline is what allows embedding code to declare
//! the wrapper `Sync` for every `T`.
//!
//! The contracts are stated over the wrapper's view, the stored value, and
//! are proved with Verus:
//!
//! - [`mutex`]: the type, `new`, `get_mut`, `get`, `get_unchecked`, and the
//!   laws that say the wrapper is its stored value and nothing more;
//! - [`impls`]: the debug text, which shows the stored type and not the
//!   stored value;
//! - [`relay`]: work that is driven step by step through a wrapper behaves
//!   as the same work driven directly.

pub mod impls;
pub mod mutex;
pub mod relay;

pub use mutex::WeirdMutex;
