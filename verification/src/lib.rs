//! A container for secrets held in memory.
//!
//! A [`SecretBox`] owns one heap allocation, keeps track of the protection state
//! of the page behind it, hands the value out only through scoped guards, and
//! zeroes it before the allocation is given up. The page operations that each
//! change of state calls for are computed in [`page`]; carrying them out is left
//! to the embedding program, which alone may talk to the operating system.
//!
//! Access follows the borrow-scoped policy. A guard borrows the container
//! exclusively for as long as it lives, so the borrow rules stand in for a
//! lock: one writer or one reader at a time, never both. A grant sets the
//! protection level that it needs, and the level is tightened when the
//! container is next touched, be it by another grant or by
//! [`SecretBox::conceal`]. Nothing here runs when a value goes out of scope:
//! a container is torn down with [`SecretBox::destroy`], and an embedder that
//! wants this done on every exit path calls it from its own destructor.

pub mod container;
pub mod erase;
pub mod expose;
pub mod guard;
pub mod laws;
pub mod model;
pub mod page;
pub mod protection;

pub use container::SecretBox;
pub use erase::Zeroize;
pub use expose::{CloneableSecret, ExposeSecret};
pub use guard::{SecretGuard, SecretGuardMut};
pub use page::{IntegrityError, PageOp, PageState, Request, Transition};
pub use protection::Protection;
