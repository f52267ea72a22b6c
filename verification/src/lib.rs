//! A constant-product liquidity pool.
//!
//! The library is the pool's state machine: a [`pool::Pool`] holds two asset
//! reserves and an immutable fee, and the three operations —
//! [`pool::initialize_pool`], [`pool::Pool::add_liquidity`] and
//! [`pool::Pool::swap`] — validate their inputs with checked arithmetic,
//! price trades by the constant-product formula, and either commit a new
//! state or fail with a [`errors::CustomError`] leaving the state untouched.
//!
//! Every operation is split into a pure validation phase (a decision over the
//! current state and the inputs, with no side effect) and a commit phase that
//! applies the already-validated new reserves. A host that moves the actual
//! asset balances performs its transfers between the two phases, so that no
//! transfer is ever issued before all arithmetic checks have passed and no
//! partially-applied state is ever observable.

pub mod errors;
pub mod events;
pub mod pool;
