//! Recovery of the key of an NT QQ message database.
//!
//! The interesting part lives under [`ntqq::windows`]: a static locator that finds the
//! routine through which the key passes inside the native module, and the decision logic of
//! a debug session that stops the running program at that routine and reads the key from
//! its arguments. [`ntqq::android`] derives the key from the header of a database written on
//! Android, [`db`] holds what is needed to open a database once the key is known, and
//! [`util`] holds hashing and text helpers.

pub mod db;
pub mod ntqq;
pub mod util;
