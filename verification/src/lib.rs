//! In-memory registry of tradable digital assets with ownership-based
//! access control.
//!
//! The registry records who owns each asset, whether it is for sale, and at
//! what price. Callers are identified by a [`identity::Principal`] supplied
//! by the hosting environment; the registry itself performs no
//! authentication.

use vstd::prelude::*;
use vstd::string::StringExecFns;

pub mod asset;
pub mod error;
pub mod identity;
pub mod laws;
pub mod model;
pub mod registry;

verus! {

/// A friendly greeting for `name`.
pub fn greet(name: String) -> (r: String)
    ensures
        r@ == "Hello, "@ + name@ + "! Welcome to the ICP VR Marketplace!"@,
{
    let mut s = String::from_str("Hello, ");
    s.append(name.as_str());
    s.append("! Welcome to the ICP VR Marketplace!");
    s
}

} // verus!
