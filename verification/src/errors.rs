use vstd::prelude::*;

verus! {

/// The bridge's error taxonomy.
///
/// `Remote` carries the vendor's own error envelope verbatim (its `error`
/// code and `error_description`). `Transport` stands for a network,
/// body-read or JSON-shape failure whose body matched neither the expected
/// success payload nor the vendor's error envelope. `NotAuthenticated` and
/// `NoDevice` are synchronous local precondition failures: no credential
/// has been obtained yet, or no device is available (no successful poll so
/// far, or an empty device list from the vendor). The split lets a consumer
/// decide whether an immediate retry is sensible.
#[derive(Clone, Debug)]
pub enum BridgeError {
    Remote { code: String, description: String },
    Transport,
    NotAuthenticated,
    NoDevice,
}

} // verus!
