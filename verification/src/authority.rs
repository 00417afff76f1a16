//! The protocol authority: the single identity allowed to perform privileged
//! operations. The substrate verifies caller identity; the core only compares
//! keys.

use vstd::prelude::*;
use crate::errors::ErrorCode;
use crate::keys::AccountKey;

verus! {

/// The singleton record naming the current protocol authority.
pub struct ProtocolAuthority {
    pub authority: AccountKey,
}

/// Installs the payer as the protocol authority.
pub fn set_protocol_authority(protocol_authority: &mut ProtocolAuthority, payer: AccountKey)
    ensures
        final(protocol_authority).authority == payer,
{
    protocol_authority.authority = payer;
}

/// Succeeds exactly when the payer is the protocol authority; every
/// privileged entry point calls this before mutating anything.
pub fn enforce_protocol_authority(authority: AccountKey, payer_pub_key: AccountKey) -> (r: Result<
    (),
    ErrorCode,
>)
    ensures
        r is Ok <==> authority == payer_pub_key,
        r is Err ==> r.unwrap_err() == ErrorCode::InvalidAuthority,
{
    if authority.id == payer_pub_key.id {
        Ok(())
    } else {
        Err(ErrorCode::InvalidAuthority)
    }
}

} // verus!
