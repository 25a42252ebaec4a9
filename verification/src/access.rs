//! The access checks that guard the contracts' entry points.

use vstd::prelude::*;
use crate::address::Address;
use crate::errors::OmxError;

verus! {

/// Only the governor may go on: `Ok` when `sender` is `gov`, else `err`.
pub fn only_gov(gov: Address, sender: Address, err: OmxError) -> (r: Result<(), OmxError>)
    ensures
        r == (if gov == sender { Ok(()) } else { Err::<(), OmxError>(err) }),
{
    if gov == sender {
        Ok(())
    } else {
        Err(err)
    }
}

/// Only a holder of a role (minter, admin, handler, keeper, ...) may go on.
pub fn only_role(has_role: bool, err: OmxError) -> (r: Result<(), OmxError>)
    ensures
        r == (if has_role { Ok(()) } else { Err::<(), OmxError>(err) }),
{
    if has_role {
        Ok(())
    } else {
        Err(err)
    }
}

/// A contract is set up once: `init` fails with `err` when it already was.
pub fn only_uninitialized(initialized: bool, err: OmxError) -> (r: Result<(), OmxError>)
    ensures
        r == (if initialized { Err::<(), OmxError>(err) } else { Ok(()) }),
{
    if initialized {
        Err(err)
    } else {
        Ok(())
    }
}

/// Entry points other than `init` need a contract that was set up.
pub fn only_initialized(initialized: bool, err: OmxError) -> (r: Result<(), OmxError>)
    ensures
        r == (if initialized { Ok(()) } else { Err::<(), OmxError>(err) }),
{
    if initialized {
        Ok(())
    } else {
        Err(err)
    }
}

} // verus!
