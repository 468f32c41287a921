//! The cancellation handle that the long-running parts of the library are
//! given.

use tokio_util::sync::CancellationToken;
use vstd::prelude::*;

verus! {

/// `tokio_util::sync::CancellationToken`: the handle, carried through as
/// an opaque value.
#[verifier::external_type_specification]
#[verifier::external_body]
pub struct ExCancellationToken(CancellationToken);

/// `CancellationToken::is_cancelled` tells whether the token has been
/// cancelled by the time it is asked. Another thread may cancel the token at
/// any moment, so nothing is claimed of the answer.
pub assume_specification[ CancellationToken::is_cancelled ](token: &CancellationToken) -> (cancelled:
    bool)
;

} // verus!
