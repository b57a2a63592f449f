//! The shutdown signal: the sender half of a one-shot channel.
use vstd::prelude::*;

use tokio::sync::oneshot::Sender;

verus! {

#[verifier::external_type_specification]
#[verifier::external_body]
#[verifier::reject_recursive_types(T)]
pub struct ExSender<T>(Sender<T>);

/// Relies on tokio's `oneshot::Sender::send`, which consumes the sender, so the
/// signal can be sent once at most. The result only says whether a receiver was
/// still listening, which changes nothing here.
#[verifier::external_body]
pub(crate) fn fire(tx: Sender<()>) {
    let _ = tx.send(());
}

} // verus!
