//! The workflow's decision points: wallet provisioning outcome, the funding
//! loop's stopping rule, and acceptance of the node's send and mempool
//! replies. The caller performs the node calls and hands the observed results
//! to these functions.

use vstd::prelude::*;

verus! {

/// How provisioning a named wallet ended.
#[derive(Clone, Copy, PartialEq, Eq, Structural, Debug)]
pub enum ProvisionOutcome {
    /// The create call succeeded.
    Created,
    /// The create call failed (the wallet already exists) and the load call
    /// succeeded.
    Loaded,
    /// Both calls failed. Reported, but the workflow goes on: later steps fail
    /// on their own if the wallet is truly unusable.
    Unavailable,
}

/// Decide the provisioning outcome from the two call results: creation is
/// attempted first; only on its failure does the load result matter.
pub fn provision_outcome(create_ok: bool, load_ok: bool) -> (r: ProvisionOutcome)
    ensures
        r == (if create_ok {
            ProvisionOutcome::Created
        } else if load_ok {
            ProvisionOutcome::Loaded
        } else {
            ProvisionOutcome::Unavailable
        }),
{
    if create_ok {
        ProvisionOutcome::Created
    } else if load_ok {
        ProvisionOutcome::Loaded
    } else {
        ProvisionOutcome::Unavailable
    }
}

/// The funding loop's stopping rule: stop as soon as the balance is strictly
/// positive, or once the safety ceiling of mined blocks is reached.
pub fn fund_should_stop(balance_sat: u64, blocks_mined: u64, cap: u64) -> (r: bool)
    ensures
        r == (balance_sat > 0 || blocks_mined >= cap),
{
    balance_sat > 0 || blocks_mined >= cap
}

/// An unconfirmed transaction's mempool entry, consumed read-only.
#[derive(Clone, Copy, PartialEq, Eq, Structural, Debug)]
pub struct MempoolEntry {
    pub vsize: u64,
    pub fee_sat: u64,
    pub time: u64,
    pub height: u64,
    pub ancestor_count: u64,
    pub descendant_count: u64,
}

/// Why the payment step fails; both failures are fatal.
#[derive(Clone, Copy, PartialEq, Eq, Structural, Debug)]
pub enum PaymentError {
    /// The node's send reply did not report completion.
    SendIncomplete,
    /// No mempool entry right after a successful broadcast: a protocol-level
    /// anomaly the workflow cannot recover from.
    MempoolEntryMissing,
}

/// Accept the node's reply to the send call: the transaction id only when the
/// node reports the send as complete.
pub fn accept_send_result(complete: bool, txid: String) -> (r: Result<String, PaymentError>)
    ensures
        r is Ok <==> complete,
        r matches Ok(t) ==> t@ == txid@,
        r matches Err(e) ==> e == PaymentError::SendIncomplete,
{
    if complete {
        Ok(txid)
    } else {
        Err(PaymentError::SendIncomplete)
    }
}

/// One-shot confirmation that the broadcast transaction is in the mempool.
/// Absence is a hard error, never retried: the entry must already be visible
/// right after a successful broadcast against a local node.
pub fn confirm_mempool_presence(entry: Option<MempoolEntry>) -> (r: Result<
    MempoolEntry,
    PaymentError,
>)
    ensures
        r is Ok <==> entry is Some,
        r matches Ok(e) ==> e == entry->Some_0,
        r matches Err(e) ==> e == PaymentError::MempoolEntryMissing,
{
    match entry {
        Some(e) => Ok(e),
        None => Err(PaymentError::MempoolEntryMissing),
    }
}

} // verus!
