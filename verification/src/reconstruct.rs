//! Reconstruction of a confirmed payment's semantic roles.
//!
//! Given the wallet's view of a transaction, its decoded form, and the decoded
//! form of the transaction spent by its first input, recover the funding
//! input's source address and amount, the payment output, the change output,
//! the absolute fee, and the confirming block — the ten-field record the
//! workflow persists.

use vstd::prelude::*;

verus! {

use crate::amount::{abs_fee, fee_abs};

/// One output of a decoded transaction: the decoded destination address
/// (absent for non-standard scripts) and the value in satoshis.
#[derive(Debug)]
pub struct TxOut {
    pub address: Option<String>,
    pub value_sat: u64,
}

/// One input of a decoded transaction: the reference to the previous output it
/// spends. Both parts are absent for a coinbase input.
#[derive(Debug)]
pub struct TxIn {
    pub prev_txid: Option<String>,
    pub prev_vout: Option<usize>,
}

/// A decoded transaction: ordered inputs and ordered outputs.
#[derive(Debug)]
pub struct RawTx {
    pub txid: String,
    pub inputs: Vec<TxIn>,
    pub outputs: Vec<TxOut>,
}

/// What a wallet-scoped transaction lookup reports: the signed fee from the
/// spender's perspective, and the confirming block, absent while unconfirmed.
#[derive(Debug)]
pub struct WalletTxInfo {
    pub fee_sat: Option<i64>,
    pub block_height: Option<u64>,
    pub block_hash: Option<String>,
}

/// The ten mandatory fields of the persisted record.
#[derive(Debug)]
pub struct TransactionRecord {
    pub txid: String,
    pub miner_input_address: String,
    pub miner_input_amount_sat: u64,
    pub trader_output_address: String,
    pub trader_output_amount_sat: u64,
    pub miner_change_address: String,
    pub miner_change_amount_sat: u64,
    pub fee_sat: u64,
    pub block_height: u64,
    pub block_hash: String,
}

/// Why reconstruction fails; each failure is fatal for the workflow.
#[derive(Clone, Copy, PartialEq, Eq, Structural, Debug)]
pub enum ReconstructError {
    /// The wallet lookup reports no confirming block.
    Unconfirmed,
    /// The transaction has no input at all.
    NoInput,
    /// The first input's previous output cannot be resolved.
    UnresolvedPrevOutput,
    /// The wallet lookup reports no fee.
    FeeUnavailable,
}

/// Two decoded transactions carry the same data.
pub open spec fn tx_eq(a: RawTx, b: RawTx) -> bool {
    a.txid@ == b.txid@ && a.inputs@ == b.inputs@ && a.outputs@ == b.outputs@
}

impl TxOut {
    /// A copy equal to `self`.
    pub fn duplicate(&self) -> (r: TxOut)
        ensures
            r == *self,
    {
        TxOut {
            address: match &self.address {
                Some(a) => Some(a.clone()),
                None => None,
            },
            value_sat: self.value_sat,
        }
    }
}

impl TxIn {
    /// A copy equal to `self`.
    pub fn duplicate(&self) -> (r: TxIn)
        ensures
            r == *self,
    {
        TxIn {
            prev_txid: match &self.prev_txid {
                Some(t) => Some(t.clone()),
                None => None,
            },
            prev_vout: self.prev_vout,
        }
    }
}

impl RawTx {
    /// A copy carrying the same data as `self`.
    pub fn duplicate(&self) -> (r: RawTx)
        ensures
            tx_eq(r, *self),
    {
        let mut inputs: Vec<TxIn> = Vec::new();
        let mut i: usize = 0;
        while i < self.inputs.len()
            invariant
                i <= self.inputs@.len(),
                inputs@ == self.inputs@.take(i as int),
            decreases self.inputs@.len() - i,
        {
            inputs.push(self.inputs[i].duplicate());
            proof {
                assert(self.inputs@.take(i + 1) =~= self.inputs@.take(i as int).push(
                    self.inputs@[i as int],
                ));
            }
            i = i + 1;
        }
        let mut outputs: Vec<TxOut> = Vec::new();
        let mut j: usize = 0;
        while j < self.outputs.len()
            invariant
                j <= self.outputs@.len(),
                outputs@ == self.outputs@.take(j as int),
            decreases self.outputs@.len() - j,
        {
            outputs.push(self.outputs[j].duplicate());
            proof {
                assert(self.outputs@.take(j + 1) =~= self.outputs@.take(j as int).push(
                    self.outputs@[j as int],
                ));
            }
            j = j + 1;
        }
        proof {
            assert(self.inputs@.take(self.inputs@.len() as int) =~= self.inputs@);
            assert(self.outputs@.take(self.outputs@.len() as int) =~= self.outputs@);
        }
        RawTx { txid: self.txid.clone(), inputs, outputs }
    }
}

/// The payment output: the last output whose decoded address equals `pay`,
/// as (address, value). Later outputs win, mirroring the node's observed
/// overwrite behavior.
pub open spec fn last_payment_output(outs: Seq<TxOut>, pay: Seq<char>) -> Option<(Seq<char>, u64)>
    decreases outs.len(),
{
    if outs.len() == 0 {
        None
    } else {
        let l = outs.last();
        if l.address is Some && l.address->Some_0@ == pay {
            Some((l.address->Some_0@, l.value_sat))
        } else {
            last_payment_output(outs.drop_last(), pay)
        }
    }
}

/// The change output: the last addressed output whose decoded address differs
/// from `pay`. Later outputs win; outputs without a decodable address are
/// ignored entirely.
pub open spec fn last_change_output(outs: Seq<TxOut>, pay: Seq<char>) -> Option<(Seq<char>, u64)>
    decreases outs.len(),
{
    if outs.len() == 0 {
        None
    } else {
        let l = outs.last();
        if l.address is Some && l.address->Some_0@ != pay {
            Some((l.address->Some_0@, l.value_sat))
        } else {
            last_change_output(outs.drop_last(), pay)
        }
    }
}

/// The mathematical value of an optional (address, value) pair.
pub open spec fn opt_pair_view(o: Option<(String, u64)>) -> Option<(Seq<char>, u64)> {
    match o {
        None => None,
        Some(p) => Some((p.0@, p.1)),
    }
}

/// Scan the outputs once, classifying every addressed output as payment
/// (address equals `payment_address`) or change (any other address), keeping
/// the last of each kind. Returns (payment, change).
pub fn classify_outputs(outs: &Vec<TxOut>, payment_address: &String) -> (r: (
    Option<(String, u64)>,
    Option<(String, u64)>,
))
    ensures
        opt_pair_view(r.0) == last_payment_output(outs@, payment_address@),
        opt_pair_view(r.1) == last_change_output(outs@, payment_address@),
{
    let mut pay: Option<(String, u64)> = None;
    let mut change: Option<(String, u64)> = None;
    let mut i: usize = 0;
    while i < outs.len()
        invariant
            i <= outs@.len(),
            opt_pair_view(pay) == last_payment_output(outs@.take(i as int), payment_address@),
            opt_pair_view(change) == last_change_output(outs@.take(i as int), payment_address@),
        decreases outs@.len() - i,
    {
        let o = &outs[i];
        match &o.address {
            Some(a) => {
                if *a == *payment_address {
                    pay = Some((a.clone(), o.value_sat));
                } else {
                    change = Some((a.clone(), o.value_sat));
                }
            },
            None => {},
        }
        proof {
            assert(outs@.take(i + 1).drop_last() =~= outs@.take(i as int));
            assert(outs@.take(i + 1).last() == outs@[i as int]);
        }
        i = i + 1;
    }
    proof {
        assert(outs@.take(outs@.len() as int) =~= outs@);
    }
    (pay, change)
}

/// The reference the transaction's first input makes to the output it spends.
/// The workflow only ever follows the first input: the payment is a
/// single-input transaction by construction.
pub fn first_input_ref(tx: &RawTx) -> (r: Result<(String, usize), ReconstructError>)
    ensures
        r is Ok <==> tx.inputs@.len() > 0 && tx.inputs@[0].prev_txid is Some
            && tx.inputs@[0].prev_vout is Some,
        r matches Ok(p) ==> p.0@ == tx.inputs@[0].prev_txid->Some_0@ && p.1 == tx.inputs@[0].prev_vout->Some_0,
        r matches Err(e) ==> (e == ReconstructError::NoInput <==> tx.inputs@.len() == 0),
        r matches Err(e) ==> e == ReconstructError::NoInput || e
            == ReconstructError::UnresolvedPrevOutput,
{
    if tx.inputs.len() == 0 {
        Err(ReconstructError::NoInput)
    } else {
        let first = &tx.inputs[0];
        match (&first.prev_txid, &first.prev_vout) {
            (Some(t), Some(v)) => Ok((t.clone(), *v)),
            _ => Err(ReconstructError::UnresolvedPrevOutput),
        }
    }
}

/// Resolve the referenced previous output: its decoded address is the funding
/// input's source address, its value the input amount.
pub fn resolve_prev_output(prev_outputs: &Vec<TxOut>, vout: usize) -> (r: Result<
    (String, u64),
    ReconstructError,
>)
    ensures
        r is Ok <==> vout < prev_outputs@.len() && prev_outputs@[vout as int].address is Some,
        r matches Ok(p) ==> p.0@ == prev_outputs@[vout as int].address->Some_0@ && p.1
            == prev_outputs@[vout as int].value_sat,
        r matches Err(e) ==> e == ReconstructError::UnresolvedPrevOutput,
{
    if vout < prev_outputs.len() {
        let out = &prev_outputs[vout];
        match &out.address {
            Some(a) => Ok((a.clone(), out.value_sat)),
            None => Err(ReconstructError::UnresolvedPrevOutput),
        }
    } else {
        Err(ReconstructError::UnresolvedPrevOutput)
    }
}

/// The wallet lookup reports a confirming block.
pub open spec fn confirmed(info: WalletTxInfo) -> bool {
    info.block_hash is Some && info.block_height is Some
}

/// The first input exists and its previous output can be resolved to an
/// addressed output of `prev_outputs`.
pub open spec fn input_resolvable(tx: RawTx, prev_outputs: Seq<TxOut>) -> bool {
    &&& tx.inputs@.len() > 0
    &&& tx.inputs@[0].prev_txid is Some
    &&& tx.inputs@[0].prev_vout is Some
    &&& (tx.inputs@[0].prev_vout->Some_0 as int) < prev_outputs.len()
    &&& prev_outputs[tx.inputs@[0].prev_vout->Some_0 as int].address is Some
}

/// Everything the ten-field record must say about its sources: funding input
/// from the resolved previous output, payment and change from the last-wins
/// classification (empty address and zero amount where a role is absent),
/// absolute fee, and the confirming block.
pub open spec fn record_matches(
    rec: TransactionRecord,
    info: WalletTxInfo,
    tx: RawTx,
    prev_outputs: Seq<TxOut>,
    pay: Seq<char>,
) -> bool {
    let vout = tx.inputs@[0].prev_vout->Some_0 as int;
    &&& rec.txid@ == tx.txid@
    &&& rec.miner_input_address@ == prev_outputs[vout].address->Some_0@
    &&& rec.miner_input_amount_sat == prev_outputs[vout].value_sat
    &&& (match last_payment_output(tx.outputs@, pay) {
        Some(p) => rec.trader_output_address@ == p.0 && rec.trader_output_amount_sat == p.1,
        None => rec.trader_output_address@ == Seq::<char>::empty() && rec.trader_output_amount_sat
            == 0,
    })
    &&& (match last_change_output(tx.outputs@, pay) {
        Some(c) => rec.miner_change_address@ == c.0 && rec.miner_change_amount_sat == c.1,
        None => rec.miner_change_address@ == Seq::<char>::empty() && rec.miner_change_amount_sat
            == 0,
    })
    &&& rec.fee_sat as int == abs_fee(info.fee_sat->Some_0 as int)
    &&& rec.block_height == info.block_height->Some_0
    &&& rec.block_hash@ == info.block_hash->Some_0@
}

/// Assemble the ten-field record for a confirmed transaction. Pure
/// read-and-derive: the caller has already fetched the wallet's view of the
/// transaction, its decoded form, and the decoded outputs of the transaction
/// spent by its first input.
pub fn reconstruct(
    info: &WalletTxInfo,
    tx: &RawTx,
    prev_outputs: &Vec<TxOut>,
    payment_address: &String,
) -> (r: Result<TransactionRecord, ReconstructError>)
    ensures
        r is Ok <==> confirmed(*info) && input_resolvable(*tx, prev_outputs@) && info.fee_sat
            is Some,
        r matches Ok(rec) ==> record_matches(rec, *info, *tx, prev_outputs@, payment_address@),
        (r is Err && r->Err_0 == ReconstructError::Unconfirmed) <==> !confirmed(*info),
        (r is Err && r->Err_0 == ReconstructError::NoInput) <==> confirmed(*info)
            && tx.inputs@.len() == 0,
        (r is Err && r->Err_0 == ReconstructError::UnresolvedPrevOutput) <==> confirmed(*info)
            && tx.inputs@.len() > 0 && !input_resolvable(*tx, prev_outputs@),
        (r is Err && r->Err_0 == ReconstructError::FeeUnavailable) <==> confirmed(*info)
            && input_resolvable(*tx, prev_outputs@) && info.fee_sat is None,
{
    match (&info.block_hash, &info.block_height) {
        (Some(hash), Some(height)) => {
            match first_input_ref(tx) {
                Err(e) => Err(e),
                Ok((_prev_txid, vout)) => {
                    match resolve_prev_output(prev_outputs, vout) {
                        Err(e) => Err(e),
                        Ok((input_address, input_amount)) => {
                            match info.fee_sat {
                                None => Err(ReconstructError::FeeUnavailable),
                                Some(f) => {
                                    let (pay, change) = classify_outputs(
                                        &tx.outputs,
                                        payment_address,
                                    );
                                    let (trader_address, trader_amount): (String, u64) = match pay {
                                        Some(p) => p,
                                        None => (String::new(), 0u64),
                                    };
                                    let (change_address, change_amount): (
                                        String,
                                        u64,
                                    ) = match change {
                                        Some(c) => c,
                                        None => (String::new(), 0u64),
                                    };
                                    Ok(
                                        TransactionRecord {
                                            txid: tx.txid.clone(),
                                            miner_input_address: input_address,
                                            miner_input_amount_sat: input_amount,
                                            trader_output_address: trader_address,
                                            trader_output_amount_sat: trader_amount,
                                            miner_change_address: change_address,
                                            miner_change_amount_sat: change_amount,
                                            fee_sat: fee_abs(f),
                                            block_height: *height,
                                            block_hash: hash.clone(),
                                        },
                                    )
                                },
                            }
                        },
                    }
                },
            }
        },
        _ => Err(ReconstructError::Unconfirmed),
    }
}

/// Law: for a transaction whose outputs are exactly one payment output (its
/// address equals `pay`, value P) and one change output (any other address,
/// value C), where the input amount A covers both outputs plus the absolute
/// reported fee, reconstruction classifies the two outputs as payment and
/// change and the identity P + C + |fee| == A holds exactly in satoshis.
pub proof fn lemma_reconstruction_balance(
    outs: Seq<TxOut>,
    pay: Seq<char>,
    input_amount_sat: u64,
    fee_sat: i64,
)
    requires
        outs.len() == 2,
        outs[0].address is Some,
        outs[1].address is Some,
        (outs[0].address->Some_0@ == pay) != (outs[1].address->Some_0@ == pay),
        input_amount_sat as int == outs[0].value_sat + outs[1].value_sat + abs_fee(fee_sat as int),
    ensures
        last_payment_output(outs, pay) is Some,
        last_change_output(outs, pay) is Some,
        last_payment_output(outs, pay)->Some_0.0 == pay,
        outs[0].address->Some_0@ == pay ==> last_payment_output(outs, pay)->Some_0.1 == outs[0].value_sat
            && last_change_output(outs, pay)->Some_0.1 == outs[1].value_sat,
        outs[1].address->Some_0@ == pay ==> last_payment_output(outs, pay)->Some_0.1 == outs[1].value_sat
            && last_change_output(outs, pay)->Some_0.1 == outs[0].value_sat,
        last_payment_output(outs, pay)->Some_0.1 + last_change_output(outs, pay)->Some_0.1 + abs_fee(
            fee_sat as int,
        ) == input_amount_sat as int,
{
    assert(outs.last() == outs[1]);
    assert(outs.drop_last().len() == 1);
    assert(outs.drop_last().last() == outs[0]);
    assert(outs.drop_last().drop_last().len() == 0);
    if outs[0].address->Some_0@ == pay {
        assert(last_payment_output(outs, pay) == last_payment_output(outs.drop_last(), pay));
        assert(last_payment_output(outs.drop_last(), pay) == Some(
            (outs[0].address->Some_0@, outs[0].value_sat),
        ));
        assert(last_change_output(outs, pay) == Some(
            (outs[1].address->Some_0@, outs[1].value_sat),
        ));
    } else {
        assert(last_payment_output(outs, pay) == Some(
            (outs[1].address->Some_0@, outs[1].value_sat),
        ));
        assert(last_change_output(outs, pay) == last_change_output(outs.drop_last(), pay));
        assert(last_change_output(outs.drop_last(), pay) == Some(
            (outs[0].address->Some_0@, outs[0].value_sat),
        ));
    }
}

/// Law: when the output at index `j` is the last addressed output whose
/// address differs from the payment address, it is the one recorded as
/// change — earlier such outputs are overwritten, never averaged or reported
/// as an error.
pub proof fn lemma_change_last_wins(outs: Seq<TxOut>, pay: Seq<char>, j: int)
    requires
        0 <= j < outs.len(),
        outs[j].address is Some,
        outs[j].address->Some_0@ != pay,
        forall|k: int|
            j < k < outs.len() ==> !(outs[k].address is Some && outs[k].address->Some_0@ != pay),
    ensures
        last_change_output(outs, pay) == Some((outs[j].address->Some_0@, outs[j].value_sat)),
    decreases outs.len(),
{
    if j == outs.len() - 1 {
        assert(outs.last() == outs[j]);
    } else {
        assert(outs.last() == outs[outs.len() - 1]);
        assert(!(outs[outs.len() - 1].address is Some && outs[outs.len() - 1].address->Some_0@
            != pay));
        assert(outs.drop_last()[j] == outs[j]);
        assert(forall|k: int|
            j < k < outs.drop_last().len() ==> !(outs.drop_last()[k].address is Some
                && outs.drop_last()[k].address->Some_0@ != pay));
        lemma_change_last_wins(outs.drop_last(), pay, j);
    }
}

} // verus!
