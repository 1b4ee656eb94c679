//! An in-memory stand-in for the regtest node.
//!
//! The workflow's only collaborator is the node's RPC surface. This model
//! gives that surface a verified behavior — wallet bookkeeping, chain growth,
//! coinbase maturity, one in-flight payment — so the provisioning, funding,
//! payment and reconstruction steps can be stated, proved, and exercised
//! against it. Simplifications: a wallet in the list counts as loaded, every
//! mined block credits the funded wallet, the block subsidy is a fixed
//! per-block reward, the fee is the node's flat default, and a single payment
//! spending one mature coinbase output is in flight at a time.

use vstd::prelude::*;

verus! {

use crate::address::{Address, Network};
use crate::reconstruct::{RawTx, TxIn, TxOut, WalletTxInfo, tx_eq};
use crate::workflow::{MempoolEntry, ProvisionOutcome, provision_outcome, fund_should_stop};

/// A wallet known to the node.
pub struct SimWallet {
    pub name: String,
}

/// Errors the node reports.
#[derive(Clone, Copy, PartialEq, Eq, Structural, Debug)]
pub enum SimError {
    /// A wallet of that name already exists.
    WalletExists,
    /// No wallet of that name exists.
    WalletNotFound,
    /// The wallet cannot fund the requested payment.
    InsufficientFunds,
    /// The model ran out of seeded addresses or transaction ids.
    OutOfIdentifiers,
    /// No transaction with that id is known.
    UnknownTransaction,
}

/// A wallet of that name is in the list.
pub open spec fn spec_has_wallet(ws: Seq<SimWallet>, name: Seq<char>) -> bool {
    exists|i: int| 0 <= i < ws.len() && ws[i].name@ == name
}

/// What one `ensure_wallet` call does to the wallet list and reports back.
pub open spec fn ensure_post(
    before: Seq<SimWallet>,
    after: Seq<SimWallet>,
    name: Seq<char>,
    r: ProvisionOutcome,
) -> bool {
    &&& r == (if spec_has_wallet(before, name) {
        ProvisionOutcome::Loaded
    } else {
        ProvisionOutcome::Created
    })
    &&& spec_has_wallet(after, name)
    &&& (spec_has_wallet(before, name) ==> after == before)
    &&& (!spec_has_wallet(before, name) ==> after.len() == before.len() + 1 && after.drop_last()
        == before && after.last().name@ == name)
}

/// Law: provisioning is idempotent. Whatever the first `ensure_wallet` for a
/// name did — created the wallet or found it — a second call for the same
/// name never fails: it reports the wallet as loaded and leaves the wallet
/// list unchanged.
pub proof fn lemma_provision_idempotent(
    w0: Seq<SimWallet>,
    w1: Seq<SimWallet>,
    w2: Seq<SimWallet>,
    name: Seq<char>,
    r1: ProvisionOutcome,
    r2: ProvisionOutcome,
)
    requires
        ensure_post(w0, w1, name, r1),
        ensure_post(w1, w2, name, r2),
    ensures
        r1 != ProvisionOutcome::Unavailable,
        r2 != ProvisionOutcome::Unavailable,
        r2 == ProvisionOutcome::Loaded,
        w2 == w1,
{
}

/// The one payment the model has in flight: the synthesized coinbase
/// transaction it spends, the payment transaction itself, and where it was
/// confirmed, if it was.
pub struct SimSend {
    pub funding: RawTx,
    pub payment: RawTx,
    pub amount_sat: u64,
    pub confirmed_height: Option<u64>,
}

/// The node model's whole state.
pub struct SimNode {
    /// The network the node is configured for.
    pub network: Network,
    /// Blocks a coinbase output needs on top of it before it is spendable.
    pub maturity: u64,
    /// The fixed per-block coinbase reward, in satoshis.
    pub reward_sat: u64,
    /// The flat fee of the node's default fee estimation, in satoshis.
    pub fee_sat: u64,
    /// The virtual size the node reports for the payment transaction.
    pub tx_vsize: u64,
    /// Chain height; every block so far was mined to the funded wallet.
    pub height: u64,
    /// The wallets that exist (and so count as loaded).
    pub wallets: Vec<SimWallet>,
    /// Fresh addresses the node hands out, consumed from the end.
    pub fresh_addresses: Vec<String>,
    /// Fresh transaction ids the node invents, consumed from the end.
    pub fresh_txids: Vec<String>,
    /// The hash the node gives the block that confirms the payment.
    pub confirm_hash: String,
    /// The address the most recent block was mined to.
    pub coinbase_address: Option<String>,
    /// The payment in flight, once one was sent.
    pub sent: Option<SimSend>,
}

/// The node's configuration fields are the same in both states.
pub open spec fn config_unchanged(a: SimNode, b: SimNode) -> bool {
    &&& a.network == b.network
    &&& a.maturity == b.maturity
    &&& a.reward_sat == b.reward_sat
    &&& a.fee_sat == b.fee_sat
    &&& a.tx_vsize == b.tx_vsize
    &&& a.confirm_hash == b.confirm_hash
}

/// Everything but the wallet list is the same in both states.
pub open spec fn except_wallets_unchanged(a: SimNode, b: SimNode) -> bool {
    &&& config_unchanged(a, b)
    &&& a.height == b.height
    &&& a.coinbase_address == b.coinbase_address
    &&& a.fresh_addresses@ == b.fresh_addresses@
    &&& a.fresh_txids@ == b.fresh_txids@
    &&& a.sent == b.sent
}

impl SimNode {
    /// Bounds that keep every balance computation inside `u64`, and the sent
    /// payment consistent with one mature coinbase output funding it.
    pub open spec fn wf(self) -> bool {
        &&& self.maturity <= 1_000_000
        &&& self.height <= 1_000_000
        &&& self.reward_sat <= 10_000_000_000
        &&& self.fee_sat <= self.reward_sat
        &&& (self.sent matches Some(s) ==> s.amount_sat + self.fee_sat <= self.reward_sat
            && self.height > self.maturity)
    }

    /// How many coinbase outputs are mature (spendable) at the current height.
    pub open spec fn mature_blocks(self) -> int {
        if self.height > self.maturity {
            self.height - self.maturity
        } else {
            0
        }
    }

    /// The funded wallet's balance: matured rewards, minus what the one sent
    /// payment carried away (its amount plus the fee; the change is counted
    /// back in, confirmed or not).
    pub open spec fn spec_balance(self) -> int {
        self.mature_blocks() * self.reward_sat - (match self.sent {
            Some(s) => s.amount_sat + self.fee_sat,
            None => 0,
        })
    }

    /// The index of the wallet with this name, if it exists.
    fn wallet_index(&self, name: &String) -> (r: Option<usize>)
        ensures
            r matches Some(i) ==> i < self.wallets@.len() && self.wallets@[i as int].name@
                == name@,
            r is None ==> !spec_has_wallet(self.wallets@, name@),
    {
        let mut i: usize = 0;
        while i < self.wallets.len()
            invariant
                i <= self.wallets@.len(),
                forall|k: int| 0 <= k < i ==> self.wallets@[k].name@ != name@,
            decreases self.wallets@.len() - i,
        {
            if self.wallets[i].name == *name {
                return Some(i);
            }
            i = i + 1;
        }
        None
    }

    /// Create a wallet of this name; a name that already exists is refused.
    pub fn create_wallet(&mut self, name: &String) -> (r: Result<(), SimError>)
        ensures
            r is Ok <==> !spec_has_wallet(old(self).wallets@, name@),
            r matches Err(e) ==> e == SimError::WalletExists,
            r is Err ==> *final(self) == *old(self),
            r is Ok ==> final(self).wallets@.len() == old(self).wallets@.len() + 1
                && final(self).wallets@.drop_last() == old(self).wallets@
                && final(self).wallets@.last().name@ == name@,
            except_wallets_unchanged(*old(self), *final(self)),
            old(self).wf() ==> final(self).wf(),
    {
        match self.wallet_index(name) {
            Some(_) => Err(SimError::WalletExists),
            None => {
                self.wallets.push(SimWallet { name: name.clone() });
                proof {
                    assert(self.wallets@.drop_last() =~= old(self).wallets@);
                }
                Ok(())
            },
        }
    }

    /// Load a wallet of this name; in this model an existing wallet is already
    /// loaded, so loading only checks existence.
    pub fn load_wallet(&mut self, name: &String) -> (r: Result<(), SimError>)
        ensures
            r is Ok <==> spec_has_wallet(old(self).wallets@, name@),
            r matches Err(e) ==> e == SimError::WalletNotFound,
            *final(self) == *old(self),
    {
        match self.wallet_index(name) {
            Some(_) => Ok(()),
            None => Err(SimError::WalletNotFound),
        }
    }

    /// Ensure a wallet of this name exists and is loaded: try to create it,
    /// and on failure (it already exists) fall back to loading it.
    pub fn ensure_wallet(&mut self, name: &String) -> (r: ProvisionOutcome)
        ensures
            ensure_post(old(self).wallets@, final(self).wallets@, name@, r),
            except_wallets_unchanged(*old(self), *final(self)),
            old(self).wf() ==> final(self).wf(),
    {
        let created = self.create_wallet(name).is_ok();
        let loaded = if created {
            false
        } else {
            self.load_wallet(name).is_ok()
        };
        provision_outcome(created, loaded)
    }

    /// Hand out a fresh address on the node's network. The label is accepted
    /// for fidelity with the node's surface and does not affect the model.
    pub fn get_new_address(&mut self, _label: &str) -> (r: Result<Address, SimError>)
        ensures
            r is Ok <==> old(self).fresh_addresses@.len() > 0,
            r matches Ok(a) ==> a.text == old(self).fresh_addresses@.last() && a.network == old(
                self,
            ).network && final(self).fresh_addresses@ == old(self).fresh_addresses@.drop_last(),
            r matches Err(e) ==> e == SimError::OutOfIdentifiers && final(self).fresh_addresses@
                == old(self).fresh_addresses@,
            config_unchanged(*old(self), *final(self)),
            final(self).height == old(self).height,
            final(self).wallets@ == old(self).wallets@,
            final(self).fresh_txids@ == old(self).fresh_txids@,
            final(self).coinbase_address == old(self).coinbase_address,
            final(self).sent == old(self).sent,
            old(self).wf() ==> final(self).wf(),
    {
        match self.fresh_addresses.pop() {
            Some(text) => Ok(Address { text, network: self.network }),
            None => Err(SimError::OutOfIdentifiers),
        }
    }

    /// Mine exactly one block to `addr`, growing the chain by one and
    /// confirming the pending payment, if one is waiting.
    pub fn generate_to_address(&mut self, addr: &Address)
        requires
            old(self).wf(),
            old(self).height < 1_000_000,
        ensures
            final(self).wf(),
            final(self).height == old(self).height + 1,
            final(self).coinbase_address matches Some(a) && a@ == addr.text@,
            final(self).wallets@ == old(self).wallets@,
            final(self).fresh_addresses@ == old(self).fresh_addresses@,
            final(self).fresh_txids@ == old(self).fresh_txids@,
            config_unchanged(*old(self), *final(self)),
            old(self).sent is None ==> final(self).sent is None,
            old(self).sent is Some && old(self).sent->Some_0.confirmed_height is Some
                ==> final(self).sent == old(self).sent,
            old(self).sent is Some && old(self).sent->Some_0.confirmed_height is None ==> ({
                let s = old(self).sent->Some_0;
                let s2 = final(self).sent->Some_0;
                final(self).sent is Some && s2.funding == s.funding && s2.payment == s.payment
                    && s2.amount_sat == s.amount_sat && s2.confirmed_height == Some(
                    (old(self).height + 1) as u64,
                )
            }),
    {
        self.height = self.height + 1;
        self.coinbase_address = Some(addr.text.clone());
        let sent = self.sent.take();
        match sent {
            None => {
                self.sent = None;
            },
            Some(s) => {
                if s.confirmed_height.is_none() {
                    let h = self.height;
                    let SimSend { funding, payment, amount_sat, confirmed_height: _ } = s;
                    self.sent = Some(
                        SimSend { funding, payment, amount_sat, confirmed_height: Some(h) },
                    );
                } else {
                    self.sent = Some(s);
                }
            },
        }
    }

    /// The funded wallet's total balance.
    pub fn get_balance(&self) -> (r: u64)
        requires
            self.wf(),
        ensures
            r as int == self.spec_balance(),
    {
        let mature: u64 = if self.height > self.maturity {
            self.height - self.maturity
        } else {
            0
        };
        proof {
            assert(mature * self.reward_sat <= 1_000_000 * 10_000_000_000) by (nonlinear_arith)
                requires
                    mature <= 1_000_000,
                    self.reward_sat <= 10_000_000_000,
            ;
        }
        let total: u64 = mature * self.reward_sat;
        match &self.sent {
            None => total,
            Some(s) => {
                proof {
                    assert(mature * self.reward_sat >= 1 * self.reward_sat) by (nonlinear_arith)
                        requires
                            mature >= 1,
                    ;
                }
                total - (s.amount_sat + self.fee_sat)
            },
        }
    }
}

/// The funded wallet can pay `amount_sat`: nothing else is in flight, a
/// mature coinbase output exists and covers the amount plus the node's fee.
pub open spec fn spec_funds_ok(n: SimNode, amount_sat: u64) -> bool {
    &&& n.sent is None
    &&& n.coinbase_address is Some
    &&& n.height > n.maturity
    &&& 0 < amount_sat
    &&& amount_sat + n.fee_sat <= n.reward_sat
}

/// The model has identifiers left for the transactions and the change
/// address that a send invents.
pub open spec fn spec_ids_ok(n: SimNode) -> bool {
    n.fresh_txids@.len() >= 2 && n.fresh_addresses@.len() >= 1
}

impl SimNode {
    /// Send `amount_sat` to `to`, spending one mature coinbase output and
    /// paying the node's flat default fee; the change returns to a fresh
    /// address of the funded wallet. Exactly one payment can be in flight.
    pub fn send_to_address(&mut self, to: &Address, amount_sat: u64) -> (r: Result<
        String,
        SimError,
    >)
        requires
            old(self).wf(),
        ensures
            final(self).wf(),
            r is Ok <==> spec_funds_ok(*old(self), amount_sat) && spec_ids_ok(*old(self)),
            (r is Err && r->Err_0 == SimError::InsufficientFunds) <==> !spec_funds_ok(
                *old(self),
                amount_sat,
            ),
            (r is Err && r->Err_0 == SimError::OutOfIdentifiers) <==> spec_funds_ok(
                *old(self),
                amount_sat,
            ) && !spec_ids_ok(*old(self)),
            r is Err ==> *final(self) == *old(self),
            r matches Ok(t) ==> ({
                &&& final(self).sent is Some
                &&& spec_sent_shape(*old(self), final(self).sent->Some_0, *to, amount_sat)
                &&& t@ == old(self).fresh_txids@[old(self).fresh_txids@.len() - 2]@
                &&& final(self).fresh_txids@ == old(self).fresh_txids@.take(
                    old(self).fresh_txids@.len() - 2,
                )
                &&& final(self).fresh_addresses@ == old(self).fresh_addresses@.take(
                    old(self).fresh_addresses@.len() - 1,
                )
                &&& final(self).height == old(self).height
                &&& final(self).wallets@ == old(self).wallets@
                &&& final(self).coinbase_address == old(self).coinbase_address
                &&& config_unchanged(*old(self), *final(self))
            }),
    {
        let funds_ok = self.sent.is_none() && self.coinbase_address.is_some() && self.height
            > self.maturity && amount_sat > 0 && amount_sat <= self.reward_sat - self.fee_sat;
        if !funds_ok {
            Err(SimError::InsufficientFunds)
        } else if self.fresh_txids.len() < 2 || self.fresh_addresses.len() < 1 {
            Err(SimError::OutOfIdentifiers)
        } else {
            let coinbase_addr = match &self.coinbase_address {
                Some(a) => a.clone(),
                None => String::new(),
            };
            let change_value = self.reward_sat - amount_sat - self.fee_sat;
            let funding_txid = self.fresh_txids.pop().unwrap();
            let payment_txid = self.fresh_txids.pop().unwrap();
            let change_address = self.fresh_addresses.pop().unwrap();
            proof {
                assert(self.fresh_txids@ =~= old(self).fresh_txids@.take(
                    old(self).fresh_txids@.len() - 2,
                ));
            }
            let mut funding_outputs: Vec<TxOut> = Vec::new();
            funding_outputs.push(TxOut { address: Some(coinbase_addr), value_sat: self.reward_sat });
            let funding = RawTx {
                txid: funding_txid.clone(),
                inputs: Vec::new(),
                outputs: funding_outputs,
            };
            let mut payment_inputs: Vec<TxIn> = Vec::new();
            payment_inputs.push(TxIn { prev_txid: Some(funding_txid), prev_vout: Some(0usize) });
            let mut payment_outputs: Vec<TxOut> = Vec::new();
            payment_outputs.push(TxOut { address: Some(change_address), value_sat: change_value });
            payment_outputs.push(TxOut { address: Some(to.text.clone()), value_sat: amount_sat });
            let payment = RawTx {
                txid: payment_txid.clone(),
                inputs: payment_inputs,
                outputs: payment_outputs,
            };
            self.sent = Some(SimSend { funding, payment, amount_sat, confirmed_height: None });
            Ok(payment_txid)
        }
    }

    /// The mempool entry of an unconfirmed transaction, if the node knows one
    /// under this id.
    pub fn get_mempool_entry(&self, txid: &String) -> (r: Option<MempoolEntry>)
        ensures
            r is Some <==> self.sent is Some && self.sent->Some_0.confirmed_height is None
                && self.sent->Some_0.payment.txid@ == txid@,
            r matches Some(e) ==> e.vsize == self.tx_vsize && e.fee_sat == self.fee_sat && e.time
                == 0 && e.height == self.height && e.ancestor_count == 1 && e.descendant_count
                == 1,
    {
        match &self.sent {
            Some(s) => {
                if s.confirmed_height.is_none() && s.payment.txid == *txid {
                    Some(
                        MempoolEntry {
                            vsize: self.tx_vsize,
                            fee_sat: self.fee_sat,
                            time: 0,
                            height: self.height,
                            ancestor_count: 1,
                            descendant_count: 1,
                        },
                    )
                } else {
                    None
                }
            },
            None => None,
        }
    }

    /// The wallet's view of its own transaction: signed fee (negative from the
    /// spender's perspective) and the confirming block, absent while the
    /// transaction is still in the mempool.
    pub fn get_transaction(&self, txid: &String) -> (r: Result<WalletTxInfo, SimError>)
        requires
            self.wf(),
        ensures
            r is Ok <==> self.sent is Some && self.sent->Some_0.payment.txid@ == txid@,
            r matches Ok(info) ==> ({
                let s = self.sent->Some_0;
                &&& info.fee_sat is Some
                &&& info.fee_sat->Some_0 as int == -(self.fee_sat as int)
                &&& (s.confirmed_height is Some ==> info.block_height == s.confirmed_height
                    && info.block_hash is Some && info.block_hash->Some_0@ == self.confirm_hash@)
                &&& (s.confirmed_height is None ==> info.block_height is None && info.block_hash
                    is None)
            }),
            r matches Err(e) ==> e == SimError::UnknownTransaction,
    {
        match &self.sent {
            Some(s) => {
                if s.payment.txid == *txid {
                    let fee: i64 = -(self.fee_sat as i64);
                    match s.confirmed_height {
                        Some(h) => Ok(
                            WalletTxInfo {
                                fee_sat: Some(fee),
                                block_height: Some(h),
                                block_hash: Some(self.confirm_hash.clone()),
                            },
                        ),
                        None => Ok(
                            WalletTxInfo { fee_sat: Some(fee), block_height: None, block_hash: None },
                        ),
                    }
                } else {
                    Err(SimError::UnknownTransaction)
                }
            },
            None => Err(SimError::UnknownTransaction),
        }
    }

    /// The decoded form of a transaction the node knows: the sent payment or
    /// the coinbase transaction it spends.
    pub fn get_raw_transaction(&self, txid: &String) -> (r: Result<RawTx, SimError>)
        ensures
            r is Ok <==> self.sent is Some && (self.sent->Some_0.payment.txid@ == txid@
                || self.sent->Some_0.funding.txid@ == txid@),
            r matches Ok(tx) ==> ({
                let s = self.sent->Some_0;
                if s.payment.txid@ == txid@ {
                    tx_eq(tx, s.payment)
                } else {
                    tx_eq(tx, s.funding)
                }
            }),
            r matches Err(e) ==> e == SimError::UnknownTransaction,
    {
        match &self.sent {
            Some(s) => {
                if s.payment.txid == *txid {
                    Ok(s.payment.duplicate())
                } else if s.funding.txid == *txid {
                    Ok(s.funding.duplicate())
                } else {
                    Err(SimError::UnknownTransaction)
                }
            },
            None => Err(SimError::UnknownTransaction),
        }
    }
}

/// Derive one fresh labeled address, then mine one block at a time to it,
/// re-checking the balance after each, and stop as soon as the balance is
/// strictly positive or the safety ceiling `cap` of mined blocks is reached.
/// Returns the mining address, the number of blocks mined, and the final
/// balance. On a fresh chain this mines exactly maturity + 1 blocks — one
/// block past the maturity depth — and if the ceiling is lower than that, it
/// returns with the zero balance it last observed rather than looping on.
pub fn fund_until_positive(node: &mut SimNode, label: &str, cap: u64) -> (r: Result<
    (Address, u64, u64),
    SimError,
>)
    requires
        old(node).wf(),
        old(node).height == 0,
        old(node).sent is None,
        old(node).reward_sat > 0,
        1 <= cap <= 1_000_000,
    ensures
        final(node).wf(),
        final(node).sent is None,
        r is Ok <==> old(node).fresh_addresses@.len() > 0,
        r matches Err(e) ==> e == SimError::OutOfIdentifiers && final(node).height == 0,
        r matches Ok(p) ==> ({
            let (addr, blocks, balance) = p;
            &&& addr.text == old(node).fresh_addresses@.last()
            &&& addr.network == old(node).network
            &&& final(node).height == blocks
            &&& balance as int == final(node).spec_balance()
            &&& (old(node).maturity < cap ==> blocks == old(node).maturity + 1 && balance == old(
                node,
            ).reward_sat && balance > 0)
            &&& (old(node).maturity >= cap ==> blocks == cap && balance == 0)
            &&& final(node).coinbase_address is Some && final(node).coinbase_address->Some_0@
                == addr.text@
            &&& final(node).fresh_addresses@ == old(node).fresh_addresses@.drop_last()
        }),
        final(node).wallets@ == old(node).wallets@,
        final(node).fresh_txids@ == old(node).fresh_txids@,
        config_unchanged(*old(node), *final(node)),
{
    let addr = match node.get_new_address(label) {
        Ok(a) => a,
        Err(e) => {
            return Err(e);
        },
    };
    let mut blocks: u64 = 0;
    let mut balance: u64 = node.get_balance();
    while !fund_should_stop(balance, blocks, cap)
        invariant
            node.wf(),
            node.height == blocks,
            blocks <= cap,
            cap <= 1_000_000,
            node.sent is None,
            node.reward_sat > 0,
            node.maturity == old(node).maturity,
            node.reward_sat == old(node).reward_sat,
            node.network == old(node).network,
            balance as int == node.spec_balance(),
            balance == 0 ==> blocks <= node.maturity,
            balance > 0 ==> blocks == node.maturity + 1 && balance == node.reward_sat,
            blocks >= 1 ==> node.coinbase_address is Some && node.coinbase_address->Some_0@
                == addr.text@,
            node.wallets@ == old(node).wallets@,
            node.fresh_addresses@ == old(node).fresh_addresses@.drop_last(),
            node.fresh_txids@ == old(node).fresh_txids@,
            config_unchanged(*old(node), *node),
        decreases cap - blocks,
    {
        node.generate_to_address(&addr);
        blocks = blocks + 1;
        balance = node.get_balance();
        proof {
            let m = node.mature_blocks();
            if m == 0 {
            } else {
                assert(m == 1);
                assert(1 * node.reward_sat == node.reward_sat);
            }
        }
    }
    Ok((addr, blocks, balance))
}

/// The shape of the payment a successful send leaves in flight: a synthesized
/// coinbase transaction paying the mining address the whole reward, and a
/// payment transaction spending its only output into a change output (change
/// address, reward minus amount minus fee) followed by the payment output.
pub open spec fn spec_sent_shape(old_n: SimNode, s: SimSend, to: Address, amount_sat: u64) -> bool {
    let funding_txid = old_n.fresh_txids@[old_n.fresh_txids@.len() - 1];
    let payment_txid = old_n.fresh_txids@[old_n.fresh_txids@.len() - 2];
    let change_addr = old_n.fresh_addresses@[old_n.fresh_addresses@.len() - 1];
    &&& s.amount_sat == amount_sat
    &&& s.confirmed_height is None
    &&& s.funding.txid@ == funding_txid@
    &&& s.funding.inputs@.len() == 0
    &&& s.funding.outputs@.len() == 1
    &&& s.funding.outputs@[0].address matches Some(a) && a@ == old_n.coinbase_address->Some_0@
    &&& s.funding.outputs@[0].value_sat == old_n.reward_sat
    &&& s.payment.txid@ == payment_txid@
    &&& s.payment.inputs@.len() == 1
    &&& s.payment.inputs@[0].prev_txid matches Some(t) && t@ == funding_txid@
    &&& s.payment.inputs@[0].prev_vout == Some(0usize)
    &&& s.payment.outputs@.len() == 2
    &&& s.payment.outputs@[0].address matches Some(a) && a@ == change_addr@
    &&& s.payment.outputs@[0].value_sat as int == old_n.reward_sat - amount_sat - old_n.fee_sat
    &&& s.payment.outputs@[1].address matches Some(a) && a@ == to.text@
    &&& s.payment.outputs@[1].value_sat == amount_sat
}

} // verus!
