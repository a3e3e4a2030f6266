//! What passes between the rules and the external ledger.

use vstd::prelude::*;
use crate::identity::Identity;

verus! {

/// One movement of value that the ledger is asked to carry out.
#[derive(Clone, Copy, Debug, PartialEq, Eq)]
pub struct TransferInstruction {
    /// The token account debited.
    pub from: Identity,
    /// The token account credited.
    pub to: Identity,
    /// The signer whose signature authorizes the debit.
    pub authority: Identity,
    /// The amount moved, in minor units.
    pub amount: u64,
}

/// What the ledger answered to the transfers of one operation, taken as a
/// unit.
#[derive(Clone, Copy, Debug, PartialEq, Eq, Structural)]
pub enum LedgerOutcome {
    /// Every transfer was carried out.
    Completed,
    /// Not every transfer was carried out. The operation is void, and the
    /// ledger must not keep what it carried out of it.
    Failed,
}

/// The transfers of one operation on their way through the ledger: they are
/// sent one after another, in order, and the first one that the ledger
/// rejects ends the run, so that none after it is sent.
#[derive(Debug)]
pub struct TransferRun {
    transfers: Vec<TransferInstruction>,
    carried_out: usize,
    rejected: bool,
}

impl TransferRun {
    /// No more transfers are counted as carried out than there are, and a
    /// rejection leaves at least the rejected one not carried out.
    #[verifier::type_invariant]
    spec fn consistent(self) -> bool {
        &&& self.carried_out <= self.transfers.len()
        &&& self.rejected ==> self.carried_out < self.transfers.len()
    }

    /// The transfers of the operation, in the order in which they are sent.
    pub closed spec fn transfers(self) -> Seq<TransferInstruction> {
        self.transfers@
    }

    /// How many of the transfers the ledger has carried out.
    pub closed spec fn carried_out(self) -> nat {
        self.carried_out as nat
    }

    /// Whether the ledger has rejected a transfer.
    pub closed spec fn rejected(self) -> bool {
        self.rejected
    }

    /// The transfer to be sent next, if the run has not ended.
    pub open spec fn pending(self) -> Option<TransferInstruction> {
        if !self.rejected() && self.carried_out() < self.transfers().len() {
            Some(self.transfers()[self.carried_out() as int])
        } else {
            None
        }
    }

    /// What the run amounts to: completed when every transfer was carried
    /// out, failed when one was rejected or is still to be sent.
    pub open spec fn result(self) -> LedgerOutcome {
        if self.carried_out() == self.transfers().len() {
            LedgerOutcome::Completed
        } else {
            LedgerOutcome::Failed
        }
    }

    /// A run of `transfers` of which none has been sent yet.
    pub fn new(transfers: Vec<TransferInstruction>) -> (run: TransferRun)
        ensures
            run.transfers() == transfers@,
            run.carried_out() == 0,
            !run.rejected(),
    {
        TransferRun { transfers, carried_out: 0, rejected: false }
    }

    /// The transfer to be sent next: the first one that has not been carried
    /// out, unless one was rejected or all are done.
    pub fn next_transfer(&self) -> (next: Option<TransferInstruction>)
        ensures
            next == self.pending(),
    {
        proof {
            use_type_invariant(self);
        }
        if !self.rejected && self.carried_out < self.transfers.len() {
            Some(self.transfers[self.carried_out])
        } else {
            None
        }
    }

    /// Takes the ledger's answer to the transfer that was sent last. A
    /// transfer carried out moves the run on to the next one; a transfer
    /// rejected ends the run. An answer to a run that has ended is ignored.
    pub fn record(&mut self, accepted: bool)
        ensures
            final(self).transfers() == old(self).transfers(),
            old(self).pending() is Some && accepted ==> final(self).carried_out() == old(
                self,
            ).carried_out() + 1 && !final(self).rejected(),
            old(self).pending() is Some && !accepted ==> final(self).carried_out() == old(
                self,
            ).carried_out() && final(self).rejected() && final(self).pending() is None,
            old(self).pending() is None ==> final(self).carried_out() == old(self).carried_out()
                && final(self).rejected() == old(self).rejected() && final(self).pending()
                is None,
            old(self).rejected() ==> final(self).rejected(),
    {
        proof {
            use_type_invariant(&*self);
        }
        if !self.rejected && self.carried_out < self.transfers.len() {
            if accepted {
                self.carried_out = self.carried_out + 1;
            } else {
                self.rejected = true;
            }
        }
    }

    /// What the run amounts to so far: completed if and only if every
    /// transfer was carried out.
    pub fn outcome(&self) -> (outcome: LedgerOutcome)
        ensures
            outcome == self.result(),
            outcome is Completed <==> self.carried_out() == self.transfers().len(),
            outcome is Completed ==> !self.rejected() && self.pending() is None,
            self.rejected() ==> outcome is Failed,
    {
        proof {
            use_type_invariant(self);
        }
        if self.carried_out == self.transfers.len() {
            LedgerOutcome::Completed
        } else {
            LedgerOutcome::Failed
        }
    }
}

} // verus!
