//! The unbounded-payout sample contract: payees accumulate without bound and
//! the payout loop runs over all of them — the shape the unbounded-operation
//! detector flags. Caller identity and transferred value come in as plain
//! arguments; performing the transfers is the runtime environment's job, so
//! the payout returns the list of transfers to make.

use vstd::prelude::*;

verus! {

/// An account identifier, as the environment hands it over.
pub type AccountId = u128;

/// A token amount.
pub type Balance = u128;

/// One registered payee: who is paid, and how much.
#[derive(Clone, Copy, PartialEq, Eq, Structural, Debug)]
pub struct Payee {
    pub address: AccountId,
    pub value: Balance,
}

/// A contract that registers payees under consecutive indices and pays all
/// of them out in one unbounded pass.
pub struct DosUnboundedOperation {
    payees: Vec<Payee>,
    next_payee_ix: u128,
}

impl View for DosUnboundedOperation {
    type V = Seq<Payee>;

    closed spec fn view(&self) -> Seq<Payee> {
        self.payees@
    }
}

impl DosUnboundedOperation {
    /// The storage is well formed: the next free index is the number of
    /// registered payees.
    pub closed spec fn wf(&self) -> bool {
        self.next_payee_ix == self.payees@.len()
    }

    /// An empty contract with no payees.
    pub fn new() -> (c: Self)
        ensures
            c@ == Seq::<Payee>::empty(),
            c.wf(),
    {
        Self { payees: Vec::new(), next_payee_ix: 0 }
    }

    /// Register the caller as a payee of the transferred value, returning the
    /// index of the new payee.
    pub fn add_payee(&mut self, address: AccountId, value: Balance) -> (ix: u128)
        requires
            old(self).wf(),
            old(self)@.len() < usize::MAX,
        ensures
            final(self).wf(),
            final(self)@ == old(self)@.push(Payee { address, value }),
            ix == old(self)@.len(),
    {
        let new_payee = Payee { address, value };
        self.payees.push(new_payee);
        self.next_payee_ix = self.next_payee_ix + 1;
        self.next_payee_ix - 1
    }

    /// Look up a payee by index; `Some` exactly for indices already
    /// registered.
    pub fn get_payee(&self, id: u128) -> (r: Option<Payee>)
        requires
            self.wf(),
        ensures
            r == if id < self@.len() {
                Some(self@[id as int])
            } else {
                None::<Payee>
            },
    {
        if id < self.payees.len() as u128 {
            Some(self.payees[id as usize])
        } else {
            None
        }
    }

    /// Pay out every registered payee: the returned transfers cover each
    /// payee once, in registration order, for exactly the registered value.
    /// The storage itself is left unchanged.
    pub fn pay_out(&mut self) -> (transfers: Vec<(AccountId, Balance)>)
        requires
            old(self).wf(),
        ensures
            *final(self) == *old(self),
            final(self).wf(),
            transfers@.len() == old(self)@.len(),
            forall|i: int|
                0 <= i < transfers@.len() ==> #[trigger] transfers@[i] == (
                    old(self)@[i].address,
                    old(self)@[i].value,
                ),
    {
        let mut transfers: Vec<(AccountId, Balance)> = Vec::new();
        let mut i: usize = 0;
        while i < self.payees.len()
            invariant
                0 <= i <= self.payees@.len(),
                transfers@.len() == i,
                forall|k: int|
                    0 <= k < i ==> #[trigger] transfers@[k] == (
                        self.payees@[k].address,
                        self.payees@[k].value,
                    ),
            decreases self.payees@.len() - i,
        {
            let payee = self.payees[i];
            transfers.push((payee.address, payee.value));
            i = i + 1;
        }
        transfers
    }
}

} // verus!
