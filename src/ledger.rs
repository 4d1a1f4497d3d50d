use vstd::prelude::*;

use crate::error::TransferError;

verus! {

/// The state of one accumulator module: its own identifier, the running total
/// of recorded amounts, and the recipient of the latest recorded transfer
/// (`None` until the first one). The account identifier type `A` is the
/// host's; the accumulator only stores and returns such values.
pub struct JetLumen<A> {
    self_id: A,
    total: i128,
    last_recipient: Option<A>,
}

/// Whether `x` lies in the range of `i128`.
pub open spec fn fits_i128(x: int) -> bool {
    i128::MIN <= x <= i128::MAX
}

/// One call of `record_transfer` from `pre` to `post`: it recorded the
/// transfer when `ok`, and left the state unchanged otherwise.
pub open spec fn call_outcome<A>(
    pre: JetLumen<A>,
    post: JetLumen<A>,
    recipient: A,
    amount: i128,
    ok: bool,
) -> bool {
    if ok {
        pre.records(&post, recipient, amount)
    } else {
        post == pre
    }
}

impl<A> JetLumen<A> {
    /// The identifier of the module itself.
    pub closed spec fn self_id_spec(&self) -> A {
        self.self_id
    }

    /// The running total of recorded amounts.
    pub closed spec fn total_spec(&self) -> int {
        self.total as int
    }

    /// The recipient stored by the latest recorded transfer, if any.
    pub closed spec fn stored_recipient(&self) -> Option<A> {
        self.last_recipient
    }

    /// The reported last recipient: the stored one, or the module's own
    /// identifier while no transfer has been recorded.
    pub open spec fn last_recipient_spec(&self) -> A {
        match self.stored_recipient() {
            Some(a) => a,
            None => self.self_id_spec(),
        }
    }

    /// A state in which nothing has been recorded yet.
    pub open spec fn is_fresh(&self) -> bool {
        &&& self.total_spec() == 0
        &&& self.stored_recipient() is None
    }

    /// `post` is `self` after recording a transfer of `amount` to `recipient`.
    pub open spec fn records(&self, post: &Self, recipient: A, amount: i128) -> bool {
        &&& post.self_id_spec() == self.self_id_spec()
        &&& post.total_spec() == self.total_spec() + amount
        &&& post.stored_recipient() == Some(recipient)
    }

    /// A fresh accumulator for the module identified by `self_id`.
    pub fn new(self_id: A) -> (r: Self)
        ensures
            r.is_fresh(),
            r.self_id_spec() == self_id,
            r.total_spec() == 0,
            r.last_recipient_spec() == self_id,
    {
        JetLumen { self_id, total: 0, last_recipient: None }
    }

    /// The accumulator as persisted by the host: an absent total counts as 0,
    /// an absent recipient as none recorded yet.
    pub fn restore(self_id: A, total: Option<i128>, last_recipient: Option<A>) -> (r: Self)
        ensures
            r.self_id_spec() == self_id,
            r.total_spec() == match total {
                Some(t) => t as int,
                None => 0int,
            },
            r.stored_recipient() == last_recipient,
    {
        let total: i128 = match total {
            Some(t) => t,
            None => 0,
        };
        JetLumen { self_id, total, last_recipient }
    }

    /// Records a transfer of `amount` from `_sender` to `recipient`.
    ///
    /// `authorized` is the host's verdict on the authorization proof for the
    /// sender. Without it the transfer is refused; it is refused too when the
    /// new total would overflow `i128`. A refused transfer changes nothing.
    /// Negative amounts are accepted and lower the total.
    pub fn record_transfer(
        &mut self,
        _sender: &A,
        recipient: A,
        amount: i128,
        authorized: bool,
    ) -> (r: Result<(), TransferError>)
        ensures
            !authorized ==> r == Err::<(), TransferError>(TransferError::Unauthorized),
            authorized && !fits_i128(old(self).total_spec() + amount) ==> r == Err::<
                (),
                TransferError,
            >(TransferError::Overflow),
            authorized && fits_i128(old(self).total_spec() + amount) ==> r is Ok,
            r is Ok ==> old(self).records(final(self), recipient, amount),
            r is Err ==> *final(self) == *old(self),
            call_outcome(*old(self), *final(self), recipient, amount, r is Ok),
    {
        if !authorized {
            return Err(TransferError::Unauthorized);
        }
        match self.total.checked_add(amount) {
            Some(t) => {
                self.total = t;
                self.last_recipient = Some(recipient);
                Ok(())
            },
            None => Err(TransferError::Overflow),
        }
    }

    /// The running total of recorded amounts; 0 before any transfer.
    pub fn get_total_transferred(&self) -> (r: i128)
        ensures
            r as int == self.total_spec(),
    {
        self.total
    }

    /// The recipient of the latest recorded transfer, or the module's own
    /// identifier if none has been recorded.
    pub fn get_last_recipient(&self) -> (r: &A)
        ensures
            *r == self.last_recipient_spec(),
    {
        match &self.last_recipient {
            Some(a) => a,
            None => &self.self_id,
        }
    }
}

} // verus!
