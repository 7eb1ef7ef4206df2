//! Memos: simple messages sent from devices to the user, useful for
//! debugging.
use vstd::prelude::*;
use core::marker::PhantomData;

verus! {

/// Receives memos. An inactive inbox ignores what it is sent.
pub trait Inbox: Sized {
    type Memo;

    spec fn spec_active(&self) -> bool;

    /// The inbox after it takes in `memo`.
    spec fn spec_receive(&self, memo: Self::Memo) -> Self;

    fn receive_impl(&mut self, memo: Self::Memo)
        ensures
            *final(self) == old(self).spec_receive(memo),
    ;

    fn active(&self) -> (r: bool)
        ensures
            r == self.spec_active(),
    ;

    /// Take in `memo` if the inbox is active.
    fn receive(&mut self, memo: Self::Memo)
        ensures
            *final(self) == if old(self).spec_active() {
                old(self).spec_receive(memo)
            } else {
                *old(self)
            },
    {
        if self.active() {
            self.receive_impl(memo);
        }
    }

    /// Is the inbox asking the emulation to stop?
    spec fn spec_holding(&self) -> bool;

    fn holding(&self) -> (r: bool)
        ensures
            r == self.spec_holding(),
    ;
}

/// The inbox after it is sent `memo`: an inactive one ignores it.
pub open spec fn spec_sent<B: Inbox>(b: B, memo: B::Memo) -> B {
    if b.spec_active() {
        b.spec_receive(memo)
    } else {
        b
    }
}

/// An inbox that throws away its memos.
pub struct NothingInbox<M>(PhantomData<M>);

/// The inbox that throws away its memos.
pub closed spec fn nothing_inbox<M>() -> NothingInbox<M> {
    NothingInbox(PhantomData)
}

impl<M> NothingInbox<M> {
    pub fn default() -> (r: NothingInbox<M>)
        ensures
            r == nothing_inbox::<M>(),
    {
        NothingInbox(PhantomData)
    }
}

impl<M> Inbox for NothingInbox<M> {
    type Memo = M;

    open spec fn spec_active(&self) -> bool {
        false
    }

    open spec fn spec_receive(&self, memo: M) -> Self {
        *self
    }

    open spec fn spec_holding(&self) -> bool {
        false
    }

    fn holding(&self) -> (r: bool) {
        false
    }

    fn receive_impl(&mut self, _memo: M) {
    }

    fn active(&self) -> (r: bool) {
        false
    }
}

} // verus!
