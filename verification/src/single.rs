//! The one-shot session: at most one callback, one optional file.

use crate::channel::oneshot_channel;
use crate::channel::oneshot_poll;
use crate::channel::oneshot_send;
use crate::channel::receiver_open;
use crate::extensions::marshallable;
use crate::handle::FileHandle;
use crate::progress::Progress;
use crate::request::BrowserRequest;
use crate::shim::content;
use crate::shim::incoming;
use crate::shim::passed;
use std::task::Context;
use tokio::sync::oneshot;
use vstd::prelude::*;

verus! {

/// The producing half of a one-shot session. It is handed to the native
/// layer, and used up by the one callback that the session has.
pub struct SingleProducer {
    tx: oneshot::Sender<Option<FileHandle>>,
}

impl SingleProducer {
    /// The callback fired with `data`: sends the file, or "no file" where
    /// `data` is `None`, and gives the producer up. Where the pick is no
    /// longer there to listen, nothing happens but that the message comes
    /// back.
    pub fn deliver(self, data: Option<&[u8]>) -> (outcome: Result<(), Option<FileHandle>>)
        ensures
            outcome matches Err(back) ==> content(back) == passed(data),
    {
        oneshot_send(self.tx, incoming(data))
    }
}

/// What a pick resolves to, given what came out of the channel: the message
/// that was sent, or "no file" where the producer went away without sending.
pub open spec fn settled(received: Result<Option<FileHandle>, oneshot::error::RecvError>) -> Option<
    FileHandle,
> {
    match received {
        Ok(message) => message,
        Err(_) => None,
    }
}

/// Computes [`settled`].
pub fn settle(received: Result<Option<FileHandle>, oneshot::error::RecvError>) -> (pick: Option<
    FileHandle,
>)
    ensures
        pick == settled(received),
{
    match received {
        Ok(message) => message,
        Err(_) => None,
    }
}

/// A pick resolves to what the native layer passed, given that the
/// channel hands over the message that the callback sent: a buffer resolves
/// to a file of the same length that holds the same bytes, and no buffer to
/// no file.
pub proof fn lemma_pick_is_what_was_passed(data: Option<&[u8]>, message: Option<FileHandle>)
    requires
        content(message) == passed(data),
    ensures
        content(settled(Ok(message))) == passed(data),
        data matches Some(bytes) ==> settled(Ok(message)) matches Some(handle) && handle@.len()
            == bytes@.len() && handle@ == bytes@,
        data is None ==> settled(Ok(message)) is None,
{
}

/// The consuming half of a one-shot session, together with the presenter
/// that it keeps alive: the presenter is let go when the pick is dropped,
/// neither earlier nor later.
pub struct SinglePick<P> {
    rx: Option<oneshot::Receiver<Option<FileHandle>>>,
    presenter: P,
}

impl<P> SinglePick<P> {
    #[verifier::type_invariant]
    spec fn open_while_held(self) -> bool {
        self.rx matches Some(rx) ==> receiver_open(rx)
    }

    /// The pick has given its result. It gives one result and no second.
    pub closed spec fn resolved(&self) -> bool {
        self.rx is None
    }

    /// The presenter that the pick keeps alive.
    pub closed spec fn presenter(&self) -> P {
        self.presenter
    }

    /// Computes [`Self::resolved`].
    pub fn is_resolved(&self) -> (resolved: bool)
        ensures
            resolved == self.resolved(),
    {
        self.rx.is_none()
    }

    /// Asks once for the result. It is ready when the callback has fired, or
    /// when the producer went away without that, which counts as "no file".
    /// Otherwise the polling task is woken when either happens.
    pub fn poll_pick(&mut self, cx: &mut Context<'_>) -> (progress: Progress<Option<FileHandle>>)
        requires
            !old(self).resolved(),
        ensures
            final(self).resolved() <==> progress is Ready,
            final(self).presenter() == old(self).presenter(),
    {
        proof {
            use_type_invariant(&*self);
        }
        let mut slot: Option<oneshot::Receiver<Option<FileHandle>>> = None;
        std::mem::swap(&mut slot, &mut self.rx);
        match slot {
            Some(mut rx) => match oneshot_poll(&mut rx, cx) {
                Progress::Ready(received) => Progress::Ready(settle(received)),
                Progress::Pending => {
                    self.rx = Some(rx);
                    Progress::Pending
                },
            },
            // Not reached: an unresolved pick holds its receiver.
            None => Progress::Pending,
        }
    }
}

/// Starts a one-shot session. `show` stands for the native browser: it is
/// called once, with the request for `extensions` in single-selection mode
/// and the producer for the callback, and returns the presenter, which the
/// pick then keeps alive.
pub fn pick_file<P, F>(extensions: &[&str], show: F) -> (pick: SinglePick<P>) where
    F: FnOnce(&BrowserRequest, SingleProducer) -> P,

    requires
        marshallable(extensions@),
        forall|request: BrowserRequest, producer: SingleProducer|
            request.asks(extensions@, false) ==> call_requires(show, (&request, producer)),
    ensures
        !pick.resolved(),
        exists|request: BrowserRequest, producer: SingleProducer|
            request.asks(extensions@, false) && call_ensures(
                show,
                (&request, producer),
                pick.presenter(),
            ),
{
    let request = BrowserRequest::new(extensions, false);
    let (tx, rx) = oneshot_channel();
    let producer = SingleProducer { tx };
    let ghost handed = producer;
    let presenter = show(&request, producer);
    let pick = SinglePick { rx: Some(rx), presenter };
    assert(request.asks(extensions@, false) && call_ensures(
        show,
        (&request, handed),
        pick.presenter(),
    ));
    pick
}

} // verus!
