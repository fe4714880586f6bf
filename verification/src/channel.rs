//! The channel primitives that carry messages from the native callback to
//! the waiting task. Everything here is taken on trust from `tokio`,
//! `tokio-stream` and `std`; the sessions are verified against it.

use crate::handle::FileHandle;
use crate::multi::surface;
use crate::progress::Progress;
use std::future::Future;
use std::pin::Pin;
use std::task::Context;
use std::task::Poll;
use tokio::sync::oneshot;
use tokio::sync::watch;
use tokio_stream::adapters::FilterMap;
use tokio_stream::wrappers::WatchStream;
use tokio_stream::Stream;
use tokio_stream::StreamExt;
use vstd::prelude::*;

verus! {

/// `std::task::Context`: carries the waker of the polling task. Opaque.
#[verifier::external_type_specification]
#[verifier::external_body]
pub struct ExContext<'a>(Context<'a>);

/// `tokio::sync::oneshot::Sender`: the sending half of a one-shot channel.
/// Opaque.
#[verifier::external_type_specification]
#[verifier::external_body]
#[verifier::reject_recursive_types(T)]
pub struct ExOneshotSender<T>(oneshot::Sender<T>);

/// `tokio::sync::oneshot::Receiver`: the receiving half of a one-shot
/// channel. Opaque but for [`receiver_open`].
#[verifier::external_type_specification]
#[verifier::external_body]
#[verifier::reject_recursive_types(T)]
pub struct ExOneshotReceiver<T>(oneshot::Receiver<T>);

/// `tokio::sync::oneshot::error::RecvError`: the sender went away without
/// sending. Opaque; it carries nothing.
#[verifier::external_type_specification]
#[verifier::external_body]
pub struct ExRecvError(oneshot::error::RecvError);

/// `tokio::sync::watch::Sender`: the sending half of a latest-value
/// channel. Opaque.
#[verifier::external_type_specification]
#[verifier::external_body]
#[verifier::reject_recursive_types(T)]
pub struct ExWatchSender<T>(watch::Sender<T>);

/// `tokio::sync::watch::Receiver`: the receiving half of a latest-value
/// channel. Opaque.
#[verifier::external_type_specification]
#[verifier::external_body]
#[verifier::reject_recursive_types(T)]
pub struct ExWatchReceiver<T>(watch::Receiver<T>);

/// `tokio_stream::wrappers::WatchStream`: a latest-value receiver as a
/// stream of the values it observes. Opaque.
#[verifier::external_type_specification]
#[verifier::external_body]
#[verifier::reject_recursive_types(T)]
pub struct ExWatchStream<T>(WatchStream<T>);

/// The stream of picked files: a `tokio_stream::adapters::FilterMap` over a
/// `WatchStream`, which passes on the files among the observed values. It
/// is held here because its second type parameter is a function pointer.
#[verifier::external_body]
pub(crate) struct PickedFiles {
    inner: FilterMap<
        WatchStream<Option<FileHandle>>,
        fn(Option<FileHandle>) -> Option<FileHandle>,
    >,
}

/// Whether a one-shot receiver still holds its end of the channel. It is
/// made holding it, and gives it up for good when a poll of it returns
/// ready: `tokio` panics on a poll after that.
pub uninterp spec fn receiver_open(rx: oneshot::Receiver<Option<FileHandle>>) -> bool;

/// `tokio::sync::oneshot::channel`: the two halves of a new channel. Trusted:
/// the receiver is open.
#[verifier::external_body]
pub(crate) fn oneshot_channel() -> (halves: (
    oneshot::Sender<Option<FileHandle>>,
    oneshot::Receiver<Option<FileHandle>>,
))
    ensures
        receiver_open(halves.1),
{
    oneshot::channel()
}

/// `tokio::sync::oneshot::Sender::send`: hands `message` to the receiver.
/// Trusted: where the receiver is gone the call fails, and hands back the
/// very message it was given. Whether it fails is up to the other side.
#[verifier::external_body]
pub(crate) fn oneshot_send(
    tx: oneshot::Sender<Option<FileHandle>>,
    message: Option<FileHandle>,
) -> (outcome: Result<(), Option<FileHandle>>)
    ensures
        outcome matches Err(back) ==> back == message,
{
    tx.send(message)
}

/// `Future::poll` of `tokio::sync::oneshot::Receiver`. Trusted: on an open
/// receiver the call does not panic; it leaves the receiver open exactly
/// when it returns pending. What it returns is up to the other side.
#[verifier::external_body]
pub(crate) fn oneshot_poll(
    rx: &mut oneshot::Receiver<Option<FileHandle>>,
    cx: &mut Context<'_>,
) -> (polled: Progress<Result<Option<FileHandle>, oneshot::error::RecvError>>)
    requires
        receiver_open(*old(rx)),
    ensures
        receiver_open(*final(rx)) <==> polled is Pending,
{
    match Pin::new(rx).poll(cx) {
        Poll::Ready(received) => Progress::Ready(received),
        Poll::Pending => Progress::Pending,
    }
}

/// `tokio::sync::watch::channel`: the two halves of a new latest-value
/// channel that holds `seed`. Nothing is claimed of them.
#[verifier::external_body]
pub(crate) fn watch_channel(seed: Option<FileHandle>) -> (halves: (
    watch::Sender<Option<FileHandle>>,
    watch::Receiver<Option<FileHandle>>,
))
{
    watch::channel(seed)
}

/// `tokio::sync::watch::Sender::send`: makes `message` the channel's latest
/// value and wakes the receivers, unless no receiver is left, in which case
/// the message is dropped. The result says whether it was taken; nothing is
/// claimed of it, since that is up to the other side.
#[verifier::external_body]
pub(crate) fn watch_send(tx: &watch::Sender<Option<FileHandle>>, message: Option<FileHandle>) -> (taken: bool)
{
    tx.send(message).is_ok()
}

/// `tokio_stream::wrappers::WatchStream::new`: the stream of the values
/// that `rx` observes, the current one first. Nothing is claimed of it.
#[verifier::external_body]
pub(crate) fn watch_stream(rx: watch::Receiver<Option<FileHandle>>) -> (observed: WatchStream<
    Option<FileHandle>,
>)
{
    WatchStream::new(rx)
}

/// `tokio_stream::StreamExt::filter_map` with [`surface`]: the stream of
/// what `surface` lets through of `observed`. Nothing is claimed of it.
#[verifier::external_body]
pub(crate) fn surfaced(observed: WatchStream<Option<FileHandle>>) -> (files: PickedFiles)
{
    PickedFiles { inner: observed.filter_map(surface) }
}

/// `Stream::poll_next` of the filtered stream. Nothing is claimed of what it
/// returns: that is up to the other side.
#[verifier::external_body]
pub(crate) fn files_poll_next(files: &mut PickedFiles, cx: &mut Context<'_>) -> (polled: Progress<
    Option<FileHandle>,
>)
{
    match Pin::new(&mut files.inner).poll_next(cx) {
        Poll::Ready(next) => Progress::Ready(next),
        Poll::Pending => Progress::Pending,
    }
}

} // verus!
