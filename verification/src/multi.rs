//! The multi-select session: any number of callbacks, a stream of files.

use crate::channel::files_poll_next;
use crate::channel::surfaced;
use crate::channel::watch_channel;
use crate::channel::watch_send;
use crate::channel::watch_stream;
use crate::channel::PickedFiles;
use crate::extensions::marshallable;
use crate::handle::FileHandle;
use crate::progress::Progress;
use crate::request::BrowserRequest;
use crate::shim::incoming;
use std::task::Context;
use tokio::sync::watch;
use vstd::prelude::*;

verus! {

/// The producing half of a multi-select session. It is handed to the native
/// layer and stays there from one callback to the next; letting go of it
/// ends the stream.
pub struct MultiProducer {
    tx: watch::Sender<Option<FileHandle>>,
}

impl MultiProducer {
    /// The callback fired with `data`. A buffer is sent as the next file,
    /// and the producer is to be kept for the callbacks that may follow;
    /// without a buffer nothing is sent, and the producer is to be let go.
    /// The result says which: `true` to keep it.
    ///
    /// Where the picks are no longer there to listen, the file is dropped.
    pub fn deliver(&self, data: Option<&[u8]>) -> (keep: bool)
        ensures
            keep == (data is Some),
    {
        match incoming(data) {
            Some(handle) => {
                let _ = watch_send(&self.tx, Some(handle));
                true
            },
            None => false,
        }
    }
}

/// Which observed values the stream of picked files passes on: a file is
/// passed on as it is, and "no file", which is what the channel holds before
/// anything was picked, is passed over.
pub fn surface(observed: Option<FileHandle>) -> (item: Option<FileHandle>)
    ensures
        item == observed,
{
    observed
}

/// The files that the stream passes on of the values it observed, in the
/// order in which it observed them.
pub open spec fn files_among(observed: Seq<Option<FileHandle>>) -> Seq<FileHandle>
    decreases observed.len(),
{
    if observed.len() == 0 {
        Seq::empty()
    } else {
        let earlier = files_among(observed.drop_last());
        match observed.last() {
            Some(handle) => earlier.push(handle),
            None => earlier,
        }
    }
}

/// A stream that observes the seed and then one file per callback passes on
/// exactly those files, in callback order. With no callback it passes on
/// nothing.
pub proof fn lemma_stream_is_the_files_delivered(files: Seq<FileHandle>)
    ensures
        files_among(seq![None] + files.map_values(|handle: FileHandle| Some(handle))) == files,
    decreases files.len(),
{
    let messages = files.map_values(|handle: FileHandle| Some(handle));
    let observed = seq![None] + messages;
    if files.len() == 0 {
        assert(observed.drop_last() == Seq::<Option<FileHandle>>::empty());
        assert(files_among(observed.drop_last()) == Seq::<FileHandle>::empty());
        assert(files_among(observed) == files);
    } else {
        let before = files.drop_last();
        lemma_stream_is_the_files_delivered(before);
        assert(observed.drop_last() == seq![None] + before.map_values(
            |handle: FileHandle| Some(handle),
        ));
        assert(observed.last() == Some(files.last()));
        assert(before.push(files.last()) == files);
    }
}

/// The consuming half of a multi-select session, together with the
/// presenter that it keeps alive: the presenter is let go when the picks are
/// dropped, neither earlier nor later.
pub struct MultiPick<P> {
    files: PickedFiles,
    presenter: P,
}

impl<P> MultiPick<P> {
    /// The presenter that the picks keep alive.
    pub closed spec fn presenter(&self) -> P {
        self.presenter
    }

    /// Asks once for the next file. `Ready(Some(..))` is a file,
    /// `Ready(None)` the end of the stream, which comes when the producer
    /// was let go. Otherwise the polling task is woken when there is more.
    pub fn poll_next_pick(&mut self, cx: &mut Context<'_>) -> (progress: Progress<
        Option<FileHandle>,
    >)
        ensures
            final(self).presenter() == old(self).presenter(),
    {
        files_poll_next(&mut self.files, cx)
    }
}

/// Starts a multi-select session. `show` stands for the native browser: it
/// is called once, with the request for `extensions` in multi-selection mode
/// and the producer for the callbacks, and returns the presenter, which the
/// picks then keep alive.
pub fn pick_files<P, F>(extensions: &[&str], show: F) -> (picks: MultiPick<P>) where
    F: FnOnce(&BrowserRequest, MultiProducer) -> P,

    requires
        marshallable(extensions@),
        forall|request: BrowserRequest, producer: MultiProducer|
            request.asks(extensions@, true) ==> call_requires(show, (&request, producer)),
    ensures
        exists|request: BrowserRequest, producer: MultiProducer|
            request.asks(extensions@, true) && call_ensures(
                show,
                (&request, producer),
                picks.presenter(),
            ),
{
    let request = BrowserRequest::new(extensions, true);
    let (tx, rx) = watch_channel(None);
    let producer = MultiProducer { tx };
    let ghost handed = producer;
    let presenter = show(&request, producer);
    let picks = MultiPick { files: surfaced(watch_stream(rx)), presenter };
    assert(request.asks(extensions@, true) && call_ensures(
        show,
        (&request, handed),
        picks.presenter(),
    ));
    picks
}

} // verus!
