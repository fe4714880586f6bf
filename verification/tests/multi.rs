use document_picker::multi::surface;
use document_picker::handle::FileHandle;
use document_picker::pick_files;
use document_picker::multi::MultiPick;
use document_picker::multi::MultiProducer;
use document_picker::progress::Progress;
use std::cell::Cell;
use std::rc::Rc;
use std::sync::atomic::AtomicUsize;
use std::sync::atomic::Ordering;
use std::sync::Arc;
use std::task::Context;
use std::task::Wake;
use std::task::Waker;

struct TalliedPresenter {
    releases: Rc<Cell<u32>>,
}

impl Drop for TalliedPresenter {
    fn drop(&mut self) {
        self.releases.set(self.releases.get() + 1);
    }
}

struct WakeTally {
    wakes: AtomicUsize,
}

impl Wake for WakeTally {
    fn wake(self: Arc<Self>) {
        self.wakes.fetch_add(1, Ordering::SeqCst);
    }
}

fn open_multi_session() -> (MultiProducer, MultiPick<()>) {
    let mut handed = None;
    let picks = pick_files(&["txt"], |_request, producer| {
        handed = Some(producer);
    });
    (handed.expect("the browser is shown once"), picks)
}

fn poll_multi<P>(picks: &mut MultiPick<P>) -> Progress<Option<FileHandle>> {
    let mut cx = Context::from_waker(Waker::noop());
    picks.poll_next_pick(&mut cx)
}

fn next_file<P>(picks: &mut MultiPick<P>) -> Vec<u8> {
    match poll_multi(picks) {
        Progress::Ready(Some(handle)) => handle.to_vec(),
        Progress::Ready(None) => panic!("the stream ended"),
        Progress::Pending => panic!("the stream has nothing"),
    }
}

#[test]
fn multi_pick_yields_the_files_in_callback_order() {
    let (producer, mut picks) = open_multi_session();
    assert!(producer.deliver(Some(b"first")));
    assert_eq!(next_file(&mut picks), b"first".to_vec());
    assert!(producer.deliver(Some(b"second one")));
    assert_eq!(next_file(&mut picks), b"second one".to_vec());
    assert!(producer.deliver(Some(&[0, 1, 2])));
    assert_eq!(next_file(&mut picks), vec![0, 1, 2]);
    assert!(matches!(poll_multi(&mut picks), Progress::Pending));
    assert!(matches!(poll_multi(&mut picks), Progress::Pending));
    drop(picks);
    drop(producer);
}

#[test]
fn multi_pick_without_callbacks_yields_nothing() {
    let (producer, mut picks) = open_multi_session();
    assert!(matches!(poll_multi(&mut picks), Progress::Pending));
    assert!(matches!(poll_multi(&mut picks), Progress::Pending));
    drop(picks);
    drop(producer);
}

#[test]
fn multi_pick_never_yields_the_seed() {
    let (producer, mut picks) = open_multi_session();
    assert!(matches!(poll_multi(&mut picks), Progress::Pending));
    assert!(producer.deliver(Some(&[1])));
    assert_eq!(next_file(&mut picks), vec![1]);
    assert!(matches!(poll_multi(&mut picks), Progress::Pending));
}

#[test]
fn multi_pick_yields_a_file_delivered_before_the_first_poll() {
    let (producer, mut picks) = open_multi_session();
    assert!(producer.deliver(Some(&[8, 9])));
    assert_eq!(next_file(&mut picks), vec![8, 9]);
    assert!(matches!(poll_multi(&mut picks), Progress::Pending));
}

#[test]
fn multi_pick_shows_only_the_latest_of_unobserved_files() {
    let (producer, mut picks) = open_multi_session();
    assert!(producer.deliver(Some(&[1])));
    assert!(producer.deliver(Some(&[2])));
    assert!(producer.deliver(Some(&[3])));
    assert_eq!(next_file(&mut picks), vec![3]);
    assert!(matches!(poll_multi(&mut picks), Progress::Pending));
}

#[test]
fn multi_pick_yields_equal_files_that_were_each_observed() {
    let (producer, mut picks) = open_multi_session();
    assert!(producer.deliver(Some(&[7])));
    assert_eq!(next_file(&mut picks), vec![7]);
    assert!(producer.deliver(Some(&[7])));
    assert_eq!(next_file(&mut picks), vec![7]);
}

#[test]
fn multi_pick_ends_when_the_producer_is_let_go() {
    let (producer, mut picks) = open_multi_session();
    assert!(producer.deliver(Some(&[5])));
    assert_eq!(next_file(&mut picks), vec![5]);
    drop(producer);
    assert!(matches!(poll_multi(&mut picks), Progress::Ready(None)));
    assert!(matches!(poll_multi(&mut picks), Progress::Ready(None)));
}

#[test]
fn multi_pick_cancelled_at_once_ends_without_files() {
    let (producer, mut picks) = open_multi_session();
    assert!(matches!(poll_multi(&mut picks), Progress::Pending));
    assert!(!producer.deliver(None));
    drop(producer);
    assert!(matches!(poll_multi(&mut picks), Progress::Ready(None)));
}

#[test]
fn callback_without_a_buffer_sends_nothing_and_gives_the_producer_up() {
    let (producer, mut picks) = open_multi_session();
    assert!(producer.deliver(Some(&[1])));
    assert_eq!(next_file(&mut picks), vec![1]);
    assert!(!producer.deliver(None));
    assert!(matches!(poll_multi(&mut picks), Progress::Pending));
}

#[test]
fn late_callback_after_the_picks_were_dropped_is_a_no_op() {
    let (producer, picks) = open_multi_session();
    drop(picks);
    assert!(producer.deliver(Some(&[1, 2, 3])));
    assert!(producer.deliver(Some(&[4])));
    assert!(!producer.deliver(None));
}

#[test]
fn callback_wakes_the_task_that_polls_the_stream() {
    let (producer, mut picks) = open_multi_session();
    let tally = Arc::new(WakeTally { wakes: AtomicUsize::new(0) });
    let waker = Waker::from(tally.clone());
    let mut cx = Context::from_waker(&waker);
    assert!(matches!(picks.poll_next_pick(&mut cx), Progress::Pending));
    assert_eq!(tally.wakes.load(Ordering::SeqCst), 0);
    assert!(producer.deliver(Some(&[1])));
    assert!(tally.wakes.load(Ordering::SeqCst) >= 1);
    assert!(matches!(picks.poll_next_pick(&mut cx), Progress::Ready(Some(_))));
}

#[test]
fn multi_session_asks_for_multiple_selection() {
    let mut seen = None;
    let _picks = pick_files(&["png", "jpg"], |request, _producer| {
        seen = Some((request.extensions.clone(), request.allow_multiple));
    });
    let (extensions, allow_multiple) = seen.expect("the browser is shown once");
    assert_eq!(extensions, vec![b"png\0".to_vec(), b"jpg\0".to_vec()]);
    assert!(allow_multiple);
}

#[test]
fn multi_pick_releases_its_presenter_once_when_dropped() {
    let releases = Rc::new(Cell::new(0));
    let presenter = TalliedPresenter { releases: releases.clone() };
    let mut handed = None;
    let mut picks = pick_files(&[], |_request, producer| {
        handed = Some(producer);
        presenter
    });
    let producer = handed.expect("the browser is shown once");
    assert!(producer.deliver(Some(&[1])));
    assert_eq!(next_file(&mut picks), vec![1]);
    assert_eq!(releases.get(), 0);
    drop(picks);
    assert_eq!(releases.get(), 1);
    drop(producer);
    assert_eq!(releases.get(), 1);
}

#[test]
fn multi_pick_dropped_unused_releases_its_presenter_once() {
    let releases = Rc::new(Cell::new(0));
    let presenter = TalliedPresenter { releases: releases.clone() };
    let picks = pick_files(&[], |_request, _producer| presenter);
    assert_eq!(releases.get(), 0);
    drop(picks);
    assert_eq!(releases.get(), 1);
}

#[test]
fn surface_passes_files_on_and_the_seed_over() {
    let surfaced = surface(Some(FileHandle::copy_from(&[1, 2])));
    assert_eq!(surfaced.as_deref(), Some(&[1u8, 2][..]));
    assert!(surface(None).is_none());
}
