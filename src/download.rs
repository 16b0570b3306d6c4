//! The decisions of a streaming download.
//!
//! The caller performs the transfer: it opens the request, creates the file,
//! reads chunks and writes them. After each of those it hands the outcome to
//! [`Download::step`], which says what to do next and which event to report.
//! [`advance`] does the same and also consults and maintains the
//! cancellation registry.
use vstd::prelude::*;
use vstd::string::*;
use crate::cancel::CancelRegistry;
use crate::text::{concat_strs, decimal, decimal_chars, string_of};

verus! {

/// A progress report of a running download.
pub struct DownloadProgress {
    pub app_id: String,
    /// Percent done, in hundredths of a percent (`10000` is complete).
    pub progress_hundredths: u128,
    pub downloaded: u64,
    pub total: u64,
    pub status: String,
}

/// The terminal report of a download.
pub struct DownloadComplete {
    pub app_id: String,
    pub file_path: String,
    pub success: bool,
    pub error: Option<String>,
}

/// What the caller observed since the previous step.
pub enum DownloadEvent {
    /// The server answered; the declared body length, if any.
    Responded { content_length: Option<u64> },
    /// The request could not be sent or was refused.
    RequestError(String),
    /// The destination file could not be created.
    CreateError(String),
    /// A chunk of this many bytes was received.
    Chunk(u64),
    /// The stream delivered an error instead of a chunk.
    TransportError(String),
    /// The previous chunk could not be written.
    WriteError(String),
    /// The stream ended but the file could not be flushed.
    FlushError(String),
    /// The stream ended and the file was flushed.
    Finished,
}

/// What the caller does next.
pub enum DownloadStep {
    /// Nothing to report; go on with the transfer.
    Continue,
    /// Append the chunk to the file, then report the progress.
    Write(DownloadProgress),
    /// Delete the partial file, report, and return the message as a success value.
    Cancelled(DownloadComplete, String),
    /// Report and return the message as an error.
    Failed(DownloadComplete, String),
    /// Report and return the message as a success value.
    Finished(DownloadComplete, String),
    /// The download is over already; nothing to do.
    Idle,
}

impl DownloadEvent {
    /// An event that the stream delivered, before which cancellation is checked.
    pub open spec fn is_received(&self) -> bool {
        self is Chunk || self is TransportError
    }

    pub fn received(&self) -> (r: bool)
        ensures
            r == self.is_received(),
    {
        match self {
            DownloadEvent::Chunk(_) => true,
            DownloadEvent::TransportError(_) => true,
            _ => false,
        }
    }
}

/// Percent done in hundredths; zero while the total is unknown.
pub open spec fn percent_hundredths(downloaded: nat, total: nat) -> nat {
    if total == 0 {
        0
    } else {
        downloaded * 10000 / total
    }
}

/// Percent done in tenths, rounded half up, as the status line shows it; an
/// unknown total counts as one byte.
pub open spec fn status_tenths(downloaded: nat, total: nat) -> nat {
    (downloaded * 2000 / (if total == 0 { 1 } else { total }) + 1) / 2
}

pub open spec fn status_text(downloaded: nat, total: nat) -> Seq<char> {
    let t = status_tenths(downloaded, total);
    "Downloading: "@ + decimal(t / 10) + "."@ + decimal(t % 10) + "%"@
}

/// The sum, held at `u64::MAX`.
pub open spec fn add_held(a: nat, b: nat) -> nat {
    if a + b > u64::MAX { u64::MAX as nat } else { a + b }
}

/// The message that a failure event carries.
pub open spec fn failure_message(e: DownloadEvent) -> Seq<char> {
    match e {
        DownloadEvent::RequestError(d) => "Failed to download: "@ + d@,
        DownloadEvent::CreateError(d) => "Failed to create file: "@ + d@,
        DownloadEvent::TransportError(d) => "Download error: "@ + d@,
        DownloadEvent::WriteError(d) => "Failed to write to file: "@ + d@,
        DownloadEvent::FlushError(d) => "Failed to flush file: "@ + d@,
        _ => Seq::empty(),
    }
}

/// Whether a step on `event` writes a chunk: the download is running, no
/// cancellation stops it, and a chunk arrived.
pub open spec fn writes(over: bool, cancel: bool, event: DownloadEvent) -> bool {
    !over && !(cancel && event.is_received()) && event is Chunk
}

/// Whether a step on `event` ends a running download.
pub open spec fn ends(over: bool, cancel: bool, event: DownloadEvent) -> bool {
    !over && ((cancel && event.is_received()) || !(event is Responded || event is Chunk))
}

/// Whether a download is over after the events `events`, each with the
/// cancellation flag seen before it in `cancels`.
pub open spec fn over_after(over: bool, events: Seq<DownloadEvent>, cancels: Seq<bool>) -> bool
    decreases events.len(),
{
    if events.len() == 0 || cancels.len() == 0 {
        over
    } else {
        let n = (events.len() - 1) as int;
        let before = over_after(over, events.take(n), cancels.take(n));
        before || ends(before, cancels[n], events[n])
    }
}

/// Once a cancellation has been seen before a delivered item, no later
/// step of the same download writes a chunk.
pub proof fn lemma_no_write_after_cancel(
    over: bool,
    events: Seq<DownloadEvent>,
    cancels: Seq<bool>,
    j: int,
    i: int,
)
    requires
        events.len() == cancels.len(),
        0 <= j <= i < events.len(),
        cancels[j],
        events[j].is_received(),
    ensures
        !writes(over_after(over, events.take(i), cancels.take(i)), cancels[i], events[i]),
    decreases i,
{
    if j < i {
        lemma_no_write_after_cancel(over, events, cancels, j, i - 1);
        lemma_over_stays(over, events, cancels, j + 1, i);
    }
}

/// Being over is kept by every later step.
pub proof fn lemma_over_stays(over: bool, events: Seq<DownloadEvent>, cancels: Seq<bool>, k: int, i: int)
    requires
        events.len() == cancels.len(),
        1 <= k <= i <= events.len(),
        cancels[k - 1],
        events[k - 1].is_received(),
    ensures
        over_after(over, events.take(i), cancels.take(i)),
    decreases i,
{
    let n = i - 1;
    assert(events.take(i).take(n) =~= events.take(n));
    assert(cancels.take(i).take(n) =~= cancels.take(n));
    if k < i {
        lemma_over_stays(over, events, cancels, k, i - 1);
    }
}

/// With a known total and no more bytes than declared, the progress reads
/// exactly one hundred percent when, and only when, every byte has arrived.
pub proof fn lemma_percent_complete(downloaded: nat, total: nat)
    requires
        total > 0,
        downloaded <= total,
    ensures
        (percent_hundredths(downloaded, total) == 10000) == (downloaded == total),
{
    if downloaded < total {
        assert(downloaded * 10000 < total * 10000) by (nonlinear_arith)
            requires downloaded < total;
        assert(downloaded * 10000 / total < 10000) by (nonlinear_arith)
            requires downloaded * 10000 < total * 10000, total > 0;
    } else {
        assert(total * 10000 / total == 10000) by (nonlinear_arith)
            requires total > 0;
    }
}

/// One download: its identity, its destination, and how far it has come.
pub struct Download {
    app_id: String,
    file_path: String,
    downloaded: u64,
    total: u64,
    over: bool,
}

fn percent_of(downloaded: u64, total: u64) -> (r: u128)
    ensures
        r as nat == percent_hundredths(downloaded as nat, total as nat),
{
    if total == 0 {
        0
    } else {
        assert(downloaded as u128 * 10000 <= u64::MAX as u128 * 10000) by (nonlinear_arith);
        (downloaded as u128 * 10000) / total as u128
    }
}

fn status_of(downloaded: u64, total: u64) -> (r: String)
    ensures
        r@ == status_text(downloaded as nat, total as nat),
{
    let denom: u128 = if total == 0 { 1 } else { total as u128 };
    assert(downloaded as u128 * 2000 <= u64::MAX as u128 * 2000) by (nonlinear_arith);
    let scaled: u128 = downloaded as u128 * 2000;
    assert(scaled / denom <= scaled) by (nonlinear_arith)
        requires denom >= 1;
    let t: u128 = (scaled / denom + 1) / 2;
    let whole = string_of(&decimal_chars(t / 10));
    let frac = string_of(&decimal_chars(t % 10));
    let s = concat_strs("Downloading: ", whole.as_str());
    let s = s.concat(".");
    let s = s.concat(frac.as_str());
    let s = s.concat("%");
    proof {
        reveal_strlit("Downloading: ");
        reveal_strlit(".");
        reveal_strlit("%");
    }
    s
}

impl Download {
    pub closed spec fn app_id(&self) -> Seq<char> {
        self.app_id@
    }

    pub closed spec fn file_path(&self) -> Seq<char> {
        self.file_path@
    }

    /// Bytes received so far.
    pub closed spec fn downloaded(&self) -> nat {
        self.downloaded as nat
    }

    /// The declared length, zero while unknown.
    pub closed spec fn total(&self) -> nat {
        self.total as nat
    }

    /// Whether a terminal step has been taken.
    pub closed spec fn is_over(&self) -> bool {
        self.over
    }

    /// A download of `app_id` into `file_path` that has not started.
    pub fn new(app_id: &String, file_path: &String) -> (r: Self)
        ensures
            r.app_id() == app_id@,
            r.file_path() == file_path@,
            r.downloaded() == 0,
            r.total() == 0,
            !r.is_over(),
    {
        Download {
            app_id: app_id.clone(),
            file_path: file_path.clone(),
            downloaded: 0,
            total: 0,
            over: false,
        }
    }

    /// The report made before the request is sent.
    pub fn start_event(&self) -> (r: DownloadProgress)
        ensures
            r.app_id@ == self.app_id(),
            r.progress_hundredths == 0,
            r.downloaded == 0,
            r.total == 0,
            r.status@ == "Starting download..."@,
    {
        proof {
            reveal_strlit("Starting download...");
        }
        DownloadProgress {
            app_id: self.app_id.clone(),
            progress_hundredths: 0,
            downloaded: 0,
            total: 0,
            status: String::from_str("Starting download..."),
        }
    }

    fn complete(&self, success: bool, error: Option<String>) -> (r: DownloadComplete)
        ensures
            r.app_id@ == self.app_id(),
            r.success == success,
            r.error == error,
            success ==> r.file_path@ == self.file_path(),
            !success ==> r.file_path@ == Seq::<char>::empty(),
    {
        let file_path = if success { self.file_path.clone() } else { String::new() };
        DownloadComplete { app_id: self.app_id.clone(), file_path, success, error }
    }

    /// What a step of `pre` on `event` does, when cancellation was (`cancel`)
    /// or was not requested: the state `post` after it and the step `r` taken.
    pub open spec fn stepped(pre: Download, post: Download, event: DownloadEvent, cancel: bool, r: DownloadStep) -> bool {
        &&& post.app_id() == pre.app_id()
        &&& post.file_path() == pre.file_path()
        &&& post.is_over() == (pre.is_over() || ends(pre.is_over(), cancel, event))
        &&& (r is Write) == writes(pre.is_over(), cancel, event)
        // once over, nothing more happens
        &&& pre.is_over() ==> r is Idle && post == pre
        // a requested cancellation stops the download before the item is used
        &&& !pre.is_over() && cancel && event.is_received() ==> {
            &&& post.is_over()
            &&& post.downloaded() == pre.downloaded()
            &&& r matches DownloadStep::Cancelled(c, m)
            &&& !c.success
            &&& c.app_id@ == pre.app_id()
            &&& c.file_path@ == Seq::<char>::empty()
            &&& c.error matches Some(e) && e@ == "Download cancelled"@
            &&& m@ == "Download cancelled: "@ + pre.app_id()
        }
        &&& !pre.is_over() && !(cancel && event.is_received()) ==> match event {
            DownloadEvent::Responded { content_length } => {
                &&& r is Continue
                &&& !post.is_over()
                &&& post.downloaded() == pre.downloaded()
                &&& post.total() == match content_length {
                    Some(n) => n as nat,
                    None => 0,
                }
            },
            DownloadEvent::Chunk(len) => {
                let d = add_held(pre.downloaded(), len as nat);
                &&& !post.is_over()
                &&& post.downloaded() == d
                &&& post.total() == pre.total()
                &&& r matches DownloadStep::Write(p)
                &&& p.app_id@ == pre.app_id()
                &&& p.downloaded as nat == d
                &&& p.total as nat == pre.total()
                &&& p.progress_hundredths as nat == percent_hundredths(d, pre.total())
                &&& p.status@ == status_text(d, pre.total())
            },
            DownloadEvent::Finished => {
                &&& post.is_over()
                &&& post.downloaded() == pre.downloaded()
                &&& post.total() == pre.total()
                &&& r matches DownloadStep::Finished(c, m)
                &&& c.success
                &&& c.app_id@ == pre.app_id()
                &&& c.file_path@ == pre.file_path()
                &&& c.error is None
                &&& m@ == "Downloaded app to: "@ + pre.file_path()
            },
            _ => {
                &&& post.is_over()
                &&& post.downloaded() == pre.downloaded()
                &&& post.total() == pre.total()
                &&& r matches DownloadStep::Failed(c, m)
                &&& !c.success
                &&& c.app_id@ == pre.app_id()
                &&& c.file_path@ == Seq::<char>::empty()
                &&& c.error matches Some(e) && e@ == m@
                &&& m@ == failure_message(event)
            },
        }
    }

    /// Decides what follows `event`. `cancel` says whether a cancellation was
    /// requested; it is heeded only before a delivered chunk or stream error.
    pub fn step(&mut self, event: DownloadEvent, cancel: bool) -> (r: DownloadStep)
        ensures
            Self::stepped(*old(self), *final(self), event, cancel, r),
    {
        if self.over {
            return DownloadStep::Idle;
        }
        if cancel && event.received() {
            self.over = true;
            proof {
                reveal_strlit("Download cancelled");
                reveal_strlit("Download cancelled: ");
            }
            let c = self.complete(false, Some(String::from_str("Download cancelled")));
            let m = concat_strs("Download cancelled: ", self.app_id.as_str());
            return DownloadStep::Cancelled(c, m);
        }
        match event {
            DownloadEvent::Responded { content_length } => {
                self.total = match content_length {
                    Some(n) => n,
                    None => 0,
                };
                DownloadStep::Continue
            },
            DownloadEvent::Chunk(len) => {
                self.downloaded = self.downloaded.saturating_add(len);
                let p = DownloadProgress {
                    app_id: self.app_id.clone(),
                    progress_hundredths: percent_of(self.downloaded, self.total),
                    downloaded: self.downloaded,
                    total: self.total,
                    status: status_of(self.downloaded, self.total),
                };
                DownloadStep::Write(p)
            },
            DownloadEvent::Finished => {
                self.over = true;
                proof {
                    reveal_strlit("Downloaded app to: ");
                }
                let c = self.complete(true, None);
                let m = concat_strs("Downloaded app to: ", self.file_path.as_str());
                DownloadStep::Finished(c, m)
            },
            DownloadEvent::RequestError(d) => self.fail("Failed to download: ", &d),
            DownloadEvent::CreateError(d) => self.fail("Failed to create file: ", &d),
            DownloadEvent::TransportError(d) => self.fail("Download error: ", &d),
            DownloadEvent::WriteError(d) => self.fail("Failed to write to file: ", &d),
            DownloadEvent::FlushError(d) => self.fail("Failed to flush file: ", &d),
        }
    }

    fn fail(&mut self, prefix: &str, detail: &String) -> (r: DownloadStep)
        ensures
            final(self).is_over(),
            final(self).app_id() == old(self).app_id(),
            final(self).file_path() == old(self).file_path(),
            final(self).downloaded() == old(self).downloaded(),
            final(self).total() == old(self).total(),
            r matches DownloadStep::Failed(c, m) && {
                &&& !c.success
                &&& c.app_id@ == old(self).app_id()
                &&& c.file_path@ == Seq::<char>::empty()
                &&& c.error matches Some(e) && e@ == m@
                &&& m@ == prefix@ + detail@
            },
    {
        self.over = true;
        let m = concat_strs(prefix, detail.as_str());
        let c = self.complete(false, Some(m.clone()));
        DownloadStep::Failed(c, m)
    }
}

/// Starts a download of `app_id` into `file_path` and registers it as
/// running; a cancellation left over from an earlier download of the same
/// identifier is dropped.
pub fn begin_download(reg: &mut CancelRegistry, app_id: &String, file_path: &String) -> (r: Download)
    requires
        old(reg).wf(),
    ensures
        final(reg).wf(),
        CancelRegistry::begun(*old(reg), *final(reg), app_id@),
        !final(reg).pending().contains(app_id@),
        r.app_id() == app_id@,
        r.file_path() == file_path@,
        r.downloaded() == 0,
        r.total() == 0,
        !r.is_over(),
{
    reg.begin(app_id);
    Download::new(app_id, file_path)
}

/// Takes one step of `job` on `event`. Before a delivered chunk or stream
/// error the cancellation flag of the job is consumed and heeded; when the
/// step ends the job, the job is taken out of the registry with any flag.
pub fn advance(reg: &mut CancelRegistry, job: &mut Download, event: DownloadEvent) -> (r: DownloadStep)
    requires
        old(reg).wf(),
    ensures
        final(reg).wf(),
        ({
            let cancel = event.is_received() && old(reg).pending().contains(old(job).app_id());
            &&& Download::stepped(*old(job), *final(job), event, cancel, r)
            &&& final(reg).active() == if final(job).is_over() && !old(job).is_over() {
                old(reg).active().remove(old(job).app_id())
            } else {
                old(reg).active()
            }
            &&& final(reg).pending() == if event.is_received() || (final(job).is_over() && !old(job).is_over()) {
                old(reg).pending().remove(old(job).app_id())
            } else {
                old(reg).pending()
            }
        }),
{
    let cancel = if event.received() { reg.consume(&job.app_id) } else { false };
    let was_over = job.over;
    let r = job.step(event, cancel);
    if job.over && !was_over {
        reg.finish(&job.app_id);
    }
    r
}

/// Asks the running download `app_id` to stop; a request for a download
/// that is not running changes nothing. Returns the acknowledgement.
pub fn cancel_download(reg: &mut CancelRegistry, app_id: &String) -> (r: String)
    requires
        old(reg).wf(),
    ensures
        final(reg).wf(),
        CancelRegistry::requested(*old(reg), *final(reg), app_id@),
        r@ == "Download cancelled for app: "@ + app_id@,
{
    let _ = reg.request_cancel(app_id);
    proof {
        reveal_strlit("Download cancelled for app: ");
    }
    concat_strs("Download cancelled for app: ", app_id.as_str())
}

} // verus!
