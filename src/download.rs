use vstd::prelude::*;

verus! {

/// Highest progress value, reached when the whole file has arrived.
pub const FULL_PROGRESS: u8 = 100;

/// Seconds after which progress is reported even when it has not advanced.
pub const REPORT_INTERVAL_SECS: u64 = 2;

/// Percentage of a transfer of `total` bytes done after `downloaded` bytes,
/// rounded down and capped at 100; 0 throughout when the total is unknown (0).
pub open spec fn progress_of(downloaded: int, total: int) -> int {
    if total > 0 {
        let p = downloaded * 100 / total;
        if p > 100 { 100 } else { p }
    } else {
        0
    }
}

/// Whether progress `p` is reported, `last` being the last value reported and
/// `secs` the seconds since that report: when it has advanced by at least one,
/// reached 100, or two seconds have passed.
pub open spec fn should_report(p: int, last: int, secs: int) -> bool {
    p >= last + 1 || p == FULL_PROGRESS || secs >= REPORT_INTERVAL_SECS
}

/// `a + b`, or the largest `u64` where the sum would not fit.
pub open spec fn saturating_sum(a: u64, b: u64) -> u64 {
    if a + b > u64::MAX { u64::MAX } else { (a + b) as u64 }
}

/// Progress never goes back while more bytes arrive.
pub proof fn lemma_progress_monotonic(d1: int, d2: int, total: int)
    requires
        0 <= d1 <= d2,
    ensures
        progress_of(d1, total) <= progress_of(d2, total),
        0 <= progress_of(d1, total) <= 100,
{
    if total > 0 {
        assert(d1 * 100 <= d2 * 100) by (nonlinear_arith)
            requires d1 <= d2;
        vstd::arithmetic::div_mod::lemma_div_is_ordered(d1 * 100, d2 * 100, total);
        assert(0 <= d1 * 100 / total) by (nonlinear_arith)
            requires d1 >= 0, total > 0;
    }
}

/// Whether session `after` and report `r` are what a chunk of `len` bytes,
/// `secs` seconds after the last report, makes of session `before`: the bytes
/// are counted, and the progress is reported when `should_report` says so.
pub open spec fn chunk_step(
    before: DownloadSession,
    len: u64,
    secs: u64,
    after: DownloadSession,
    r: Option<u8>,
) -> bool {
    &&& after.wf()
    &&& after.received() == saturating_sum(before.received(), len)
    &&& ({
        let p = progress_of(after.received() as int, before.total() as int);
        if should_report(p, before.last_report() as int, secs as int) {
            r == Some(p as u8) && after.last_report() == p
        } else {
            r is None && after.last_report() == before.last_report()
        }
    })
    &&& r matches Some(p) ==> before.last_report() <= p <= FULL_PROGRESS
    &&& after.name() == before.name()
    &&& after.path() == before.path()
    &&& after.url() == before.url()
    &&& after.total() == before.total()
}

proof fn lemma_last_report_grows(
    sessions: Seq<DownloadSession>,
    lens: Seq<u64>,
    secs: Seq<u64>,
    reports: Seq<Option<u8>>,
    k: int,
    j: int,
)
    requires
        sessions.len() == reports.len() + 1,
        lens.len() == reports.len(),
        secs.len() == reports.len(),
        forall|i: int| 0 <= i < reports.len() ==> #[trigger] chunk_step(sessions[i], lens[i], secs[i], sessions[i + 1], reports[i]),
        0 <= k <= j < sessions.len(),
    ensures
        sessions[k].last_report() <= sessions[j].last_report(),
    decreases j - k,
{
    if k < j {
        lemma_last_report_grows(sessions, lens, secs, reports, k, j - 1);
        let i = j - 1;
        assert(chunk_step(sessions[i], lens[i], secs[i], sessions[i + 1], reports[i]));
    }
}

/// Over a whole download the values handed to the progress sink never go
/// down and never pass 100. A session starts having reported 0; each chunk
/// step may report a value; `finish_download` then hands out 100. So for any
/// run of chunk steps from a fresh session, the reports, in order, rise
/// weakly and stay within 0 to 100.
pub proof fn download_reports_ordered(
    sessions: Seq<DownloadSession>,
    lens: Seq<u64>,
    secs: Seq<u64>,
    reports: Seq<Option<u8>>,
)
    requires
        sessions.len() == reports.len() + 1,
        lens.len() == reports.len(),
        secs.len() == reports.len(),
        sessions[0].last_report() == 0,
        forall|i: int| 0 <= i < reports.len() ==> #[trigger] chunk_step(sessions[i], lens[i], secs[i], sessions[i + 1], reports[i]),
    ensures
        forall|i: int| 0 <= i < reports.len() && reports[i] is Some ==> reports[i]->0 <= FULL_PROGRESS,
        forall|i: int, j: int|
            0 <= i < j < reports.len() && reports[i] is Some && reports[j] is Some ==> reports[i]->0 <= reports[j]->0,
{
    assert forall|i: int| 0 <= i < reports.len() && reports[i] is Some implies reports[i]->0 <= FULL_PROGRESS by {
        assert(chunk_step(sessions[i], lens[i], secs[i], sessions[i + 1], reports[i]));
    }
    assert forall|i: int, j: int|
        0 <= i < j < reports.len() && reports[i] is Some && reports[j] is Some implies reports[i]->0 <= reports[j]->0 by {
        assert(chunk_step(sessions[i], lens[i], secs[i], sessions[i + 1], reports[i]));
        assert(chunk_step(sessions[j], lens[j], secs[j], sessions[j + 1], reports[j]));
        lemma_last_report_grows(sessions, lens, secs, reports, i + 1, j);
    }
}

/// One download attempt of one model: where its bytes go, how many have
/// arrived, and the last progress reported.
pub struct DownloadSession {
    model_name: String,
    file_path: String,
    download_url: String,
    total_size: u64,
    downloaded: u64,
    last_progress_report: u8,
}

impl DownloadSession {
    /// Identifier of the model being downloaded.
    pub closed spec fn name(&self) -> Seq<char> {
        self.model_name@
    }

    /// Path the file is written to.
    pub closed spec fn path(&self) -> Seq<char> {
        self.file_path@
    }

    /// Where the file is downloaded from.
    pub closed spec fn url(&self) -> Seq<char> {
        self.download_url@
    }

    /// Announced length of the transfer in bytes; 0 when unknown.
    pub closed spec fn total(&self) -> u64 {
        self.total_size
    }

    /// Bytes received so far.
    pub closed spec fn received(&self) -> u64 {
        self.downloaded
    }

    /// Last progress value reported.
    pub closed spec fn last_report(&self) -> u8 {
        self.last_progress_report
    }

    /// The last report never runs ahead of the progress made.
    pub closed spec fn wf(&self) -> bool {
        self.last_progress_report <= progress_of(self.downloaded as int, self.total_size as int)
    }

    /// A fresh attempt: nothing received, total unknown, progress 0 reported.
    pub(crate) fn start(model_name: String, file_path: String, download_url: String) -> (r: DownloadSession)
        ensures
            r.wf(),
            r.name() == model_name@,
            r.path() == file_path@,
            r.url() == download_url@,
            r.total() == 0,
            r.received() == 0,
            r.last_report() == 0,
    {
        DownloadSession {
            model_name,
            file_path,
            download_url,
            total_size: 0,
            downloaded: 0,
            last_progress_report: 0,
        }
    }

    /// Records the length that the response announced, if any.
    pub fn set_content_length(&mut self, content_length: Option<u64>)
        requires
            old(self).wf(),
            old(self).received() == 0,
        ensures
            final(self).wf(),
            final(self).total() == match content_length {
                Some(n) => n,
                None => 0,
            },
            final(self).name() == old(self).name(),
            final(self).path() == old(self).path(),
            final(self).url() == old(self).url(),
            final(self).received() == 0,
            final(self).last_report() == old(self).last_report(),
    {
        self.total_size = match content_length {
            Some(n) => n,
            None => 0,
        };
        assert(progress_of(0, self.total_size as int) == 0);
    }

    /// Counts a received chunk of `chunk_len` bytes and decides whether to
    /// report progress, `secs_since_report` seconds after the last report.
    /// Returns the progress to report, if any.
    pub fn progress_after_chunk(&mut self, chunk_len: u64, secs_since_report: u64) -> (r: Option<u8>)
        requires
            old(self).wf(),
        ensures
            chunk_step(*old(self), chunk_len, secs_since_report, *final(self), r),
    {
        let before = self.downloaded;
        self.downloaded = if self.downloaded > u64::MAX - chunk_len {
            u64::MAX
        } else {
            self.downloaded + chunk_len
        };
        let progress: u8 = if self.total_size > 0 {
            let p: u128 = (self.downloaded as u128) * 100 / (self.total_size as u128);
            if p > 100 {
                100
            } else {
                p as u8
            }
        } else {
            0
        };
        proof {
            lemma_progress_monotonic(before as int, self.downloaded as int, self.total_size as int);
        }
        assert(progress == progress_of(self.downloaded as int, self.total_size as int));
        if progress >= self.last_progress_report + 1 || progress == FULL_PROGRESS
            || secs_since_report >= REPORT_INTERVAL_SECS {
            self.last_progress_report = progress;
            Some(progress)
        } else {
            None
        }
    }

    /// Identifier of the model being downloaded.
    pub fn model_name(&self) -> (r: &String)
        ensures
            r@ == self.name(),
    {
        &self.model_name
    }

    /// Path the file is written to.
    pub fn file_path(&self) -> (r: &String)
        ensures
            r@ == self.path(),
    {
        &self.file_path
    }

    /// Where the file is downloaded from.
    pub fn download_url(&self) -> (r: &String)
        ensures
            r@ == self.url(),
    {
        &self.download_url
    }

    /// Bytes received so far.
    pub fn downloaded(&self) -> (r: u64)
        ensures
            r == self.received(),
    {
        self.downloaded
    }

    /// Last progress value reported; 0 when the attempt starts.
    pub fn last_progress_report(&self) -> (r: u8)
        ensures
            r == self.last_report(),
    {
        self.last_progress_report
    }

    /// Announced length of the transfer; 0 when unknown.
    pub fn total_size(&self) -> (r: u64)
        ensures
            r == self.total(),
    {
        self.total_size
    }
}

} // verus!
