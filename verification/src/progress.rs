//! Progress of one install, as the interface shows it, and the tracker
//! that turns the chunks of a download into progress events.

use vstd::prelude::*;

verus! {

/// The whole of the visible progress range, in hundredths of a percent.
pub const FULL_SCALE: u32 = 10000;

/// Where the download's share of the visible range ends and the
/// extraction's share begins, in hundredths of a percent.
pub const DOWNLOAD_SHARE: u32 = 9500;

/// What a `DownloadProgress` stands for. `fraction` counts hundredths of a
/// percent of the whole install: 0 is nothing, 10000 is all of it.
pub struct ProgressView {
    pub fraction: int,
    pub is_done: bool,
    pub file_name: Seq<char>,
}

/// One progress event of an install.
#[derive(Debug, PartialEq, Eq)]
pub struct DownloadProgress {
    fraction: u32,
    is_done: bool,
    file_name: String,
}

impl View for DownloadProgress {
    type V = ProgressView;

    closed spec fn view(&self) -> ProgressView {
        ProgressView {
            fraction: self.fraction as int,
            is_done: self.is_done,
            file_name: self.file_name@,
        }
    }
}

impl Clone for DownloadProgress {
    fn clone(&self) -> (r: Self)
        ensures
            r@ == self@,
    {
        DownloadProgress {
            fraction: self.fraction,
            is_done: self.is_done,
            file_name: self.file_name.clone(),
        }
    }
}

/// The visible fraction of a download that is `percent` percent through:
/// the download fills the range from 0 to 9500.
pub open spec fn download_fraction(percent: int) -> int {
    percent * 95
}

/// The visible fraction of an extraction that is `percent` percent
/// through: the extraction fills the range from 9500 to 10000.
pub open spec fn extract_fraction(percent: int) -> int {
    9500 + percent * 5
}

impl DownloadProgress {
    /// The event of a download that is `percent` percent through.
    pub fn not_done_dl(percent: u32, file_name: &str) -> (r: Self)
        requires
            percent <= 100,
        ensures
            r@ == (ProgressView {
                fraction: download_fraction(percent as int),
                is_done: false,
                file_name: file_name@,
            }),
    {
        DownloadProgress { fraction: percent * 95, is_done: false, file_name: file_name.to_owned() }
    }

    /// The event of an extraction that is `percent` percent through.
    pub fn not_done_extract(percent: u32, file_name: &str) -> (r: Self)
        requires
            percent <= 100,
        ensures
            r@ == (ProgressView {
                fraction: extract_fraction(percent as int),
                is_done: false,
                file_name: file_name@,
            }),
    {
        DownloadProgress {
            fraction: 9500 + percent * 5,
            is_done: false,
            file_name: file_name.to_owned(),
        }
    }

    /// The terminal event: everything is there.
    pub fn done(file_name: &str) -> (r: Self)
        ensures
            r@ == (ProgressView { fraction: 10000, is_done: true, file_name: file_name@ }),
    {
        DownloadProgress { fraction: FULL_SCALE, is_done: true, file_name: file_name.to_owned() }
    }

    /// The visible fraction, in hundredths of a percent.
    pub fn fraction(&self) -> (r: u32)
        ensures
            r == self@.fraction,
    {
        self.fraction
    }

    /// Whether this is the terminal event.
    pub fn is_done(&self) -> (r: bool)
        ensures
            r == self@.is_done,
    {
        self.is_done
    }

    /// The file the event speaks of.
    pub fn file_name(&self) -> (r: &String)
        ensures
            r@ == self@.file_name,
    {
        &self.file_name
    }
}

/// The download's fractions stay inside its share, the extraction's
/// begin where the download's end, and neither passes the terminal mark.
pub proof fn law_phase_ranges(percent: int)
    requires
        0 <= percent <= 100,
    ensures
        0 <= download_fraction(percent) <= DOWNLOAD_SHARE,
        DOWNLOAD_SHARE <= extract_fraction(percent) <= FULL_SCALE,
        download_fraction(100) == extract_fraction(0),
        extract_fraction(100) == FULL_SCALE,
{
}

/// What the tracker tells its caller after one chunk of the body.
#[derive(Debug, Clone, Copy, PartialEq, Eq, Structural)]
pub enum FetchSignal {
    /// Nothing to report: the whole percentage did not advance.
    Silent,
    /// The download has reached `percent` whole percent, more than at the
    /// last report.
    Tick { percent: u32 },
    /// The whole body is there: the terminal event is due.
    Finished,
    /// The body ended before the announced length: the fetch has failed
    /// and no terminal event is due.
    Truncated,
}

/// What a `FetchTracker` stands for.
pub struct TrackerView {
    /// The announced length of the body, in bytes.
    pub content_length: nat,
    /// The bytes received so far, counted up to the announced length.
    pub received: nat,
    /// The percentage of the last `Tick`, or -1 before the first.
    pub shown: int,
    /// Whether the download still runs.
    pub open: bool,
}

/// The whole percentage that `received` bytes are of `content_length`.
pub open spec fn percent_reached(received: nat, content_length: nat) -> int {
    (received as int * 100) / (content_length as int)
}

/// The percentage never falls as bytes arrive, stays below 100 until the
/// whole length is there, and is 100 then.
pub proof fn lemma_percent_reached(less: nat, more: nat, content_length: nat)
    requires
        less <= more <= content_length,
        content_length > 0,
    ensures
        0 <= percent_reached(less, content_length) <= percent_reached(more, content_length) <= 100,
        more < content_length ==> percent_reached(more, content_length) < 100,
        percent_reached(content_length, content_length) == 100,
{
    let l = content_length as int;
    let a = less as int * 100;
    let b = more as int * 100;
    assert(0 <= a / l <= b / l) by (nonlinear_arith)
        requires
            0 <= a <= b,
            l > 0,
    ;
    assert(b / l <= 100) by (nonlinear_arith)
        requires
            0 <= b <= l * 100,
            l > 0,
    ;
    if more < content_length {
        assert(b / l < 100) by (nonlinear_arith)
            requires
                0 <= b < l * 100,
                l > 0,
        ;
    }
    assert((l * 100) / l == 100) by (nonlinear_arith)
        requires
            l > 0,
    ;
}

/// The tracker of a download of `content_length` bytes before its first chunk.
pub open spec fn start_of(content_length: nat) -> TrackerView {
    TrackerView { content_length, received: 0, shown: -1, open: true }
}

/// The tracker after a chunk of `bytes` bytes, and what it reports. A
/// closed tracker stays silent. The chunk that completes the announced
/// length closes it with `Finished`; an empty chunk before that closes it
/// with `Truncated`. Any other chunk reports the whole percentage reached,
/// and only where it is higher than the last one reported.
pub open spec fn step(t: TrackerView, bytes: nat) -> (TrackerView, FetchSignal) {
    if !t.open {
        (t, FetchSignal::Silent)
    } else if t.received + bytes >= t.content_length {
        (TrackerView { received: t.content_length, open: false, ..t }, FetchSignal::Finished)
    } else if bytes == 0 {
        (TrackerView { open: false, ..t }, FetchSignal::Truncated)
    } else {
        let received = t.received + bytes;
        let percent = percent_reached(received, t.content_length);
        if percent > t.shown {
            (
                TrackerView { received, shown: percent, ..t },
                FetchSignal::Tick { percent: percent as u32 },
            )
        } else {
            (TrackerView { received, ..t }, FetchSignal::Silent)
        }
    }
}

/// What the tracker reports, chunk by chunk, over a run of chunks.
pub open spec fn signals(t: TrackerView, chunks: Seq<nat>) -> Seq<FetchSignal>
    decreases chunks.len(),
{
    if chunks.len() == 0 {
        Seq::empty()
    } else {
        seq![step(t, chunks[0]).1] + signals(step(t, chunks[0]).0, chunks.drop_first())
    }
}

/// Whether a tracker's numbers fit together: it has received no more than
/// was announced, and the percentage it last reported is below 100 and no
/// more than what it has received.
pub open spec fn consistent(t: TrackerView) -> bool {
    &&& t.received <= t.content_length
    &&& -1 <= t.shown < 100
    &&& t.shown >= 0 ==> t.content_length > 0 && t.shown <= percent_reached(
        t.received,
        t.content_length,
    )
}

/// Follows a download chunk by chunk and says when a progress event is due.
#[derive(Debug, Clone, Copy, PartialEq, Eq)]
pub struct FetchTracker {
    content_length: u64,
    received: u64,
    shown: Option<u32>,
    open: bool,
}

impl View for FetchTracker {
    type V = TrackerView;

    closed spec fn view(&self) -> TrackerView {
        TrackerView {
            content_length: self.content_length as nat,
            received: self.received as nat,
            shown: match self.shown {
                Some(p) => p as int,
                None => -1,
            },
            open: self.open,
        }
    }
}

impl FetchTracker {
    /// Whether the tracker's numbers fit together.
    pub closed spec fn wf(&self) -> bool {
        consistent(self@)
    }

    /// The tracker of a download of `content_length` bytes.
    pub fn new(content_length: u64) -> (r: Self)
        ensures
            r.wf(),
            r@ == start_of(content_length as nat),
    {
        FetchTracker { content_length, received: 0, shown: None, open: true }
    }

    /// Whether the download still runs.
    pub fn is_open(&self) -> (r: bool)
        ensures
            r == self@.open,
    {
        self.open
    }

    /// The bytes received so far, counted up to the announced length.
    pub fn received(&self) -> (r: u64)
        ensures
            r == self@.received,
    {
        self.received
    }

    /// Takes note of a chunk of `bytes` bytes and says what is to be reported.
    pub fn on_chunk(&mut self, bytes: usize) -> (signal: FetchSignal)
        requires
            old(self).wf(),
        ensures
            final(self).wf(),
            (final(self)@, signal) == step(old(self)@, bytes as nat),
            signal matches FetchSignal::Tick { percent } ==> percent < 100,
    {
        if !self.open {
            return FetchSignal::Silent;
        }
        let room: u64 = self.content_length - self.received;
        if bytes as u64 >= room {
            proof {
                if self.content_length > 0 {
                    lemma_percent_reached(
                        self.received as nat,
                        self.content_length as nat,
                        self.content_length as nat,
                    );
                }
            }
            self.received = self.content_length;
            self.open = false;
            return FetchSignal::Finished;
        }
        if bytes == 0 {
            self.open = false;
            return FetchSignal::Truncated;
        }
        let received: u64 = self.received + bytes as u64;
        let scaled: u128 = received as u128 * 100;
        let percent: u128 = scaled / (self.content_length as u128);
        proof {
            lemma_percent_reached(
                self.received as nat,
                received as nat,
                self.content_length as nat,
            );
        }
        let percent: u32 = percent as u32;
        self.received = received;
        let advanced = match self.shown {
            Some(shown) => percent > shown,
            None => true,
        };
        if advanced {
            self.shown = Some(percent);
            FetchSignal::Tick { percent }
        } else {
            FetchSignal::Silent
        }
    }
}

/// The event to show for a signal of the download of `file_name`: a tick
/// is scaled into the download's share of the visible range, the end of
/// the body is the terminal event, and the others show nothing.
pub fn progress_for(signal: FetchSignal, file_name: &str) -> (r: Option<DownloadProgress>)
    requires
        signal matches FetchSignal::Tick { percent } ==> percent <= 100,
    ensures
        match signal {
            FetchSignal::Tick { percent } => r matches Some(p) && p@ == (ProgressView {
                fraction: download_fraction(percent as int),
                is_done: false,
                file_name: file_name@,
            }),
            FetchSignal::Finished => r matches Some(p) && p@ == (ProgressView {
                fraction: 10000,
                is_done: true,
                file_name: file_name@,
            }),
            _ => r is None,
        },
{
    match signal {
        FetchSignal::Tick { percent } => Some(DownloadProgress::not_done_dl(percent, file_name)),
        FetchSignal::Finished => Some(DownloadProgress::done(file_name)),
        _ => None,
    }
}

/// A step keeps a tracker's numbers fitting together, and a tick it
/// reports lies above the last one and below 100.
pub proof fn lemma_step_consistent(t: TrackerView, bytes: nat)
    requires
        consistent(t),
    ensures
        consistent(step(t, bytes).0),
        step(t, bytes).0.content_length == t.content_length,
        step(t, bytes).0.shown >= t.shown,
        !t.open ==> step(t, bytes) == (t, FetchSignal::Silent),
        !(step(t, bytes).1 is Silent) && !(step(t, bytes).1 is Tick) ==> !step(t, bytes).0.open,
        step(t, bytes).1 matches FetchSignal::Tick { percent } ==> t.shown < percent < 100
            && step(t, bytes).0.shown == percent,
{
    if t.open {
        if t.received + bytes >= t.content_length {
            if t.content_length > 0 {
                lemma_percent_reached(t.received, t.content_length, t.content_length);
            }
        } else if bytes != 0 {
            lemma_percent_reached(t.received, t.received + bytes, t.content_length);
        }
    }
}

/// Over any run of chunks from a tracker whose numbers fit together: a
/// closed tracker stays silent; every tick lies above the tracker's last
/// one and below 100; ticks rise strictly; and after the end of the body,
/// or after a truncation, nothing more is reported.
pub proof fn lemma_signals(t: TrackerView, chunks: Seq<nat>)
    requires
        consistent(t),
    ensures
        signals(t, chunks).len() == chunks.len(),
        !t.open ==> forall|i: int|
            0 <= i < chunks.len() ==> (#[trigger] signals(t, chunks)[i]) is Silent,
        forall|i: int|
            0 <= i < chunks.len() ==> ((#[trigger] signals(t, chunks)[i]) matches FetchSignal::Tick {
                percent,
            } ==> t.shown < percent < 100),
        forall|i: int, j: int|
            0 <= i < j < chunks.len() ==> ((#[trigger] signals(t, chunks)[i], #[trigger] signals(
                t,
                chunks,
            )[j]) matches (FetchSignal::Tick { percent: p }, FetchSignal::Tick { percent: q })
                ==> p < q),
        forall|i: int, j: int|
            0 <= i < j < chunks.len() && ((#[trigger] signals(t, chunks)[i]) is Finished || signals(
                t,
                chunks,
            )[i] is Truncated) ==> (#[trigger] signals(t, chunks)[j]) is Silent,
    decreases chunks.len(),
{
    if chunks.len() > 0 {
        let next = step(t, chunks[0]).0;
        let rest = signals(next, chunks.drop_first());
        let all = signals(t, chunks);
        lemma_step_consistent(t, chunks[0]);
        lemma_signals(next, chunks.drop_first());
        assert forall|i: int| 0 < i < chunks.len() implies #[trigger] all[i] == rest[i - 1] by {}
        assert forall|i: int, j: int|
            0 <= i < j < chunks.len() implies ((#[trigger] all[i], #[trigger] all[j]) matches (
            FetchSignal::Tick { percent: p },
            FetchSignal::Tick { percent: q },
        ) ==> p < q) by {}
        assert forall|i: int, j: int|
            0 <= i < j < chunks.len() && ((#[trigger] all[i]) is Finished
                || all[i] is Truncated) implies (#[trigger] all[j]) is Silent by {}
    }
}

/// The ticks of a download rise strictly and stay below 100 percent, so
/// the fractions shown for them rise strictly inside the download's share
/// of the visible range.
pub proof fn law_ticks_rise(content_length: nat, chunks: Seq<nat>, i: int, j: int)
    requires
        0 <= i < j < chunks.len(),
        signals(start_of(content_length), chunks)[i] is Tick,
        signals(start_of(content_length), chunks)[j] is Tick,
    ensures
        0 <= signals(start_of(content_length), chunks)[i]->percent < signals(
            start_of(content_length),
            chunks,
        )[j]->percent < 100,
        0 <= download_fraction(signals(start_of(content_length), chunks)[i]->percent as int)
            < download_fraction(signals(start_of(content_length), chunks)[j]->percent as int)
            < DOWNLOAD_SHARE,
{
    lemma_signals(start_of(content_length), chunks);
    let all = signals(start_of(content_length), chunks);
    assert((all[i], all[j]) matches (
        FetchSignal::Tick { percent: p },
        FetchSignal::Tick { percent: q },
    ) ==> p < q);
}

/// A download reports the end of its body at most once, and nothing
/// after it: where the body's end is reported, every signal before it
/// is a tick or silent and every signal after it is silent. The run of
/// events of a complete download so ends with exactly one terminal event.
pub proof fn law_one_terminal_event(content_length: nat, chunks: Seq<nat>, i: int)
    requires
        0 <= i < chunks.len(),
        signals(start_of(content_length), chunks)[i] is Finished,
    ensures
        forall|j: int|
            0 <= j < i ==> (#[trigger] signals(start_of(content_length), chunks)[j]) is Silent
                || signals(start_of(content_length), chunks)[j] is Tick,
        forall|j: int|
            i < j < chunks.len() ==> (#[trigger] signals(start_of(content_length), chunks)[j])
                is Silent,
{
    lemma_signals(start_of(content_length), chunks);
    let all = signals(start_of(content_length), chunks);
    assert forall|j: int| 0 <= j < i implies (#[trigger] all[j]) is Silent || all[j] is Tick by {
        if all[j] is Finished || all[j] is Truncated {
            assert(all[i] is Silent);
        }
    }
}

/// The bytes of a run of chunks, added up.
pub open spec fn total(chunks: Seq<nat>) -> nat
    decreases chunks.len(),
{
    if chunks.len() == 0 {
        0
    } else {
        chunks[0] + total(chunks.drop_first())
    }
}

/// From an open tracker, chunks that are not empty and together reach
/// the announced length lead to the report that the body has ended.
pub proof fn lemma_body_ends(t: TrackerView, chunks: Seq<nat>)
    requires
        consistent(t),
        t.open,
        chunks.len() > 0,
        forall|i: int| 0 <= i < chunks.len() ==> #[trigger] chunks[i] > 0,
        t.received + total(chunks) >= t.content_length,
    ensures
        exists|i: int| 0 <= i < chunks.len() && (#[trigger] signals(t, chunks)[i]) is Finished,
    decreases chunks.len(),
{
    let next = step(t, chunks[0]).0;
    let rest = chunks.drop_first();
    let all = signals(t, chunks);
    lemma_signals(t, chunks);
    lemma_step_consistent(t, chunks[0]);
    if step(t, chunks[0]).1 is Finished {
        assert(all[0] is Finished);
    } else {
        assert(total(rest) > 0);
        assert forall|i: int| 0 <= i < rest.len() implies #[trigger] rest[i] > 0 by {
            assert(rest[i] == chunks[i + 1]);
        }
        lemma_body_ends(next, rest);
        let i = choose|i: int| 0 <= i < rest.len() && (#[trigger] signals(next, rest)[i]) is Finished;
        assert(all[i + 1] == signals(next, rest)[i]);
    }
}

/// A download whose chunks are not empty and together reach the
/// announced length reports the end of its body: its terminal event comes.
pub proof fn law_complete_body_finishes(content_length: nat, chunks: Seq<nat>)
    requires
        chunks.len() > 0,
        forall|i: int| 0 <= i < chunks.len() ==> #[trigger] chunks[i] > 0,
        total(chunks) >= content_length,
    ensures
        exists|i: int|
            0 <= i < chunks.len() && (#[trigger] signals(start_of(content_length), chunks)[i])
                is Finished,
{
    lemma_body_ends(start_of(content_length), chunks);
}

} // verus!
