use vstd::prelude::*;

verus! {

/// How the bounded read of a clipboard payload ended.
pub enum ReadEnd {
    /// The source delivered the whole payload within the bound.
    Complete,
    /// The read stalled past the bound; whatever bytes had accumulated stand.
    TimedOut,
    /// The read failed for another reason.
    Failed,
}

/// What happened when a clipboard payload was requested for one mime type.
pub enum FetchEvent {
    /// The clipboard was emptied or no longer offers the mime type.
    Vanished,
    /// Opening the transfer failed for another reason.
    OpenFailed,
    /// A transfer was opened and read until `end`, accumulating `bytes`.
    Read { bytes: Vec<u8>, end: ReadEnd },
}

/// The outcome of a fetch, as the translation pipeline sees it.
pub enum FetchResult {
    /// The payload to work with (possibly partial after a timeout).
    Content(Vec<u8>),
    /// The content vanished between notification and fetch: skip this cycle.
    Vanished,
    /// A hard error: abort the current cycle.
    Error,
}

/// A timed-out read yields the bytes accumulated so far rather than an error;
/// a vanished payload is distinguished from a hard failure.
pub open spec fn spec_classify(ev: FetchEvent) -> FetchResult {
    match ev {
        FetchEvent::Vanished => FetchResult::Vanished,
        FetchEvent::OpenFailed => FetchResult::Error,
        FetchEvent::Read { bytes, end } => match end {
            ReadEnd::Failed => FetchResult::Error,
            ReadEnd::Complete => FetchResult::Content(bytes),
            ReadEnd::TimedOut => FetchResult::Content(bytes),
        },
    }
}

/// Classify the outcome of one bounded payload read.  A fetch that exceeded
/// its time bound hands back whatever bytes were read so far (possibly none)
/// instead of failing; only a hard read failure aborts the cycle.
pub fn classify_fetch(ev: FetchEvent) -> (r: FetchResult)
    ensures
        r == spec_classify(ev),
        ev matches FetchEvent::Read { bytes, end } ==> (end is TimedOut ==> r
            == FetchResult::Content(bytes)),
{
    match ev {
        FetchEvent::Vanished => FetchResult::Vanished,
        FetchEvent::OpenFailed => FetchResult::Error,
        FetchEvent::Read { bytes, end } => match end {
            ReadEnd::Failed => FetchResult::Error,
            ReadEnd::Complete => FetchResult::Content(bytes),
            ReadEnd::TimedOut => FetchResult::Content(bytes),
        },
    }
}

} // verus!
