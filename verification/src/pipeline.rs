//! The per-title pipeline: resolve the id in the catalog, locate the
//! direct-download link on the fetched detail page, and account for the
//! streamed transfer. The fetches and the file writes happen outside; this
//! state machine takes their results as events and decides every step.

use vstd::prelude::*;
use crate::catalog::{Catalog, lookup_spec, lemma_lookup_not_found};
use crate::download::DownloadTask;
use crate::extract::{LocateResult, extract_url, first_marker_line, line_url};
use crate::text::{normalize, normalize_chars, dec_str, u32_to_dec};

verus! {

/// Outcome of one title's resolve, locate and stream pipeline.
#[derive(PartialEq, Eq, Structural, Clone, Copy, Debug)]
pub enum Outcome {
    /// The stream was exhausted and the artifact written.
    Completed,
    /// The title is absent from the catalog, or no line of the detail page
    /// holds the marker.
    NotFound,
    /// The first marker line lacks an extractable link.
    ParseFailure,
    /// The response omitted its total payload size.
    MissingContentLength,
    /// A transport failure during a fetch or the streaming.
    NetworkError,
    /// A local file creation or write failure.
    IoError,
}

/// The phase one title's pipeline is in. The driver performs the fetches
/// and writes and reports each result through the matching event method.
pub enum Pipeline {
    /// The id is resolved; the detail page is to be fetched.
    AwaitingPage { id: u32, name: String },
    /// The link is located; the transfer is to be opened.
    AwaitingLength { url: String, name: String },
    /// The transfer is running; chunks are appended as they arrive.
    Receiving { task: DownloadTask },
    /// The pipeline ended with this outcome.
    Done { outcome: Outcome },
}

/// The detail page's address: the fixed template with the id substituted.
pub open spec fn page_url_chars(id: int) -> Seq<char> {
    "https://hshop.erista.me/t/"@ + dec_str(id)
}

impl Pipeline {
    /// The resolved id, in the phase that holds one.
    pub open spec fn spec_id(&self) -> int {
        match self {
            Pipeline::AwaitingPage { id, .. } => *id as int,
            _ => -1,
        }
    }

    /// The normalized title name the pipeline works on.
    pub open spec fn spec_name(&self) -> Seq<char> {
        match self {
            Pipeline::AwaitingPage { name, .. } => name@,
            Pipeline::AwaitingLength { name, .. } => name@,
            Pipeline::Receiving { task } => task.destination_name@,
            Pipeline::Done { .. } => Seq::empty(),
        }
    }

    /// The located download link, in the phases that hold one.
    pub open spec fn spec_url(&self) -> Seq<char> {
        match self {
            Pipeline::AwaitingLength { url, .. } => url@,
            Pipeline::Receiving { task } => task.source_url@,
            _ => Seq::empty(),
        }
    }

    /// The outcome, once the pipeline is done.
    pub open spec fn spec_outcome(&self) -> Option<Outcome> {
        match self {
            Pipeline::Done { outcome } => Some(*outcome),
            _ => None,
        }
    }

    /// Resolve a raw title name: normalize it and look it up. A name the
    /// catalog does not hold ends the pipeline with `NotFound`; otherwise
    /// the detail page of the resolved id is awaited.
    pub fn start(catalog: &Catalog, raw_name: &str) -> (p: Pipeline)
        ensures
            ({
                let id = lookup_spec(catalog.rows(), normalize_chars(raw_name@));
                &&& id == -1 ==> p == Pipeline::Done { outcome: Outcome::NotFound }
                &&& id != -1 ==> (p matches Pipeline::AwaitingPage { id: pid, name } && pid == id
                    && name@ == normalize_chars(raw_name@))
            }),
    {
        let name = normalize(raw_name);
        let id = catalog.get_title_id(name.as_str());
        proof {
            lemma_lookup_not_found(catalog.rows(), name@);
        }
        if id < 0 {
            Pipeline::Done { outcome: Outcome::NotFound }
        } else {
            Pipeline::AwaitingPage { id: id as u32, name }
        }
    }

    /// The address of the detail page to fetch for the resolved id.
    pub fn page_url(&self) -> (r: String)
        requires
            self is AwaitingPage,
        ensures
            r@ == page_url_chars(self.spec_id()),
    {
        match self {
            Pipeline::AwaitingPage { id, .. } => {
                let mut s = String::from_str("https://hshop.erista.me/t/");
                s.append(u32_to_dec(*id).as_str());
                s
            },
            _ => {
                proof {
                    assert(false);
                }
                String::new()
            },
        }
    }

    /// Take the fetched page's lines. The first marker line decides: its
    /// quoted link moves the pipeline on, a marker line without one ends it
    /// with `ParseFailure`, and a page without a marker ends it with
    /// `NotFound`.
    pub fn on_page_text(&mut self, lines: &Vec<String>)
        requires
            *old(self) is AwaitingPage,
        ensures
            ({
                let lv = lines.deep_view();
                let m = first_marker_line(lv, 0);
                &&& m == -1 ==> *final(self) == Pipeline::Done { outcome: Outcome::NotFound }
                &&& m != -1 ==> match line_url(lv[m]) {
                    Some(u) => (*final(self) matches Pipeline::AwaitingLength { url, name }
                        && url@ == u && name@ == old(self).spec_name()),
                    None => *final(self) == Pipeline::Done { outcome: Outcome::ParseFailure },
                }
            }),
    {
        let name = match &*self {
            Pipeline::AwaitingPage { name, .. } => name.clone(),
            _ => {
                proof {
                    assert(false);
                }
                String::new()
            },
        };
        match extract_url(lines) {
            LocateResult::Url(u) => {
                *self = Pipeline::AwaitingLength { url: u, name };
            },
            LocateResult::NotFound => {
                *self = Pipeline::Done { outcome: Outcome::NotFound };
            },
            LocateResult::ParseFailure => {
                *self = Pipeline::Done { outcome: Outcome::ParseFailure };
            },
        }
    }

    /// Take the opened response's declared size. A response without one
    /// ends the pipeline with `MissingContentLength` before any bytes are
    /// written; otherwise the transfer starts with nothing transferred.
    pub fn on_content_length(&mut self, content_length: Option<u64>)
        requires
            *old(self) is AwaitingLength,
        ensures
            content_length is None ==> *final(self) == (Pipeline::Done {
                outcome: Outcome::MissingContentLength,
            }),
            content_length matches Some(t) ==> (*final(self) matches Pipeline::Receiving { task }
                && task.source_url@ == old(self).spec_url()
                && task.destination_name@ == old(self).spec_name()
                && task.total_bytes == t && task.transferred_bytes == 0),
    {
        let (url, name) = match &*self {
            Pipeline::AwaitingLength { url, name } => (url.clone(), name.clone()),
            _ => {
                proof {
                    assert(false);
                }
                (String::new(), String::new())
            },
        };
        match DownloadTask::begin(url.as_str(), name.as_str(), content_length) {
            Some(task) => {
                *self = Pipeline::Receiving { task };
            },
            None => {
                *self = Pipeline::Done { outcome: Outcome::MissingContentLength };
            },
        }
    }

    /// Record one received chunk, already appended to the artifact by the
    /// driver, and observe the progress pair.
    pub fn on_chunk(&mut self, len: u64) -> (progress: (u64, u64))
        requires
            (*old(self) matches Pipeline::Receiving { task } && task.transferred_bytes + len
                <= u64::MAX),
        ensures
            (*final(self) matches Pipeline::Receiving { task }
                && *old(self) matches Pipeline::Receiving { task: old_task }
                && task.transferred_bytes == old_task.transferred_bytes + len
                && task.total_bytes == old_task.total_bytes
                && task.source_url == old_task.source_url
                && task.destination_name == old_task.destination_name),
            progress.0 == final(self)->Receiving_task.transferred_bytes,
            progress.1 == final(self)->Receiving_task.total_bytes,
    {
        match self {
            Pipeline::Receiving { task } => task.record_chunk(len),
            _ => {
                proof {
                    assert(false);
                }
                (0, 0)
            },
        }
    }

    /// The stream is exhausted: the pipeline ends with `Completed`.
    pub fn on_stream_end(&mut self)
        requires
            *old(self) is Receiving,
        ensures
            *final(self) == (Pipeline::Done { outcome: Outcome::Completed }),
    {
        *self = Pipeline::Done { outcome: Outcome::Completed };
    }

    /// A transport failure during the page fetch or the streaming: the
    /// pipeline aborts with `NetworkError`.
    pub fn on_network_error(&mut self)
        requires
            *old(self) is AwaitingPage || *old(self) is AwaitingLength || *old(self) is Receiving,
        ensures
            *final(self) == (Pipeline::Done { outcome: Outcome::NetworkError }),
    {
        *self = Pipeline::Done { outcome: Outcome::NetworkError };
    }

    /// A local file creation or write failure: the pipeline aborts with
    /// `IoError`.
    pub fn on_io_error(&mut self)
        requires
            *old(self) is AwaitingLength || *old(self) is Receiving,
        ensures
            *final(self) == (Pipeline::Done { outcome: Outcome::IoError }),
    {
        *self = Pipeline::Done { outcome: Outcome::IoError };
    }

    /// The outcome, once the pipeline is done.
    pub fn outcome(&self) -> (r: Option<Outcome>)
        ensures
            r == self.spec_outcome(),
    {
        match self {
            Pipeline::Done { outcome } => Some(*outcome),
            _ => None,
        }
    }
}

} // verus!
