//! A lazy, paginated fetch iterator over the reverse dependencies of a
//! package registry entry.
//!
//! The fetcher is a state machine that performs no I/O itself. Each call to
//! [`PagedFetcher::pull_next`] either yields the next buffered item, reports
//! the end of the sequence, or asks the caller to fetch one page; the caller
//! performs the HTTP request, decodes the body, and hands the outcome back
//! through [`PagedFetcher::supply`]. This keeps the whole pagination logic —
//! buffering, page numbering, the termination formula, and error latching —
//! verifiable, while the transport and the JSON decoder stay outside as
//! collaborators.
//!
//! Three behaviours are fixed here where the surrounding design leaves a
//! choice:
//! - page numbers start at 1: the counter holds the number of the most
//!   recently requested page and starts at 0, so the first request is for
//!   page 1 (no page is skipped);
//! - the sequence is not restartable: after the end of the sequence, and
//!   after the first failure, every later pull yields `Done` again, and no
//!   further page is ever requested;
//! - an empty page ends the sequence even when the termination formula
//!   would allow further requests, as a defensive fallback against a stale
//!   or inflated server-reported total.

use vstd::prelude::*;

verus! {

/// One result record: the identifier of a package that depends on the
/// subject.
pub struct Item {
    pub id: String,
}

impl View for Item {
    type V = Seq<char>;

    open spec fn view(&self) -> Seq<char> {
        self.id@
    }
}

impl DeepView for Item {
    type V = Seq<char>;

    open spec fn deep_view(&self) -> Seq<char> {
        self.id@
    }
}

/// The decoded body of one page response: the page's items in server order,
/// and the server-reported total number of items across all pages.
pub struct PageEnvelope {
    pub items: Vec<Item>,
    pub total: u32,
}

impl PageEnvelope {
    /// The item identifiers of this envelope, in server order.
    pub open spec fn ids(&self) -> Seq<Seq<char>> {
        self.items.deep_view()
    }
}

/// Why a pull failed: the HTTP call itself failed, or the response body did
/// not decode into the expected envelope shape. The payload carries the
/// collaborator's message.
pub enum FetchError {
    Transport(String),
    Decode(String),
}

/// A page the fetcher asks its caller to fetch.
#[derive(Clone, Copy)]
pub struct PageRequest {
    pub page: u32,
    pub per_page: u32,
}

/// What one pull decides: yield an item, end the sequence, or demand that
/// the caller fetch one page and supply the outcome.
pub enum Pull {
    Ready(Item),
    Done,
    Fetch(PageRequest),
}

/// The mathematical state of a fetcher: its fields as plain values, plus the
/// full history of item identifiers served by the collaborator (`served`)
/// and yielded to the consumer (`yielded`), in order.
#[verifier::ext_equal]
pub struct FetchModel {
    pub subject: Seq<char>,
    pub page: u32,
    pub per_page: u32,
    pub total: u32,
    pub buffer: Seq<Seq<char>>,
    pub awaiting: bool,
    pub finished: bool,
    pub yielded: Seq<Seq<char>>,
    pub served: Seq<Seq<char>>,
}

/// Pagination is exhausted once at least one page has been fetched and the
/// termination formula `page * per_page >= total` holds for the most
/// recently seen total.
pub open spec fn exhausted(m: FetchModel) -> bool {
    m.page > 0 && m.page * m.per_page >= m.total
}

/// The fetcher's invariant: the page size is positive; a fetch is demanded
/// only with an empty buffer and before the sequence has finished; a
/// finished fetcher holds nothing and demands nothing; and everything the
/// server served has either been yielded already or still sits in the
/// buffer, in order.
pub open spec fn inv(m: FetchModel) -> bool {
    &&& m.per_page >= 1
    &&& (m.awaiting ==> m.buffer.len() == 0 && !m.finished && m.page >= 1)
    &&& (m.finished ==> m.buffer.len() == 0 && !m.awaiting)
    &&& m.served == m.yielded + m.buffer
}

/// Owns the pagination state for one traversal of one subject's reverse
/// dependencies.
pub struct PagedFetcher {
    subject: String,
    page: u32,
    per_page: u32,
    total: u32,
    buffer: Vec<Item>,
    awaiting: bool,
    finished: bool,
    yielded: Ghost<Seq<Seq<char>>>,
    served: Ghost<Seq<Seq<char>>>,
}

impl View for PagedFetcher {
    type V = FetchModel;

    closed spec fn view(&self) -> FetchModel {
        FetchModel {
            subject: self.subject@,
            page: self.page,
            per_page: self.per_page,
            total: self.total,
            buffer: self.buffer.deep_view(),
            awaiting: self.awaiting,
            finished: self.finished,
            yielded: self.yielded@,
            served: self.served@,
        }
    }
}

impl PagedFetcher {
    /// The fetcher is well formed: see [`inv`].
    pub open spec fn wf(&self) -> bool {
        inv(self@)
    }

    /// Creates a fetcher for one subject with the default page size of 10.
    /// No I/O happens here: fetching is fully lazy.
    pub fn create(subject: String) -> (f: Self)
        ensures
            f.wf(),
            f@ == (FetchModel {
                subject: subject@,
                page: 0,
                per_page: 10,
                total: 0,
                buffer: Seq::<Seq<char>>::empty(),
                awaiting: false,
                finished: false,
                yielded: Seq::<Seq<char>>::empty(),
                served: Seq::<Seq<char>>::empty(),
            }),
    {
        let f = PagedFetcher {
            subject,
            page: 0,
            per_page: 10,
            total: 0,
            buffer: Vec::new(),
            awaiting: false,
            finished: false,
            yielded: Ghost(Seq::empty()),
            served: Ghost(Seq::empty()),
        };
        proof {
            assert(f@.buffer =~= Seq::<Seq<char>>::empty());
            assert(f@.served =~= f@.yielded + f@.buffer);
        }
        f
    }

    /// Advances the traversal by one step.
    ///
    /// - While the buffer is non-empty, the oldest buffered item is yielded
    ///   and nothing else changes: in particular no fetch is demanded, so no
    ///   network I/O can occur.
    /// - With an empty buffer, the traversal ends once at least one page has
    ///   been fetched and `page * per_page >= total`; ending latches the
    ///   fetcher, and every later pull yields `Done` again, unchanged.
    /// - Otherwise the page counter is incremented and the caller is asked
    ///   to fetch that page; until [`Self::supply`] answers, every pull
    ///   repeats the same demand.
    pub fn pull_next(&mut self) -> (r: Pull)
        requires
            old(self).wf(),
        ensures
            final(self).wf(),
            old(self)@.finished ==> r is Done && final(self)@ == old(self)@,
            !old(self)@.finished && old(self)@.awaiting ==> final(self)@ == old(self)@
                && (r matches Pull::Fetch(req) && req.page == old(self)@.page
                    && req.per_page == old(self)@.per_page),
            !old(self)@.finished && !old(self)@.awaiting && old(self)@.buffer.len() > 0 ==> (
                r matches Pull::Ready(it) && it@ == old(self)@.buffer[0])
                && final(self)@ == (FetchModel {
                    buffer: old(self)@.buffer.drop_first(),
                    yielded: old(self)@.yielded.push(old(self)@.buffer[0]),
                    ..old(self)@
                }),
            !old(self)@.finished && !old(self)@.awaiting && old(self)@.buffer.len() == 0
                && exhausted(old(self)@) ==> r is Done
                && final(self)@ == (FetchModel { finished: true, ..old(self)@ }),
            !old(self)@.finished && !old(self)@.awaiting && old(self)@.buffer.len() == 0
                && !exhausted(old(self)@) ==> (r matches Pull::Fetch(req)
                    && req.page == old(self)@.page + 1 && req.per_page == old(self)@.per_page)
                && final(self)@ == (FetchModel {
                    page: (old(self)@.page + 1) as u32,
                    awaiting: true,
                    ..old(self)@
                }),
            old(self)@.buffer.len() > 0 ==> !(r is Fetch),
    {
        if self.finished {
            return Pull::Done;
        }
        if self.awaiting {
            return Pull::Fetch(PageRequest { page: self.page, per_page: self.per_page });
        }
        if self.buffer.len() > 0 {
            let ghost pre = self@;
            let it = self.buffer.remove(0);
            proof {
                self.yielded@ = self.yielded@.push(it@);
                assert(self@.buffer =~= pre.buffer.drop_first());
                assert(self@.served =~= self@.yielded + self@.buffer);
                assert(self@ =~= (FetchModel {
                    buffer: pre.buffer.drop_first(),
                    yielded: pre.yielded.push(pre.buffer[0]),
                    ..pre
                }));
            }
            return Pull::Ready(it);
        }
        let done: bool = self.page > 0 && match self.page.checked_mul(self.per_page) {
            Some(p) => p >= self.total,
            None => true,
        };
        if done {
            self.finished = true;
            proof {
                assert(self@ =~= (FetchModel { finished: true, ..old(self)@ }));
            }
            return Pull::Done;
        }
        proof {
            if self.page > 0 {
                assert(self.page as int <= self.page as int * self.per_page as int)
                    by (nonlinear_arith)
                    requires
                        1 <= self.per_page as int,
                        0 <= self.page as int,
                ;
            }
        }
        self.page = self.page + 1;
        self.awaiting = true;
        proof {
            assert(self@ =~= (FetchModel {
                page: (old(self)@.page + 1) as u32,
                awaiting: true,
                ..old(self)@
            }));
        }
        Pull::Fetch(PageRequest { page: self.page, per_page: self.per_page })
    }

    /// Answers a pending fetch demand with the outcome of the page request.
    ///
    /// On success the buffer is replaced by the envelope's items in server
    /// order and the last-seen total is overwritten; nothing is returned and
    /// the next pull reads the fresh buffer. An empty page ends the
    /// traversal regardless of the termination formula — a defensive
    /// fallback against a stale or inflated total, so that no run of empty
    /// pages is ever chased. On failure the fetcher latches into the
    /// finished state — no further page is ever requested — and the error is
    /// handed back so that the consumer sees it as the failed element of the
    /// sequence. An outcome supplied while no fetch is pending is discarded.
    pub fn supply(&mut self, outcome: Result<PageEnvelope, FetchError>) -> (r: Option<
        FetchError,
    >)
        requires
            old(self).wf(),
        ensures
            final(self).wf(),
            !old(self)@.awaiting ==> final(self)@ == old(self)@ && r is None,
            old(self)@.awaiting && outcome is Ok ==> r is None
                && final(self)@ == (FetchModel {
                    awaiting: false,
                    finished: outcome->Ok_0.ids().len() == 0,
                    buffer: outcome->Ok_0.ids(),
                    total: outcome->Ok_0.total,
                    served: old(self)@.served + outcome->Ok_0.ids(),
                    ..old(self)@
                }),
            old(self)@.awaiting && outcome is Err ==> (r matches Some(e) && outcome
                == Result::<PageEnvelope, FetchError>::Err(e))
                && final(self)@ == (FetchModel { awaiting: false, finished: true, ..old(self)@ }),
    {
        if !self.awaiting {
            return None;
        }
        self.awaiting = false;
        match outcome {
            Ok(env) => {
                let ghost pre = self@;
                let ghost ids = env.ids();
                self.total = env.total;
                self.finished = env.items.len() == 0;
                self.buffer = env.items;
                proof {
                    self.served@ = self.served@ + ids;
                    assert(self@.buffer =~= ids);
                    assert(pre.buffer.len() == 0);
                    assert(pre.served =~= pre.yielded);
                    assert(self@.served =~= self@.yielded + self@.buffer);
                    assert(self@ =~= (FetchModel {
                        awaiting: false,
                        finished: ids.len() == 0,
                        buffer: ids,
                        total: env.total,
                        served: pre.served + ids,
                        ..pre
                    }));
                }
                None
            },
            Err(e) => {
                self.finished = true;
                proof {
                    assert(self@ =~= (FetchModel {
                        awaiting: false,
                        finished: true,
                        ..old(self)@
                    }));
                }
                Some(e)
            },
        }
    }

    /// The URL at which the page demanded by `req` is to be fetched.
    pub fn request_url(&self, req: &PageRequest) -> (r: String)
        ensures
            r@ == crate::url::url_of(self@.subject, req.page, req.per_page),
    {
        crate::url::build_url(self.subject.as_str(), req.page, req.per_page)
    }

    /// The subject key this fetcher traverses.
    pub fn subject(&self) -> (r: &str)
        ensures
            r@ == self@.subject,
    {
        self.subject.as_str()
    }

    /// The number of the most recently requested page; 0 before the first
    /// request.
    pub fn page(&self) -> (r: u32)
        ensures
            r == self@.page,
    {
        self.page
    }

    /// The fixed page size.
    pub fn per_page(&self) -> (r: u32)
        ensures
            r == self@.per_page,
    {
        self.per_page
    }

    /// The most recently seen server-reported total; 0 until the first page
    /// arrives (treated as "unknown", not as "zero remaining").
    pub fn total(&self) -> (r: u32)
        ensures
            r == self@.total,
    {
        self.total
    }

    /// Whether the traversal has finished, by end of sequence or by error.
    pub fn is_finished(&self) -> (r: bool)
        ensures
            r == self@.finished,
    {
        self.finished
    }
}

/// Termination: a page is requested only from a state the termination
/// formula still allows, so once the total has been learned (at least one
/// page fetched), the number of the next request — `page + 1` — never
/// exceeds the page count the server implies, `ceil(total / per_page)`.
/// Since each request increments the page counter by exactly one, a server
/// whose reported total stays at `total` is asked for at most
/// `ceil(total / per_page)` pages in the whole traversal.
pub proof fn lemma_request_bound(m: FetchModel)
    requires
        inv(m),
        m.page > 0,
        !exhausted(m),
    ensures
        m.page + 1 <= (m.total + m.per_page - 1) / (m.per_page as int),
{
    let p: int = m.page as int;
    let pp: int = m.per_page as int;
    let t: int = m.total as int;
    assert(p * pp < t);
    assert(pp * (p + 1) == p * pp + pp) by (nonlinear_arith);
    assert(pp * (p + 1) <= t + pp - 1);
    vstd::arithmetic::div_mod::lemma_div_is_ordered(pp * (p + 1), t + pp - 1, pp);
    vstd::arithmetic::div_mod::lemma_div_multiples_vanish(p + 1, pp);
}

/// Order preservation: in every reachable state, the items yielded so far
/// are exactly the first `yielded.len()` items the server served, in the
/// server's order — no reordering, no deduplication, page after page.
pub proof fn lemma_yield_order(m: FetchModel)
    requires
        inv(m),
    ensures
        m.yielded == m.served.take(m.yielded.len() as int),
        m.served == m.yielded + m.buffer,
{
    assert(m.yielded =~= (m.yielded + m.buffer).take(m.yielded.len() as int));
}

} // verus!
