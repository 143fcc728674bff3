use vstd::prelude::*;
use vstd::string::*;

use crate::errors::RunError;
use crate::form::{form_body_of, login_pairs, opt_view, page_pairs, login_body, starred_stories_body};
use crate::pages::{output_doc_of, stories_of, decode_page, render_output};
use crate::text::{joined, seq_views, join_strings};

verus! {

/// Where a run stands: which outside outcome it is waiting for, or how it
/// ended. A run moves strictly forward; every error is terminal.
#[derive(Clone, Copy, Debug, PartialEq, Eq, Structural)]
pub enum Phase {
    /// The login request is out.
    AwaitingLogin,
    /// A listing request for page `next_page` is out.
    AwaitingPage,
    /// A write of the current output document is out.
    AwaitingPersist,
    /// The first empty page was seen; the run is complete.
    Done,
    /// The run stopped at this error.
    Failed(RunError),
}

/// What the driver asks its surroundings to do next. Exactly one action
/// comes out of every step of a session.
#[derive(Debug)]
pub enum Action {
    /// Stop the run with this error.
    Quit(RunError),
    /// Send the login request with this url-encoded body.
    SendLogin(String),
    /// Send the listing request for this page index, with this url-encoded
    /// body and this cookie header value.
    SendPage(u64, String, String),
    /// Overwrite the output file with this complete document.
    Persist(String),
    /// Stop the run: everything was collected and persisted.
    Finish,
}

/// One collection run: the session credential, the accumulated stories and
/// the index of the page to fetch next, together with the phase that says
/// which outcome the run is waiting for.
///
/// The surrounding program performs each returned [`Action`] and feeds its
/// outcome back through the matching `on_*` method; the methods here make
/// every decision of the run.
pub struct Session {
    /// The phase the run is in.
    pub phase: Phase,
    /// The cookie header value captured at login, empty until then.
    pub cookie: String,
    /// All stories collected so far, in page order then in-page order.
    pub stories: Vec<String>,
    /// The index of the page to fetch next.
    pub next_page: u64,
}

impl Session {
    /// Begins a run. The pre-flight check comes first: when the destination
    /// already exists and overwriting is not forced, the run stops before
    /// any request is issued. Otherwise the first action is the login
    /// request.
    pub fn start(username: &str, password: Option<&str>, dest_exists: bool, force: bool) -> (r: (
        Session,
        Action,
    ))
        ensures
            r.0.stories@.len() == 0,
            r.0.next_page == 0,
            r.0.cookie@.len() == 0,
            dest_exists && !force ==> {
                &&& r.0.phase == Phase::Failed(RunError::DestinationExists)
                &&& r.1 matches Action::Quit(e) && e == RunError::DestinationExists
            },
            !(dest_exists && !force) ==> {
                &&& r.0.phase == Phase::AwaitingLogin
                &&& r.1 matches Action::SendLogin(b) && b@ == form_body_of(
                    login_pairs(username@, opt_view(password)),
                )
            },
    {
        if dest_exists && !force {
            let session = Session {
                phase: Phase::Failed(RunError::DestinationExists),
                cookie: String::new(),
                stories: Vec::new(),
                next_page: 0,
            };
            (session, Action::Quit(RunError::DestinationExists))
        } else {
            let body = login_body(username, password);
            let session = Session {
                phase: Phase::AwaitingLogin,
                cookie: String::new(),
                stories: Vec::new(),
                next_page: 0,
            };
            (session, Action::SendLogin(body))
        }
    }

    /// The listing request for the page the session will fetch next.
    fn fetch_action(&self) -> (r: Action)
        ensures
            r matches Action::SendPage(p, b, c) && p == self.next_page && b@ == form_body_of(
                page_pairs(Some(self.next_page), None),
            ) && c@ == self.cookie@,
    {
        let body = starred_stories_body(Some(self.next_page), None);
        Action::SendPage(self.next_page, body, self.cookie.clone())
    }

    /// Takes the login outcome: the session-cookie values of the response,
    /// or `None` when the response set no session cookie. Without a cookie
    /// the run stops with the authentication error; with one, the credential
    /// is fixed for the rest of the run and the first listing request goes
    /// out.
    pub fn on_login_response(&mut self, set_cookie: Option<Vec<String>>) -> (r: Action)
        requires
            old(self).phase == Phase::AwaitingLogin,
        ensures
            final(self).stories == old(self).stories,
            final(self).next_page == old(self).next_page,
            set_cookie is None ==> {
                &&& final(self).phase == Phase::Failed(RunError::Auth)
                &&& final(self).cookie == old(self).cookie
                &&& r matches Action::Quit(e) && e == RunError::Auth
            },
            set_cookie matches Some(cookies) ==> {
                &&& final(self).phase == Phase::AwaitingPage
                &&& final(self).cookie@ == joined(seq_views(cookies@), "; "@)
                &&& r matches Action::SendPage(p, b, c) && p == old(self).next_page && b@
                    == form_body_of(page_pairs(Some(old(self).next_page), None))
                    && c@ == final(self).cookie@
            },
    {
        match set_cookie {
            None => {
                self.phase = Phase::Failed(RunError::Auth);
                Action::Quit(RunError::Auth)
            },
            Some(cookies) => {
                self.cookie = join_strings(&cookies, "; ");
                self.phase = Phase::AwaitingPage;
                self.fetch_action()
            },
        }
    }

    /// Takes one listing response body. A body that does not decode stops
    /// the run with the decode error and leaves the accumulated stories —
    /// and so the last persisted document — untouched. An empty page ends
    /// the run without appending anything. A non-empty page is appended, in
    /// order, and the full document is sent out to be persisted.
    pub fn on_page_response(&mut self, body: &str) -> (r: Action)
        requires
            old(self).phase == Phase::AwaitingPage,
        ensures
            final(self).cookie == old(self).cookie,
            final(self).next_page == old(self).next_page,
            stories_of(body@) is None ==> {
                &&& final(self).phase == Phase::Failed(RunError::Decode)
                &&& final(self).stories == old(self).stories
                &&& r matches Action::Quit(e) && e == RunError::Decode
            },
            stories_of(body@) matches Some(page) ==> if page.len() == 0 {
                &&& final(self).phase == Phase::Done
                &&& final(self).stories == old(self).stories
                &&& r is Finish
            } else {
                &&& final(self).phase == Phase::AwaitingPersist
                &&& seq_views(final(self).stories@) == seq_views(old(self).stories@) + page
                &&& r matches Action::Persist(doc) && doc@ == output_doc_of(
                    seq_views(final(self).stories@),
                )
            },
    {
        match decode_page(body) {
            Err(e) => {
                self.phase = Phase::Failed(e);
                Action::Quit(e)
            },
            Ok(mut page) => {
                if page.len() == 0 {
                    self.phase = Phase::Done;
                    Action::Finish
                } else {
                    let ghost old_stories = self.stories@;
                    let ghost new_page = page@;
                    self.stories.append(&mut page);
                    proof {
                        assert(seq_views(self.stories@) =~= seq_views(old_stories) + seq_views(
                            new_page,
                        ));
                    }
                    let doc = render_output(&self.stories);
                    self.phase = Phase::AwaitingPersist;
                    Action::Persist(doc)
                }
            },
        }
    }

    /// Takes the outcome of a persist. A failed write stops the run with the
    /// persist error; after a successful one the next page's listing request
    /// goes out. The page index grows by exactly one per persisted page.
    pub fn on_persisted(&mut self, write_ok: bool) -> (r: Action)
        requires
            old(self).phase == Phase::AwaitingPersist,
            old(self).next_page < u64::MAX,
        ensures
            final(self).cookie == old(self).cookie,
            final(self).stories == old(self).stories,
            !write_ok ==> {
                &&& final(self).phase == Phase::Failed(RunError::Persist)
                &&& final(self).next_page == old(self).next_page
                &&& r matches Action::Quit(e) && e == RunError::Persist
            },
            write_ok ==> {
                &&& final(self).phase == Phase::AwaitingPage
                &&& final(self).next_page == old(self).next_page + 1
                &&& r matches Action::SendPage(p, b, c) && p == final(self).next_page && b@
                    == form_body_of(page_pairs(Some(final(self).next_page), None))
                    && c@ == old(self).cookie@
            },
    {
        if !write_ok {
            self.phase = Phase::Failed(RunError::Persist);
            Action::Quit(RunError::Persist)
        } else {
            self.next_page = self.next_page + 1;
            self.phase = Phase::AwaitingPage;
            self.fetch_action()
        }
    }

    /// Takes a transport failure of the request that is out: fatal at every
    /// phase, reported as an authentication error during login and as a
    /// fetch error during a listing request.
    pub fn on_network_failure(&mut self) -> (r: Action)
        requires
            old(self).phase == Phase::AwaitingLogin || old(self).phase == Phase::AwaitingPage,
        ensures
            final(self).cookie == old(self).cookie,
            final(self).stories == old(self).stories,
            final(self).next_page == old(self).next_page,
            old(self).phase == Phase::AwaitingLogin ==> {
                &&& final(self).phase == Phase::Failed(RunError::Auth)
                &&& r matches Action::Quit(e) && e == RunError::Auth
            },
            old(self).phase == Phase::AwaitingPage ==> {
                &&& final(self).phase == Phase::Failed(RunError::Fetch)
                &&& r matches Action::Quit(e) && e == RunError::Fetch
            },
    {
        let failure = if matches!(self.phase, Phase::AwaitingLogin) {
            RunError::Auth
        } else {
            RunError::Fetch
        };
        self.phase = Phase::Failed(failure);
        Action::Quit(failure)
    }
}

/// The stories a run accumulates over the given decoded pages, fetched in
/// order: every page before the first empty one is appended whole, and the
/// first empty page ends the run without being appended. This is the fold of
/// [`Session::on_page_response`] over the pages.
pub open spec fn collected(pages: Seq<Seq<Seq<char>>>) -> Seq<Seq<char>>
    decreases pages.len(),
{
    if pages.len() == 0 || pages[0].len() == 0 {
        Seq::<Seq<char>>::empty()
    } else {
        pages[0] + collected(pages.drop_first())
    }
}

/// How many listing requests such a run issues: one per page up to and
/// including the first empty one.
pub open spec fn fetch_count(pages: Seq<Seq<Seq<char>>>) -> nat
    decreases pages.len(),
{
    if pages.len() == 0 {
        0
    } else if pages[0].len() == 0 {
        1
    } else {
        1 + fetch_count(pages.drop_first())
    }
}

/// A run over pages of which the first `n` are non-empty and page `n` is
/// empty accumulates exactly the concatenation of those `n` pages, in order,
/// and issues exactly `n + 1` listing requests.
pub proof fn lemma_run_collects_all(pages: Seq<Seq<Seq<char>>>, n: int)
    requires
        0 <= n < pages.len(),
        forall|i: int| 0 <= i < n ==> pages[i].len() > 0,
        pages[n].len() == 0,
    ensures
        collected(pages) == pages.take(n).flatten(),
        fetch_count(pages) == n + 1,
    decreases n,
{
    if n == 0 {
        assert(pages.take(0).len() == 0);
    } else {
        let rest = pages.drop_first();
        assert(forall|i: int| 0 <= i < n - 1 ==> rest[i].len() > 0);
        lemma_run_collects_all(rest, n - 1);
        assert(pages.take(n).drop_first() =~= rest.take(n - 1));
        assert(pages.take(n).flatten() == pages[0] + rest.take(n - 1).flatten());
    }
}

/// A run whose very first page is empty accumulates nothing, issues exactly
/// one listing request, and persists nothing beyond what was on disk; the
/// output document for what it collected is the empty listing.
pub proof fn lemma_first_page_empty(pages: Seq<Seq<Seq<char>>>)
    requires
        pages.len() > 0,
        pages[0].len() == 0,
    ensures
        collected(pages) == Seq::<Seq<char>>::empty(),
        fetch_count(pages) == 1,
        output_doc_of(collected(pages)) == "{\"stories\":[]}"@,
{
    crate::pages::lemma_empty_output_doc();
}

} // verus!
