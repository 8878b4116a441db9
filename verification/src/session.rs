//! The interactive session: the aggregate state, and the state machine that
//! interprets one polled keyboard event at a time. The caller performs the
//! one outside action the machine asks for — fetching a search page — and
//! hands its outcome back.

use vstd::prelude::*;
use vstd::string::StringExecFns;
use crate::extract::{extract, spec_extract};
use crate::record::{YoutubeVideoInfo, empty_record_model, views_of};
use crate::text::{spec_trim, trim_chars, chars_of, string_from_chars, push_char, pop_char};

verus! {

/// One keyboard event, as the session interprets it. Events the session
/// ignores arrive as `Other`.
pub enum KeyInput {
    Char(char),
    Backspace,
    Enter,
    Up,
    Down,
    Esc,
    Other,
}

/// What the caller must do after an event is handled.
pub enum SessionAction {
    /// Redraw and poll the next event.
    Continue,
    /// The session is over: stop processing events.
    Exit,
    /// Fetch the search page for this query, then hand the outcome to
    /// [`App::apply_fetch_outcome`]. The session is unresponsive meanwhile:
    /// one operation is in flight at a time.
    Search(String),
}

/// What a fetch came back with: the raw body text, or the description of the
/// failure.
pub enum FetchOutcome {
    Body(String),
    Failed(String),
}

/// The whole interactive session.
pub struct App {
    /// Found records, in the platform's ranking order.
    pub videos: Vec<YoutubeVideoInfo>,
    /// Index into `videos`; kept at 0 while `videos` is empty, in range
    /// otherwise, so it is never out of bounds.
    pub selected: usize,
    /// The in-progress query text.
    pub query: String,
    /// The status line shown to the user.
    pub message: String,
}

/// The prompt shown at startup.
pub open spec fn welcome_message() -> Seq<char> {
    "Ketik query lalu enter"@
}

/// The notice shown while a search is in flight.
pub open spec fn searching_message(q: Seq<char>) -> Seq<char> {
    "Mencari: "@ + q + "..."@
}

/// The notice shown once a search came back.
pub open spec fn results_message(q: Seq<char>) -> Seq<char> {
    "Hasil untuk: "@ + q
}

impl App {
    /// The selection is in range whenever there is anything to select, and
    /// pinned to 0 otherwise.
    pub open spec fn wf(self) -> bool {
        if self.videos@.len() == 0 {
            self.selected == 0
        } else {
            self.selected < self.videos@.len()
        }
    }

    /// The session at startup: nothing found yet, nothing typed, the
    /// welcome prompt up.
    pub fn new() -> (app: App)
        ensures
            app.wf(),
            app.videos@.len() == 0,
            app.selected == 0,
            app.query@ == Seq::<char>::empty(),
            app.message@ == welcome_message(),
    {
        App {
            videos: Vec::new(),
            selected: 0,
            query: String::new(),
            message: String::from_str("Ketik query lalu enter"),
        }
    }

    /// Interpret one keyboard event. Typing edits the query buffer; Up and
    /// Down move the selection without ever leaving range; Enter submits a
    /// non-blank query, or surfaces the selected record's URL when the
    /// buffer is blank; `'0'` and Escape end the session.
    pub fn handle_key(&mut self, key: KeyInput) -> (act: SessionAction)
        requires
            old(self).wf(),
        ensures
            final(self).wf(),
            match key {
                KeyInput::Char(c) => if c == '0' {
                    act is Exit && *final(self) == *old(self)
                } else {
                    &&& act is Continue
                    &&& final(self).query@ == old(self).query@.push(c)
                    &&& final(self).videos == old(self).videos
                    &&& final(self).selected == old(self).selected
                    &&& final(self).message == old(self).message
                },
                KeyInput::Backspace => {
                    &&& act is Continue
                    &&& final(self).query@ == (if old(self).query@.len() == 0 {
                        old(self).query@
                    } else {
                        old(self).query@.drop_last()
                    })
                    &&& final(self).videos == old(self).videos
                    &&& final(self).selected == old(self).selected
                    &&& final(self).message == old(self).message
                },
                KeyInput::Enter => {
                    let t = spec_trim(old(self).query@);
                    if t.len() > 0 {
                        &&& act matches SessionAction::Search(q) && q@ == t
                        &&& final(self).query@ == Seq::<char>::empty()
                        &&& final(self).message@ == searching_message(t)
                        &&& final(self).videos == old(self).videos
                        &&& final(self).selected == old(self).selected
                    } else if old(self).videos@.len() > 0 {
                        &&& act is Continue
                        &&& final(self).message@ == old(
                            self,
                        ).videos@[old(self).selected as int]@.url
                        &&& final(self).videos == old(self).videos
                        &&& final(self).selected == old(self).selected
                        &&& final(self).query == old(self).query
                    } else {
                        act is Continue && *final(self) == *old(self)
                    }
                },
                KeyInput::Up => {
                    &&& act is Continue
                    &&& final(self).selected == (if old(self).selected > 0 {
                        old(self).selected - 1
                    } else {
                        0
                    })
                    &&& final(self).videos == old(self).videos
                    &&& final(self).query == old(self).query
                    &&& final(self).message == old(self).message
                },
                KeyInput::Down => {
                    &&& act is Continue
                    &&& final(self).selected as int == (if (old(self).selected as int) < old(
                        self,
                    ).videos@.len() - 1 {
                        old(self).selected as int + 1
                    } else {
                        old(self).selected as int
                    })
                    &&& final(self).videos == old(self).videos
                    &&& final(self).query == old(self).query
                    &&& final(self).message == old(self).message
                },
                KeyInput::Esc => act is Exit && *final(self) == *old(self),
                KeyInput::Other => act is Continue && *final(self) == *old(self),
            },
    {
        match key {
            KeyInput::Char(c) => {
                if c == '0' {
                    SessionAction::Exit
                } else {
                    push_char(&mut self.query, c);
                    SessionAction::Continue
                }
            },
            KeyInput::Backspace => {
                pop_char(&mut self.query);
                SessionAction::Continue
            },
            KeyInput::Enter => {
                let qchars = chars_of(self.query.as_str());
                let tchars = trim_chars(&qchars);
                if tchars.len() > 0 {
                    let t = string_from_chars(&tchars);
                    self.query = String::new();
                    self.message = String::from_str("Mencari: ").concat(t.as_str()).concat("...");
                    SessionAction::Search(t)
                } else if self.videos.len() > 0 {
                    self.message = self.videos[self.selected].url.clone();
                    SessionAction::Continue
                } else {
                    SessionAction::Continue
                }
            },
            KeyInput::Up => {
                if self.selected > 0 {
                    self.selected = self.selected - 1;
                }
                SessionAction::Continue
            },
            KeyInput::Down => {
                if self.videos.len() > 0 && self.selected < self.videos.len() - 1 {
                    self.selected = self.selected + 1;
                }
                SessionAction::Continue
            },
            KeyInput::Esc => SessionAction::Exit,
            KeyInput::Other => SessionAction::Continue,
        }
    }

    /// Take in what the fetch for `query` came back with. A body is run
    /// through the extractor and replaces the results, the selection reset;
    /// a failure leaves one placeholder record and surfaces the error text.
    /// Either way the session stays alive and keeps accepting events.
    pub fn apply_fetch_outcome(&mut self, query: &str, outcome: FetchOutcome)
        ensures
            final(self).wf(),
            final(self).query == old(self).query,
            match outcome {
                FetchOutcome::Body(body) => {
                    &&& views_of(final(self).videos@) == spec_extract(body@)
                    &&& final(self).selected == 0
                    &&& final(self).message@ == results_message(query@)
                },
                FetchOutcome::Failed(err) => {
                    &&& views_of(final(self).videos@) == seq![empty_record_model()]
                    &&& final(self).selected == 0
                    &&& final(self).message@ == err@
                },
            },
    {
        match outcome {
            FetchOutcome::Body(body) => {
                self.videos = extract(body.as_str());
                self.selected = 0;
                self.message = String::from_str("Hasil untuk: ").concat(query);
            },
            FetchOutcome::Failed(err) => {
                let mut vs: Vec<YoutubeVideoInfo> = Vec::new();
                vs.push(YoutubeVideoInfo::default());
                proof {
                    assert(views_of(vs@) =~= seq![empty_record_model()]);
                }
                self.videos = vs;
                self.selected = 0;
                self.message = err;
            },
        }
    }
}

/// The search endpoint every query URL starts with.
pub open spec fn search_url_prefix() -> Seq<char> {
    "https://www.youtube.com/results?search_query="@
}

/// The request URL for a query: the fixed search endpoint with the raw query
/// appended. Nothing is escaped; the transport sees the query as typed.
pub fn search_request_url(query: &str) -> (u: String)
    ensures
        u@ == search_url_prefix() + query@,
{
    String::from_str("https://www.youtube.com/results?search_query=").concat(query)
}

} // verus!
