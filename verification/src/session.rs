//! One upload request, served part by part. The session decides; its driver
//! reads the parts, writes the objects and sends the reply, and tells the
//! session what came of it.

use crate::clock::{is_stamp, stamp_at, stamp_pattern, utc_text};
use crate::config::{text_of, Destination, DestinationView};
use crate::key::{entry_name, entry_text, key_text, object_key, object_url, url_text};
use crate::reply::{fault, storage_failure, success, Reply, ReplyView, Status};
use crate::urls::UrlMap;
use vstd::prelude::*;

verus! {

/// What a part of the multipart body says of itself, and the stamp of the
/// moment it was read. Its payload stays with the driver.
#[derive(Debug)]
pub struct Part {
    /// The name of the field, which serves as the file's category.
    pub category: Option<String>,
    pub file_name: Option<String>,
    pub stamp: String,
}

/// A part as plain text.
pub struct PartView {
    pub category: Option<Seq<char>>,
    pub file_name: Option<Seq<char>>,
    pub stamp: Seq<char>,
}

impl View for Part {
    type V = PartView;

    open spec fn view(&self) -> PartView {
        PartView {
            category: text_of(self.category),
            file_name: text_of(self.file_name),
            stamp: self.stamp@,
        }
    }
}

impl Part {
    /// The part that was read `secs` seconds after the start of 1970; `None`
    /// where no date can be written for that moment.
    pub fn read_at(
        category: Option<String>,
        file_name: Option<String>,
        secs: i64,
    ) -> (part: Option<Part>)
        ensures
            match utc_text(secs as int, stamp_pattern()) {
                Some(stamp) => part matches Some(p) && p@ == (PartView {
                    category: text_of(category),
                    file_name: text_of(file_name),
                    stamp,
                }) && is_stamp(stamp),
                None => part is None,
            },
    {
        match stamp_at(secs) {
            Some(stamp) => Some(Part { category, file_name, stamp }),
            None => None,
        }
    }
}

/// One object to write, and the entry to report once it is written.
#[derive(Debug)]
pub struct Upload {
    pub bucket: String,
    pub key: String,
    pub name: String,
    pub url: String,
}

/// An upload as plain text.
pub struct UploadView {
    pub bucket: Seq<char>,
    pub key: Seq<char>,
    pub name: Seq<char>,
    pub url: Seq<char>,
}

impl View for Upload {
    type V = UploadView;

    open spec fn view(&self) -> UploadView {
        UploadView { bucket: self.bucket@, key: self.key@, name: self.name@, url: self.url@ }
    }
}

/// The answer to a part that has no field name.
pub open spec fn nameless_part() -> ReplyView {
    fault(Status::BadRequest, "error"@, "Multipart field name is missing"@)
}

/// The answer to a part that has no file name.
pub open spec fn nameless_file() -> ReplyView {
    fault(Status::BadRequest, "error"@, "File name is missing"@)
}

/// The answer to a body that cannot be read as multipart.
pub open spec fn malformed_body() -> ReplyView {
    fault(Status::BadRequest, "error"@, "Malformed multipart body"@)
}

/// What to do with a part: write it under its key, or refuse a part that
/// lacks its field name or its file name.
pub open spec fn plan_model(to: DestinationView, part: PartView) -> Result<UploadView, ReplyView> {
    match (part.category, part.file_name) {
        (None, _) => Err(nameless_part()),
        (Some(_), None) => Err(nameless_file()),
        (Some(category), Some(file_name)) => {
            let key = key_text(to.sub_path, category, part.stamp, file_name);
            Ok(
                UploadView {
                    bucket: to.bucket,
                    key,
                    name: entry_text(file_name, category),
                    url: url_text(to.bucket_url, key),
                },
            )
        },
    }
}

/// A plan by the views of what it holds.
pub open spec fn plan_view(planned: Result<Upload, Reply>) -> Result<UploadView, ReplyView> {
    match planned {
        Ok(upload) => Ok(upload@),
        Err(reply) => Err(reply@),
    }
}

/// Decides what to do with a part.
pub fn plan(to: &Destination, part: &Part) -> (planned: Result<Upload, Reply>)
    ensures
        plan_view(planned) == plan_model(to@, part@),
{
    match &part.category {
        None => Err(Reply::fault(Status::BadRequest, "error", "Multipart field name is missing")),
        Some(category) => match &part.file_name {
            None => Err(Reply::fault(Status::BadRequest, "error", "File name is missing")),
            Some(file_name) => {
                let key = object_key(
                    to.sub_path.as_str(),
                    category.as_str(),
                    part.stamp.as_str(),
                    file_name.as_str(),
                );
                let url = object_url(to.bucket_url.as_str(), key.as_str());
                let name = entry_name(file_name.as_str(), category.as_str());
                Ok(Upload { bucket: to.bucket.clone(), key, name, url })
            },
        },
    }
}

/// What the driver tells the session.
#[derive(Debug)]
pub enum Event {
    /// The next part of the body was read.
    Part(Part),
    /// The body could not be read as multipart.
    Malformed,
    /// The store took the object of this upload.
    Stored(Upload),
    /// The store refused an object.
    StoreFailed,
    /// The body has no further part.
    End,
}

/// An event as plain text.
pub enum EventView {
    Part(PartView),
    Malformed,
    Stored(UploadView),
    StoreFailed,
    End,
}

impl View for Event {
    type V = EventView;

    open spec fn view(&self) -> EventView {
        match self {
            Event::Part(part) => EventView::Part(part@),
            Event::Malformed => EventView::Malformed,
            Event::Stored(upload) => EventView::Stored(upload@),
            Event::StoreFailed => EventView::StoreFailed,
            Event::End => EventView::End,
        }
    }
}

/// What the session asks of its driver.
#[derive(Debug)]
pub enum Action {
    /// Write the payload of the part just read under this key, and report
    /// `Stored` with this upload, or `StoreFailed`.
    Put(Upload),
    /// Read the next part.
    Next,
    /// Send this reply; the request is over.
    Reply(Reply),
    /// Nothing: the reply was given before.
    Halt,
}

/// An action as plain text.
pub enum ActionView {
    Put(UploadView),
    Next,
    Reply(ReplyView),
    Halt,
}

impl View for Action {
    type V = ActionView;

    open spec fn view(&self) -> ActionView {
        match self {
            Action::Put(upload) => ActionView::Put(upload@),
            Action::Next => ActionView::Next,
            Action::Reply(reply) => ActionView::Reply(reply@),
            Action::Halt => ActionView::Halt,
        }
    }
}

/// What a session holds.
pub struct SessionView {
    pub to: DestinationView,
    /// The addresses of the objects written so far.
    pub urls: Map<Seq<char>, Seq<char>>,
    /// Whether the reply is still to be given.
    pub open: bool,
}

/// The session once its reply is given: it holds no address any more.
pub open spec fn closed(s: SessionView) -> SessionView {
    SessionView { to: s.to, urls: Map::empty(), open: false }
}

/// The session at the start of a request.
pub open spec fn fresh(to: DestinationView) -> SessionView {
    SessionView { to, urls: Map::empty(), open: true }
}

/// One step of a session. A part is planned and, unless it is refused, to be
/// written; a written object is reported under its entry name, in place of an
/// earlier one of that name; the first refusal by the store ends the request
/// with the storage failure; the end of the body ends it with the addresses
/// gathered. A session that has given its reply stays as it is.
pub open spec fn step_model(s: SessionView, e: EventView) -> (SessionView, ActionView) {
    if !s.open {
        (s, ActionView::Halt)
    } else {
        match e {
            EventView::Part(part) => match plan_model(s.to, part) {
                Ok(upload) => (s, ActionView::Put(upload)),
                Err(reply) => (closed(s), ActionView::Reply(reply)),
            },
            EventView::Malformed => (closed(s), ActionView::Reply(malformed_body())),
            EventView::Stored(upload) => (
                SessionView { urls: s.urls.insert(upload.name, upload.url), ..s },
                ActionView::Next,
            ),
            EventView::StoreFailed => (closed(s), ActionView::Reply(storage_failure())),
            EventView::End => (closed(s), ActionView::Reply(success(s.urls))),
        }
    }
}

/// The session after `events`, and the actions it asked for, one for each
/// event.
pub open spec fn run_model(s: SessionView, events: Seq<EventView>) -> (
    SessionView,
    Seq<ActionView>,
)
    decreases events.len(),
{
    if events.len() == 0 {
        (s, Seq::empty())
    } else {
        let (before, actions) = run_model(s, events.drop_last());
        let (after, action) = step_model(before, events.last());
        (after, actions.push(action))
    }
}

/// One upload request in progress.
#[derive(Debug)]
pub struct Session {
    to: Destination,
    urls: UrlMap,
    open: bool,
}

impl View for Session {
    type V = SessionView;

    closed spec fn view(&self) -> SessionView {
        SessionView { to: self.to@, urls: self.urls@, open: self.open }
    }
}

impl Session {
    /// The session at the start of a request.
    pub fn new(to: Destination) -> (s: Session)
        ensures
            s@ == fresh(to@),
    {
        Session { to, urls: UrlMap::new(), open: true }
    }

    /// Whether the reply is still to be given.
    pub fn is_open(&self) -> (open: bool)
        ensures
            open == self@.open,
    {
        self.open
    }

    /// Gives up what was gathered and takes no further event.
    fn close(&mut self)
        ensures
            final(self)@ == closed(old(self)@),
    {
        self.urls = UrlMap::new();
        self.open = false;
    }

    /// Takes what the driver tells and says what it is to do next.
    pub fn step(&mut self, event: Event) -> (action: Action)
        ensures
            (final(self)@, action@) == step_model(old(self)@, event@),
    {
        if !self.open {
            return Action::Halt;
        }
        match event {
            Event::Part(part) => match plan(&self.to, &part) {
                Ok(upload) => Action::Put(upload),
                Err(reply) => {
                    self.close();
                    Action::Reply(reply)
                },
            },
            Event::Malformed => {
                self.close();
                Action::Reply(
                    Reply::fault(Status::BadRequest, "error", "Malformed multipart body"),
                )
            },
            Event::Stored(upload) => {
                self.urls.insert(upload.name, upload.url);
                Action::Next
            },
            Event::StoreFailed => {
                self.close();
                Action::Reply(Reply::storage_failure())
            },
            Event::End => {
                let mut urls = UrlMap::new();
                core::mem::swap(&mut self.urls, &mut urls);
                self.open = false;
                Action::Reply(Reply::success(urls))
            },
        }
    }

    /// Takes the events of a request one after the other, and gives the
    /// action that each was answered with.
    pub fn run(&mut self, events: Vec<Event>) -> (actions: Vec<Action>)
        ensures
            (final(self)@, actions@.map_values(|a: Action| a@)) == run_model(
                old(self)@,
                events@.map_values(|e: Event| e@),
            ),
    {
        let ghost start = self@;
        let ghost told = events@.map_values(|e: Event| e@);
        let mut actions: Vec<Action> = Vec::new();
        for event in it: events
            invariant
                it.seq().map_values(|e: Event| e@) == told,
                (self@, actions@.map_values(|a: Action| a@)) == run_model(
                    start,
                    told.take(it.index()),
                ),
        {
            let ghost k = it.index();
            let ghost done = actions@.map_values(|a: Action| a@);
            let action = self.step(event);
            proof {
                assert(told.take(k + 1).drop_last() =~= told.take(k));
                assert(told.take(k + 1).last() == event@);
                assert(actions@.push(action).map_values(|a: Action| a@) =~= done.push(action@));
            }
            actions.push(action);
        }
        proof {
            assert(told.take(told.len() as int) =~= told);
        }
        actions
    }
}

} // verus!
