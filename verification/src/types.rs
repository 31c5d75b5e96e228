//! The typed events of the feed and what is derived from them.

use crate::json::{json_of, Json};
use crate::text::{
    decimal, ends_with, occurs_at, occurs_in, push_decimal, replace_spaces, underscored,
};
use vstd::prelude::*;

verus! {

/// Length in bytes of new revision, and potentially old revision
#[derive(Clone, Debug)]
pub struct EventLength {
    /// Length of old revision, in bytes
    pub old: Option<u32>,
    /// Length of new revision, in bytes
    pub new: u32,
}

/// Revision ID of new revision, and potentially old revision
#[derive(Clone, Debug)]
pub struct EventRevision {
    /// Revision ID for old revision
    pub old: Option<u32>,
    /// Revision ID for new revision
    pub new: u32,
}

/// Where in the feed an event came from
#[derive(Clone, Debug)]
pub struct EventMeta {
    pub(crate) uri: String,
    pub(crate) request_id: String,
    pub(crate) id: String,
    pub(crate) dt: String,
    pub(crate) domain: String,
    pub(crate) stream: String,
    pub(crate) topic: String,
    pub(crate) partition: u32,
    pub(crate) offset: u32,
}

/// The model of an [`EventMeta`].
pub struct EventMetaView {
    pub uri: Seq<char>,
    pub request_id: Seq<char>,
    pub id: Seq<char>,
    pub dt: Seq<char>,
    pub domain: Seq<char>,
    pub stream: Seq<char>,
    pub topic: Seq<char>,
    pub partition: u32,
    pub offset: u32,
}

impl View for EventMeta {
    type V = EventMetaView;

    open(crate) spec fn view(&self) -> EventMetaView {
        EventMetaView {
            uri: self.uri@,
            request_id: self.request_id@,
            id: self.id@,
            dt: self.dt@,
            domain: self.domain@,
            stream: self.stream@,
            topic: self.topic@,
            partition: self.partition,
            offset: self.offset,
        }
    }
}

/// Represents an edit
#[derive(Clone, Debug)]
pub struct EditEvent {
    pub(crate) schema: String,
    pub(crate) meta: EventMeta,
    /// Revision ID
    pub id: u32,
    pub(crate) type_: String,
    /// Namespace ID
    pub namespace: i32,
    /// Prefixed title (includes namespace name)
    pub title: String,
    /// Edit summary
    pub comment: String,
    /// HTML-parsed version of the edit summary
    pub parsedcomment: String,
    /// Unix timestamp
    pub timestamp: u32,
    /// Username
    pub user: String,
    /// Whether the edit was flagged as by a bot
    pub bot: bool,
    pub(crate) minor: Option<bool>,
    pub(crate) patrolled: Option<bool>,
    /// Length in bytes of new revision, and potentially old revision
    pub length: EventLength,
    /// Revision ID of new revision, and potentially old revision
    pub revision: EventRevision,
    /// URL of wiki with protocol, e.g. `https://www.wikidata.org`
    pub server_url: String,
    /// Domain of wiki with no protocol, e.g. `www.wikidata.org` or `en.wikipedia.org`
    pub server_name: String,
    /// Base URL path of wiki
    pub server_script_path: String,
    /// Internal database name
    pub wiki: String,
}

/// The model of an [`EditEvent`]: each text as its sequence of characters.
pub struct EditEventView {
    pub schema: Seq<char>,
    pub meta: EventMetaView,
    pub id: u32,
    pub type_: Seq<char>,
    pub namespace: i32,
    pub title: Seq<char>,
    pub comment: Seq<char>,
    pub parsedcomment: Seq<char>,
    pub timestamp: u32,
    pub user: Seq<char>,
    pub bot: bool,
    pub minor: Option<bool>,
    pub patrolled: Option<bool>,
    pub length: EventLength,
    pub revision: EventRevision,
    pub server_url: Seq<char>,
    pub server_name: Seq<char>,
    pub server_script_path: Seq<char>,
    pub wiki: Seq<char>,
}

impl View for EditEvent {
    type V = EditEventView;

    open(crate) spec fn view(&self) -> EditEventView {
        EditEventView {
            schema: self.schema@,
            meta: self.meta@,
            id: self.id,
            type_: self.type_@,
            namespace: self.namespace,
            title: self.title@,
            comment: self.comment@,
            parsedcomment: self.parsedcomment@,
            timestamp: self.timestamp,
            user: self.user@,
            bot: self.bot,
            minor: self.minor,
            patrolled: self.patrolled,
            length: self.length,
            revision: self.revision,
            server_url: self.server_url@,
            server_name: self.server_name@,
            server_script_path: self.server_script_path@,
            wiki: self.wiki@,
        }
    }
}

/// The address of a script of a wiki: the server's URL, the script path, a
/// slash, the script's name and `.php`.
pub open spec fn endpoint_url(
    server_url: Seq<char>,
    server_script_path: Seq<char>,
    script: Seq<char>,
) -> Seq<char> {
    server_url + server_script_path + "/"@ + script + ".php"@
}

impl EditEventView {
    /// Whether the edit is marked as minor; an absent flag counts as `false`.
    pub open spec fn is_minor(self) -> bool {
        match self.minor {
            Some(flag) => flag,
            None => false,
        }
    }

    /// Whether the edit is marked as patrolled; an absent flag counts as `false`.
    pub open spec fn is_patrolled(self) -> bool {
        match self.patrolled {
            Some(flag) => flag,
            None => false,
        }
    }

    /// The address of the wiki's `api.php`.
    pub open spec fn api_url(self) -> Seq<char> {
        self.server_url + self.server_script_path + "/api.php"@
    }

    /// The title as it stands in a URL.
    pub open spec fn title_for_url(self) -> Seq<char> {
        underscored(self.title)
    }

    /// The readable address of the diff of this edit.
    pub open spec fn diff_url(self) -> Seq<char> {
        self.server_url + self.server_script_path + "/index.php"@ + "?title="@
            + self.title_for_url() + "&diff="@ + decimal(self.revision.new as nat)
    }

    /// The shortest address of the diff of this edit.
    pub open spec fn short_diff_url(self) -> Seq<char> {
        self.server_url + "?diff="@ + decimal(self.revision.new as nat)
    }
}

/// The readable address of a diff names the title and the revision: it
/// holds `title=` followed by the title with every space replaced by an
/// underscore, and it ends with `&diff=` followed by the id of the new
/// revision in decimal.
pub proof fn law_diff_url_names_title_and_revision(edit: EditEventView)
    ensures
        occurs_in(edit.diff_url(), "title="@ + underscored(edit.title)),
        ends_with(edit.diff_url(), "&diff="@ + decimal(edit.revision.new as nat)),
{
    reveal_strlit("?title=");
    reveal_strlit("title=");
    let url = edit.diff_url();
    let head = edit.server_url + edit.server_script_path + "/index.php"@;
    let title = underscored(edit.title);
    let tail = "&diff="@ + decimal(edit.revision.new as nat);
    assert(url =~= head + "?title="@ + title + tail);
    let at = head.len() as int + 1;
    assert(url.subrange(at, at + ("title="@ + title).len()) =~= "title="@ + title);
    assert(occurs_at(url, "title="@ + title, at));
    assert(url.subrange(url.len() - tail.len(), url.len() as int) =~= tail);
}

/// Builds the address of the script `script` of a wiki.
fn endpoint(server_url: &String, server_script_path: &String, script: &str) -> (r: String)
    ensures
        r@ == endpoint_url(server_url@, server_script_path@, script@),
{
    let mut url = server_url.clone();
    url.append(server_script_path.as_str());
    url.append("/");
    url.append(script);
    url.append(".php");
    url
}

impl EditEvent {
    /// Whether the edit is marked as minor
    pub fn is_minor(&self) -> (r: bool)
        ensures
            r == self@.is_minor(),
    {
        match self.minor {
            Some(flag) => flag,
            None => false,
        }
    }

    /// Whether the edit has been marked as patrolled
    pub fn is_patrolled(&self) -> (r: bool)
        ensures
            r == self@.is_patrolled(),
    {
        match self.patrolled {
            Some(flag) => flag,
            None => false,
        }
    }

    /// The address of the script `path` of this edit's wiki.
    pub fn endpoint(&self, path: &str) -> (r: String)
        ensures
            r@ == endpoint_url(self@.server_url, self@.server_script_path, path@),
    {
        endpoint(&self.server_url, &self.server_script_path, path)
    }

    /// URL to the wiki's api.php ("Action API") endpoint
    pub fn api_url(&self) -> (r: String)
        ensures
            r@ == self@.api_url(),
            r@ == self@.server_url + self@.server_script_path + "/api.php"@,
    {
        let url = self.endpoint("api");
        proof {
            reveal_strlit("/");
            reveal_strlit("api");
            reveal_strlit(".php");
            reveal_strlit("/api.php");
            assert(url@ =~= self@.api_url());
        }
        url
    }

    /// The title with every space replaced by an underscore.
    pub fn title_for_url(&self) -> (r: String)
        ensures
            r@ == self@.title_for_url(),
    {
        replace_spaces(self.title.as_str())
    }

    /// URL to the diff for this edit, formatted for human readability
    pub fn diff_url(&self) -> (r: String)
        ensures
            r@ == self@.diff_url(),
    {
        let mut url = self.endpoint("index");
        let title = self.title_for_url();
        url.append("?title=");
        url.append(title.as_str());
        url.append("&diff=");
        push_decimal(&mut url, self.revision.new);
        proof {
            reveal_strlit("/");
            reveal_strlit("index");
            reveal_strlit(".php");
            reveal_strlit("/index.php");
            assert(url@ =~= self@.diff_url());
        }
        url
    }

    /// URL to the diff for this edit, as short as possible
    pub fn short_diff_url(&self) -> (r: String)
        ensures
            r@ == self@.short_diff_url(),
    {
        let mut url = self.server_url.clone();
        url.append("?diff=");
        push_decimal(&mut url, self.revision.new);
        url
    }
}

/// Represents a log entry
#[derive(Clone, Debug)]
pub struct LogEvent {
    pub(crate) schema: String,
    pub(crate) meta: EventMeta,
    pub(crate) type_: String,
    /// Namespace ID
    pub namespace: i32,
    /// Prefixed title (includes namespace name)
    pub title: String,
    /// Log entry summary
    pub comment: String,
    /// HTML-parsed version of the summary
    pub parsedcomment: String,
    /// Unix timestamp
    pub timestamp: u32,
    /// Username
    pub user: String,
    /// Whether the action was flagged as by a bot
    pub bot: bool,
    pub log_id: u32,
    pub log_type: String,
    pub log_action: String,
    pub log_params: serde_json::Value,
    pub log_action_comment: String,
    /// URL of wiki with protocol, e.g. `https://www.wikidata.org`
    pub server_url: String,
    /// Domain of wiki with no protocol, e.g. `www.wikidata.org` or `en.wikipedia.org`
    pub server_name: String,
    /// Base URL path of wiki
    pub server_script_path: String,
    /// Internal database name
    pub wiki: String,
}

/// The model of a [`LogEvent`]: each text as its sequence of characters, the
/// log parameters as the JSON they hold.
pub struct LogEventView {
    pub schema: Seq<char>,
    pub meta: EventMetaView,
    pub type_: Seq<char>,
    pub namespace: i32,
    pub title: Seq<char>,
    pub comment: Seq<char>,
    pub parsedcomment: Seq<char>,
    pub timestamp: u32,
    pub user: Seq<char>,
    pub bot: bool,
    pub log_id: u32,
    pub log_type: Seq<char>,
    pub log_action: Seq<char>,
    pub log_params: Json,
    pub log_action_comment: Seq<char>,
    pub server_url: Seq<char>,
    pub server_name: Seq<char>,
    pub server_script_path: Seq<char>,
    pub wiki: Seq<char>,
}

impl View for LogEvent {
    type V = LogEventView;

    open(crate) spec fn view(&self) -> LogEventView {
        LogEventView {
            schema: self.schema@,
            meta: self.meta@,
            type_: self.type_@,
            namespace: self.namespace,
            title: self.title@,
            comment: self.comment@,
            parsedcomment: self.parsedcomment@,
            timestamp: self.timestamp,
            user: self.user@,
            bot: self.bot,
            log_id: self.log_id,
            log_type: self.log_type@,
            log_action: self.log_action@,
            log_params: json_of(self.log_params),
            log_action_comment: self.log_action_comment@,
            server_url: self.server_url@,
            server_name: self.server_name@,
            server_script_path: self.server_script_path@,
            wiki: self.wiki@,
        }
    }
}

impl LogEventView {
    /// The address of the wiki's `api.php`.
    pub open spec fn api_url(self) -> Seq<char> {
        self.server_url + self.server_script_path + "/api.php"@
    }
}

impl LogEvent {
    /// URL to the wiki's api.php ("Action API") endpoint
    pub fn api_url(&self) -> (r: String)
        ensures
            r@ == self@.api_url(),
            r@ == self@.server_url + self@.server_script_path + "/api.php"@,
    {
        let url = endpoint(&self.server_url, &self.server_script_path, "api");
        proof {
            reveal_strlit("/");
            reveal_strlit("api");
            reveal_strlit(".php");
            reveal_strlit("/api.php");
            assert(url@ =~= self@.api_url());
        }
        url
    }
}

/// Which of the two shapes an event has.
#[derive(Clone, Copy, Debug, PartialEq, Eq, Structural)]
pub enum EventKind {
    Edit,
    Log,
}

/// One classified message of the feed.
#[derive(Clone, Debug)]
pub enum Event {
    Edit(EditEvent),
    Log(LogEvent),
}

/// The model of an [`Event`].
pub enum EventView {
    Edit(EditEventView),
    Log(LogEventView),
}

impl EventView {
    /// The shape of the event.
    pub open spec fn kind(self) -> EventKind {
        match self {
            EventView::Edit(_) => EventKind::Edit,
            EventView::Log(_) => EventKind::Log,
        }
    }

    /// The domain of the wiki that the event happened on.
    pub open spec fn server_name(self) -> Seq<char> {
        match self {
            EventView::Edit(edit) => edit.server_name,
            EventView::Log(log) => log.server_name,
        }
    }
}

impl View for Event {
    type V = EventView;

    open spec fn view(&self) -> EventView {
        match self {
            Event::Edit(edit) => EventView::Edit(edit@),
            Event::Log(log) => EventView::Log(log@),
        }
    }
}

impl Event {
    /// The shape of the event.
    pub fn kind(&self) -> (r: EventKind)
        ensures
            r == self@.kind(),
    {
        match self {
            Event::Edit(_) => EventKind::Edit,
            Event::Log(_) => EventKind::Log,
        }
    }

    /// The domain of the wiki that the event happened on.
    pub fn server_name(&self) -> (r: &str)
        ensures
            r@ == self@.server_name(),
    {
        match self {
            Event::Edit(edit) => edit.server_name.as_str(),
            Event::Log(log) => log.server_name.as_str(),
        }
    }
}

} // verus!
