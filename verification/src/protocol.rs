//! The control channel's wire protocol: one datagram carries one request
//! line; each reply is one JSON object in a datagram of its own, told apart
//! by the tag that the request chose.

use crate::mgmt::MgmtTimestamps;
use crate::peers::{PeerNodeInfo, PeerView};
use crate::text::{
    ascii_lowered, chars_of, contains_str, contains_text, lowered, opt_text, str_equal,
};
use vstd::prelude::*;
use vstd::string::StringExecFns;

verus! {

/// The port on the loopback interface where the edge process listens.
pub const MGMT_PORT: u16 = 5644;

/// How long one read of the socket waits, in milliseconds.
pub const READ_TIMEOUT_MS: u64 = 200;

/// How long a query waits for its end, in milliseconds.
pub const QUERY_DEADLINE_MS: u64 = 1500;

/// How long the request to stop waits for its end, in milliseconds.
pub const STOP_DEADLINE_MS: u64 = 10000;

/// The length that the protocol expects a request line to stay within, in
/// bytes.
pub const MAX_LINE_BYTES: usize = 80;

/// The password that an edge process accepts when none was configured.
pub open spec fn default_password() -> Seq<char> {
    "n2n"@
}

/// The authentication part of a request: absent without a password, else
/// the flag that announces one and the password, each behind a colon.
pub open spec fn auth_text(password: Option<Seq<char>>) -> Seq<char> {
    match password {
        Some(p) => ":1:"@ + p,
        None => Seq::empty(),
    }
}

/// The verb of a request: `w` where it changes something, else `r`.
pub open spec fn verb_text(write: bool) -> Seq<char> {
    if write {
        "w"@
    } else {
        "r"@
    }
}

/// A request line: the verb, the tag with the authentication part, the
/// method, and a line feed.
pub open spec fn request_text(
    write: bool,
    tag: Seq<char>,
    password: Option<Seq<char>>,
    method: Seq<char>,
) -> Seq<char> {
    verb_text(write) + " "@ + tag + auth_text(password) + " "@ + method + "\n"@
}

/// The view of an optional string slice.
pub open spec fn opt_str(o: Option<&str>) -> Option<Seq<char>> {
    match o {
        Some(s) => Some(s@),
        None => None,
    }
}

/// The request line for `method` under `tag`.
pub fn build_request(write: bool, tag: &str, password: Option<&str>, method: &str) -> (line: String)
    ensures
        line@ == request_text(write, tag@, opt_str(password), method@),
{
    let mut line = if write {
        String::from_str("w")
    } else {
        String::from_str("r")
    };
    line.append(" ");
    line.append(tag);
    let ghost before = line@;
    match password {
        Some(p) => {
            line.append(":1:");
            line.append(p);
            assert(line@ =~= before + auth_text(opt_str(password)));
        },
        None => {
            assert(line@ =~= before + auth_text(opt_str(password)));
        },
    }
    line.append(" ");
    line.append(method);
    line.append("\n");
    line
}

/// The request that asks the edge process to stop. It is always
/// authenticated: with `password` if there is one, else with the default.
pub fn stop_request(tag: &str, password: Option<&str>) -> (line: String)
    ensures
        line@ == request_text(
            true,
            tag@,
            Some(
                match password {
                    Some(p) => p@,
                    None => default_password(),
                },
            ),
            "stop"@,
        ),
{
    match password {
        Some(p) => build_request(true, tag, Some(p), "stop"),
        None => build_request(true, tag, Some("n2n"), "stop"),
    }
}

/// Whether a request line stays within the length that the protocol expects.
pub fn within_line_limit(line: &str) -> (r: bool)
    ensures
        r == (line.len() <= MAX_LINE_BYTES),
{
    line.len() <= MAX_LINE_BYTES
}

/// What a row of a reply carries, by the method that was asked.
#[derive(Debug, Clone, PartialEq, Eq)]
pub enum RowData {
    /// Nothing that the supervisor reads.
    Empty,
    /// The heartbeat.
    Timestamps(MgmtTimestamps),
    /// One entry of the roster.
    Peer(PeerNodeInfo),
}

/// What a `RowData` holds, as plain values.
pub enum RowView {
    Empty,
    Timestamps(MgmtTimestamps),
    Peer(PeerView),
}

impl View for RowData {
    type V = RowView;

    open spec fn view(&self) -> RowView {
        match self {
            RowData::Empty => RowView::Empty,
            RowData::Timestamps(t) => RowView::Timestamps(*t),
            RowData::Peer(p) => RowView::Peer(p@),
        }
    }
}

/// One decoded reply: the tag and the type that every reply has, the error
/// text that an error has, and what a row carries.
#[derive(Debug, Clone, PartialEq, Eq)]
pub struct Reply {
    pub tag: String,
    pub kind: String,
    pub error: Option<String>,
    pub row: RowData,
}

/// What a `Reply` holds, as plain values.
pub struct ReplyView {
    pub tag: Seq<char>,
    pub kind: Seq<char>,
    pub error: Option<Seq<char>>,
    pub row: RowView,
}

impl View for Reply {
    type V = ReplyView;

    open spec fn view(&self) -> ReplyView {
        ReplyView {
            tag: self.tag@,
            kind: self.kind@,
            error: opt_text(self.error),
            row: self.row@,
        }
    }
}

/// The view of a datagram: a reply, or `None` where it could not be decoded.
pub open spec fn opt_reply(o: Option<Reply>) -> Option<ReplyView> {
    match o {
        Some(r) => Some(r@),
        None => None,
    }
}

/// What a datagram means to the query that waits under a tag.
pub enum ReplyClass {
    /// Not for this query, or not to be understood: pass over it.
    Skip,
    /// One more row.
    Row,
    /// The reply is complete.
    End,
    /// The request failed, with this text.
    Failure(Seq<char>),
}

/// The text of an error that came without one.
pub open spec fn unnamed_error() -> Seq<char> {
    "error"@
}

/// What a datagram means to the query that waits under `tag`. A datagram
/// that could not be decoded, that bears another tag or whose type is none
/// of `row`, `end` and `error` is passed over.
pub open spec fn reply_class(tag: Seq<char>, datagram: Option<ReplyView>) -> ReplyClass {
    match datagram {
        None => ReplyClass::Skip,
        Some(r) => if r.tag != tag {
            ReplyClass::Skip
        } else if r.kind == "row"@ {
            ReplyClass::Row
        } else if r.kind == "end"@ {
            ReplyClass::End
        } else if r.kind == "error"@ {
            ReplyClass::Failure(
                match r.error {
                    Some(e) => e,
                    None => unnamed_error(),
                },
            )
        } else {
            ReplyClass::Skip
        },
    }
}

/// How far a query has come.
#[derive(Debug, Clone, PartialEq, Eq)]
pub enum QueryState {
    /// Rows may still come.
    Collecting,
    /// The end was seen.
    Complete,
    /// The request failed, with this text.
    Failed(String),
}

/// What a `QueryState` holds, as plain values.
pub enum QueryStateView {
    Collecting,
    Complete,
    Failed(Seq<char>),
}

impl View for QueryState {
    type V = QueryStateView;

    open spec fn view(&self) -> QueryStateView {
        match self {
            QueryState::Collecting => QueryStateView::Collecting,
            QueryState::Complete => QueryStateView::Complete,
            QueryState::Failed(e) => QueryStateView::Failed(e@),
        }
    }
}

/// A request in flight: its tag, the rows that came so far, and how far it
/// has come.
#[derive(Debug, Clone, PartialEq, Eq)]
pub struct Query {
    pub tag: String,
    pub rows: Vec<RowData>,
    pub state: QueryState,
}

/// What a `Query` holds, as plain values.
pub struct QueryView {
    pub tag: Seq<char>,
    pub rows: Seq<RowView>,
    pub state: QueryStateView,
}

/// The views of a sequence of rows.
pub open spec fn row_views(rows: Seq<RowData>) -> Seq<RowView> {
    rows.map_values(|r: RowData| r@)
}

impl View for Query {
    type V = QueryView;

    open spec fn view(&self) -> QueryView {
        QueryView { tag: self.tag@, rows: row_views(self.rows@), state: self.state@ }
    }
}

/// A query that has just been sent under `tag`.
pub open spec fn fresh_query(tag: Seq<char>) -> QueryView {
    QueryView { tag, rows: Seq::empty(), state: QueryStateView::Collecting }
}

/// The query after one more datagram. A query that is complete or has failed
/// takes nothing more in; one that collects keeps each row, and ends on the
/// end mark or on an error.
pub open spec fn query_step(q: QueryView, datagram: Option<ReplyView>) -> QueryView {
    if q.state != QueryStateView::Collecting {
        q
    } else {
        match reply_class(q.tag, datagram) {
            ReplyClass::Skip => q,
            ReplyClass::Row => QueryView { rows: q.rows.push(datagram->0.row), ..q },
            ReplyClass::End => QueryView { state: QueryStateView::Complete, ..q },
            ReplyClass::Failure(e) => QueryView { state: QueryStateView::Failed(e), ..q },
        }
    }
}

/// The query after the datagrams of `datagrams` from `from` on, in order.
pub open spec fn query_run(q: QueryView, datagrams: Seq<Option<ReplyView>>, from: int) -> QueryView
    decreases datagrams.len() - from,
{
    if from < 0 || from >= datagrams.len() {
        q
    } else {
        query_run(query_step(q, datagrams[from]), datagrams, from + 1)
    }
}

impl Query {
    /// A query that has just been sent under `tag`.
    pub fn new(tag: &str) -> (q: Query)
        ensures
            q@ == fresh_query(tag@),
    {
        let q = Query { tag: tag.to_owned(), rows: Vec::new(), state: QueryState::Collecting };
        assert(row_views(q.rows@) =~= Seq::<RowView>::empty());
        q
    }

    /// Whether the query still waits for datagrams.
    pub fn is_collecting(&self) -> (r: bool)
        ensures
            r == (self@.state == QueryStateView::Collecting),
    {
        match self.state {
            QueryState::Collecting => true,
            _ => false,
        }
    }

    /// Takes in one datagram: the decoded reply, or `None` where the
    /// datagram could not be decoded.
    pub fn accept(&mut self, datagram: Option<Reply>)
        ensures
            final(self)@ == query_step(old(self)@, opt_reply(datagram)),
    {
        if !self.is_collecting() {
            return ;
        }
        let reply = match datagram {
            Some(r) => r,
            None => { return ; },
        };
        if !str_equal(reply.tag.as_str(), self.tag.as_str()) {
            return ;
        }
        if str_equal(reply.kind.as_str(), "row") {
            let ghost before = self.rows@;
            self.rows.push(reply.row);
            assert(row_views(self.rows@) =~= row_views(before).push(reply.row@));
        } else if str_equal(reply.kind.as_str(), "end") {
            self.state = QueryState::Complete;
        } else if str_equal(reply.kind.as_str(), "error") {
            self.state = QueryState::Failed(
                match reply.error {
                    Some(e) => e,
                    None => String::from_str("error"),
                },
            );
        }
    }
}

/// The views of a sequence of datagrams.
pub open spec fn reply_views(datagrams: Seq<Option<Reply>>) -> Seq<Option<ReplyView>> {
    datagrams.map_values(|d: Option<Reply>| opt_reply(d))
}

/// Takes in the datagrams of `datagrams`, in order, and returns the query as
/// it then stands.
pub fn run_query(tag: &str, datagrams: Vec<Option<Reply>>) -> (q: Query)
    ensures
        q@ == query_run(fresh_query(tag@), reply_views(datagrams@), 0),
{
    let ghost views = reply_views(datagrams@);
    let mut q = Query::new(tag);
    let mut rest = datagrams;
    let mut taken: usize = 0;
    let total: usize = rest.len();
    while rest.len() > 0
        invariant
            taken + rest.len() == total,
            total == views.len(),
            reply_views(rest@) == views.subrange(taken as int, total as int),
            query_run(fresh_query(tag@), views, 0) == query_run(q@, views, taken as int),
        decreases rest.len(),
    {
        let ghost before = rest@;
        let d = rest.remove(0);
        proof {
            assert(reply_views(before)[0] == opt_reply(d));
            assert(views.subrange(taken as int, total as int)[0] == views[taken as int]);
            assert forall|j: int| 0 <= j < rest@.len() implies #[trigger] reply_views(rest@)[j]
                == views[taken + 1 + j] by {
                assert(rest@[j] == before[j + 1]);
                assert(reply_views(before)[j + 1] == opt_reply(before[j + 1]));
                assert(views.subrange(taken as int, total as int)[j + 1] == views[taken + 1 + j]);
            }
            assert(reply_views(rest@) =~= views.subrange(taken + 1, total as int));
        }
        q.accept(d);
        taken += 1;
    }
    q
}

/// A query that is complete or has failed stays as it is, whatever comes.
pub proof fn lemma_finished_query_stays(q: QueryView, datagrams: Seq<Option<ReplyView>>, from: int)
    requires
        q.state != QueryStateView::Collecting,
    ensures
        query_run(q, datagrams, from) == q,
    decreases datagrams.len() - from,
{
    if 0 <= from < datagrams.len() {
        lemma_finished_query_stays(q, datagrams, from + 1);
    }
}

/// A datagram that bears another tag, or that could not be decoded, changes
/// nothing.
pub proof fn lemma_stray_datagram_is_skipped(q: QueryView, datagram: Option<ReplyView>)
    requires
        datagram is None || datagram->0.tag != q.tag,
    ensures
        query_step(q, datagram) == q,
{
}

/// How long the next read of the socket may wait, `elapsed_ms` after the
/// request was sent: the read timeout, cut to what is left until the
/// deadline; `None` once the deadline has passed.
pub open spec fn next_wait(elapsed_ms: u64, deadline_ms: u64) -> Option<u64> {
    if elapsed_ms >= deadline_ms {
        None
    } else if deadline_ms - elapsed_ms < READ_TIMEOUT_MS {
        Some((deadline_ms - elapsed_ms) as u64)
    } else {
        Some(READ_TIMEOUT_MS)
    }
}

/// How long the next read of the socket may wait, if at all.
pub fn read_wait_ms(elapsed_ms: u64, deadline_ms: u64) -> (r: Option<u64>)
    ensures
        r == next_wait(elapsed_ms, deadline_ms),
{
    if elapsed_ms >= deadline_ms {
        None
    } else if deadline_ms - elapsed_ms < READ_TIMEOUT_MS {
        Some(deadline_ms - elapsed_ms)
    } else {
        Some(READ_TIMEOUT_MS)
    }
}

/// An error that speaks of authentication, in any mix of ASCII capitals and
/// small letters.
pub open spec fn is_auth_failure(error: Seq<char>) -> bool {
    contains_text(ascii_lowered(error), "auth"@)
}

/// Whether a failed query is asked once more with the default password: only
/// where the caller gave no password, the failure speaks of authentication,
/// and the default was not tried yet.
pub open spec fn retries_with_default(has_password: bool, retried: bool, error: Seq<char>) -> bool {
    !has_password && !retried && is_auth_failure(error)
}

/// Whether a failed query is asked once more with the default password.
pub fn should_retry_with_default(has_password: bool, retried: bool, error: &str) -> (r: bool)
    ensures
        r == retries_with_default(has_password, retried, error@),
{
    if has_password || retried {
        return false;
    }
    let c = chars_of(error);
    let l = lowered(c.as_slice());
    contains_str(l.as_slice(), "auth")
}

} // verus!
