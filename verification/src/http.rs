//! Verified request shaping for the HTTP endpoints: the entity request
//! bodies and the endpoint URLs, including the timed variants.  The
//! transport that actually sends them is the caller's, outside this
//! crate; it receives finished strings from here.

use crate::text::{join_strings, join_with, starts_with, starts_with_char};
use crate::types::http::{serialize_time_histories, spec_time_histories, Order, TimeHistory, Timestamp};
use vstd::prelude::*;

verus! {

/// Failures of the transport layer around this crate: a response that
/// does not parse, or a request that could not be made.
#[derive(Debug, Clone)]
pub enum Error {
    ParseError(String),
    RequestError(String),
}

impl Error {
    /// The text carried by the error.
    pub open spec fn spec_message(self) -> Seq<char> {
        match self {
            Error::ParseError(s) => s@,
            Error::RequestError(s) => s@,
        }
    }

    /// The text carried by the error.
    pub fn message(&self) -> (r: String)
        ensures
            r@ == self.spec_message(),
    {
        match self {
            Error::ParseError(s) => s.clone(),
            Error::RequestError(s) => s.clone(),
        }
    }
}

/// The request body that asks an entity endpoint about `id`.
pub open spec fn spec_eid_body(id: Seq<char>) -> Seq<char> {
    "{:eid "@ + id + "}"@
}

/// Builds the request body that asks an entity endpoint about `id`,
/// for the endpoints that accept any identifier text.
pub fn eid_body(id: &str) -> (r: String)
    ensures
        r@ == spec_eid_body(id@),
{
    let mut s = String::new();
    s.append("{:eid ");
    s.append(id);
    s.append("}");
    proof {
        assert(s@ =~= spec_eid_body(id@));
    }
    s
}

/// Builds the request body for the entity endpoint: the body for a
/// keyword-shaped identifier, nothing for any other text, which the
/// caller reports as a bad request without a round-trip.
pub fn entity_body(id: &str) -> (r: Option<String>)
    ensures
        starts_with(id@, ':') ==> (r matches Some(b) && b@ == spec_eid_body(id@)),
        !starts_with(id@, ':') ==> r is None,
{
    if starts_with_char(id, ':') {
        Some(eid_body(id))
    } else {
        None
    }
}

/// `s` wrapped in double quotes, as a content hash is written inside
/// the documents request body.
pub open spec fn spec_quoted(s: Seq<char>) -> Seq<char> {
    "\""@ + s + "\""@
}

/// The request body that asks the documents endpoint for the given
/// content hashes: an EDN set of the hashes as quoted strings.
pub open spec fn spec_documents_body(hashes: Seq<Seq<char>>) -> Seq<char> {
    "#{"@ + join_with(quoted_each(hashes), ", "@) + "}"@
}

/// Each element of `hashes`, quoted.
pub open spec fn quoted_each(hashes: Seq<Seq<char>>) -> Seq<Seq<char>> {
    Seq::new(hashes.len(), |i: int| spec_quoted(hashes[i]))
}

/// Builds the request body that asks the documents endpoint for the
/// given content hashes.
pub fn documents_body(content_hashes: &Vec<String>) -> (r: String)
    ensures
        r@ == spec_documents_body(content_hashes.deep_view()),
{
    let n = content_hashes.len();
    let mut parts: Vec<String> = Vec::new();
    let mut i: usize = 0;
    while i < n
        invariant
            n == content_hashes@.len(),
            0 <= i <= n,
            parts.deep_view() =~= quoted_each(content_hashes.deep_view()).subrange(0, i as int),
        decreases n - i,
    {
        let mut quoted = String::new();
        quoted.append("\"");
        quoted.append(content_hashes[i].as_str());
        quoted.append("\"");
        let ghost prev = parts.deep_view();
        parts.push(quoted);
        proof {
            assert(parts.deep_view() =~= prev.push(
                spec_quoted(content_hashes.deep_view()[i as int]),
            ));
            assert(parts.deep_view() =~= quoted_each(content_hashes.deep_view()).subrange(
                0,
                i + 1,
            ));
        }
        i += 1;
    }
    proof {
        assert(quoted_each(content_hashes.deep_view()).subrange(0, n as int) =~= quoted_each(
            content_hashes.deep_view(),
        ));
    }
    let joined = join_strings(&parts, ", ");
    let mut s = String::new();
    s.append("#{");
    s.append(joined.as_str());
    s.append("}");
    proof {
        assert(s@ =~= spec_documents_body(content_hashes.deep_view()));
    }
    s
}

/// The URL that fetches the current document under a content hash.
pub open spec fn spec_document_url(uri: Seq<char>, content_hash: Seq<char>) -> Seq<char> {
    uri + "/document/"@ + content_hash
}

/// Builds the URL that fetches the current document under
/// `content_hash`.
pub fn document_url(uri: &str, content_hash: &str) -> (r: String)
    ensures
        r@ == spec_document_url(uri@, content_hash@),
{
    let mut s = String::new();
    s.append(uri);
    s.append("/document/");
    s.append(content_hash);
    proof {
        assert(s@ =~= spec_document_url(uri@, content_hash@));
    }
    s
}

/// The URL of `endpoint` under `url`, with a query parameter for each
/// present time: the transaction time first, the valid time second.
pub open spec fn spec_timed_url(
    url: Seq<char>,
    endpoint: Seq<char>,
    transaction_time: Option<Timestamp>,
    valid_time: Option<Timestamp>,
) -> Seq<char> {
    url + "/"@ + endpoint + (match (transaction_time, valid_time) {
        (None, None) => Seq::<char>::empty(),
        (Some(tx), None) => "?transaction-time="@ + tx.spec_render(),
        (None, Some(valid)) => "?valid-time="@ + valid.spec_render(),
        (Some(tx), Some(valid)) => "?transaction-time="@ + tx.spec_render() + "&valid-time="@
            + valid.spec_render(),
    })
}

/// Builds the URL of `endpoint` under `url` with the optional
/// transaction-time and valid-time query parameters.
pub fn build_timed_url(
    url: String,
    endpoint: &str,
    transaction_time: Option<Timestamp>,
    valid_time: Option<Timestamp>,
) -> (r: String)
    requires
        transaction_time matches Some(t) ==> t.wf(),
        valid_time matches Some(t) ==> t.wf(),
    ensures
        r@ == spec_timed_url(url@, endpoint@, transaction_time, valid_time),
{
    let ghost url_view = url@;
    let mut s = url;
    s.append("/");
    s.append(endpoint);
    match (&transaction_time, &valid_time) {
        (None, None) => {},
        (Some(tx), None) => {
            s.append("?transaction-time=");
            tx.push_render(&mut s);
        },
        (None, Some(valid)) => {
            s.append("?valid-time=");
            valid.push_render(&mut s);
        },
        (Some(tx), Some(valid)) => {
            s.append("?transaction-time=");
            tx.push_render(&mut s);
            s.append("&valid-time=");
            valid.push_render(&mut s);
        },
    }
    proof {
        assert(s@ =~= spec_timed_url(url_view, endpoint@, transaction_time, valid_time));
    }
    s
}

/// The text of `b` as a query-parameter value.
pub open spec fn spec_bool_text(b: bool) -> Seq<char> {
    if b {
        "true"@
    } else {
        "false"@
    }
}

/// The URL that asks for an entity's history under `uri`, ordered as
/// `order` asks and with or without the documents.
pub open spec fn spec_history_url(
    uri: Seq<char>,
    hash: Seq<char>,
    order: Order,
    with_docs: bool,
) -> Seq<char> {
    uri + "/entity-history/"@ + hash + "?sort-order="@ + order.spec_serialize() + "&with-docs="@
        + spec_bool_text(with_docs)
}

/// Builds the entity-history URL for the entity whose content hash is
/// `hash`.
pub fn entity_history_url(uri: &str, hash: &str, order: Order, with_docs: bool) -> (r: String)
    ensures
        r@ == spec_history_url(uri@, hash@, order, with_docs),
{
    let mut s = String::new();
    s.append(uri);
    s.append("/entity-history/");
    s.append(hash);
    s.append("?sort-order=");
    let o = order.serialize();
    s.append(o.as_str());
    s.append("&with-docs=");
    if with_docs {
        s.append("true");
    } else {
        s.append("false");
    }
    proof {
        assert(s@ =~= spec_history_url(uri@, hash@, order, with_docs));
    }
    s
}

/// Builds the entity-history URL with the valid-time and
/// transaction-time ranges of `time` appended as query parameters.
pub fn entity_history_timed_url(
    uri: &str,
    hash: &str,
    order: Order,
    with_docs: bool,
    time: &Vec<TimeHistory>,
) -> (r: String)
    requires
        forall|i: int| 0 <= i < time@.len() ==> (#[trigger] time@[i]).wf(),
    ensures
        r@ == spec_history_url(uri@, hash@, order, with_docs) + spec_time_histories(time@),
{
    let mut s = entity_history_url(uri, hash, order, with_docs);
    let t = serialize_time_histories(time);
    s.append(t.as_str());
    s
}

} // verus!
