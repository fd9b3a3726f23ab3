//! The value types shared by both builders: the normalized entity
//! identifier and the health-check record that the transport layer fills.

pub mod error;
pub mod http;
pub mod query;

use crate::text::{
    contains_str, dash_spaces, has_substring, lemma_remove_char_absent,
    lemma_remove_char_distributes, lemma_remove_char_free, remove_char, remove_char_str,
    replace_char,
};
use vstd::prelude::*;

verus! {

/// What rendering a bare identifier token produces: exactly one marker
/// character prepended, every embedded space replaced by a dash.
pub open spec fn render_id(s: Seq<char>) -> Seq<char> {
    seq![':'] + replace_char(s, ' ', '-')
}

/// Id to use as a reference to a document: a keyword-shaped token that
/// serves as both a transaction primary key and a query/match reference.
///
/// The inner token is stored without its leading marker character;
/// [`CruxId::serialize`] puts exactly one back.
#[derive(Debug, Clone, PartialEq, PartialOrd, Eq, Ord)]
pub struct CruxId(pub String);

impl CruxId {
    /// Normalizes a free-form identifier: any marker characters in the
    /// input are stripped, so normalizing is idempotent.
    /// `CruxId::new("Jorge da Silva")` serializes as `:Jorge-da-Silva`.
    pub fn new(id: &str) -> (r: Self)
        ensures
            r.0@ == remove_char(id@, ':'),
    {
        CruxId(remove_char_str(id, ':'))
    }

    /// The keyword-shaped wire form of the identifier: the marker
    /// character followed by the stored token with spaces turned into
    /// dashes.
    pub fn serialize(self) -> (r: String)
        ensures
            r@ == render_id(self.0@),
    {
        let mut r = String::new();
        r.append(":");
        proof {
            reveal_strlit(":");
            assert(r@ =~= seq![':']);
        }
        let dashed = dash_spaces(self.0.as_str());
        r.append(dashed.as_str());
        r
    }
}

/// Re-normalizing a rendered identifier and rendering again yields the
/// rendered form unchanged: for any raw input, with `n` the token
/// [`CruxId::new`] stores and `r` the wire form [`CruxId::serialize`]
/// emits, normalizing `r` and serializing the result gives `r` back.
pub proof fn lemma_normalize_render_idempotent(raw: Seq<char>)
    ensures
        render_id(remove_char(render_id(remove_char(raw, ':')), ':')) == render_id(
            remove_char(raw, ':'),
        ),
{
    let t = remove_char(raw, ':');
    let dashed = replace_char(t, ' ', '-');
    lemma_remove_char_free(raw, ':');
    assert(forall|i: int| 0 <= i < dashed.len() ==> dashed[i] != ':');
    assert(render_id(t) =~= seq![':'] + dashed);
    lemma_remove_char_distributes(seq![':'], dashed, ':');
    assert(seq![':'].len() == 1 && seq![':'].last() == ':');
    assert(seq![':'].drop_last() =~= Seq::<char>::empty());
    assert(remove_char(Seq::<char>::empty(), ':') =~= Seq::<char>::empty());
    assert(remove_char(seq![':'], ':') =~= Seq::<char>::empty());
    lemma_remove_char_absent(dashed, ':');
    assert(remove_char(render_id(t), ':') =~= dashed);
    assert(replace_char(dashed, ' ', '-') =~= dashed);
}

/// Definition for the response of a `GET` at the `state` endpoint: the
/// health-check record the database reports.
#[derive(Debug, Clone, PartialEq)]
pub struct StateResponse {
    pub index___index_version: usize,
    pub doc_log___consumer_state: Option<String>,
    pub tx_log___consumer_state: Option<String>,
    pub kv___kv_store: String,
    pub kv___estimate_num_keys: usize,
    pub kv___size: usize,
}

impl StateResponse {
    /// A fixed example record, useful as a comparison value when a
    /// parsed response must be checked against known state.
    pub fn default() -> (r: Self)
        ensures
            r.index___index_version == 5,
            r.doc_log___consumer_state is None,
            r.tx_log___consumer_state is None,
            r.kv___kv_store@ == "crux.kv.rocksdb.RocksKv"@,
            r.kv___estimate_num_keys == 34,
            r.kv___size == 88489,
    {
        StateResponse {
            index___index_version: 5,
            doc_log___consumer_state: None,
            tx_log___consumer_state: None,
            kv___kv_store: "crux.kv.rocksdb.RocksKv".to_owned(),
            kv___estimate_num_keys: 34,
            kv___size: 88489,
        }
    }
}

/// `None` for a field whose text marks the EDN nil value, the text
/// itself otherwise.
pub fn nullable_str(s: String) -> (r: Option<String>)
    ensures
        r == if has_substring(s@, "nil"@) {
            Option::<String>::None
        } else {
            Option::<String>::Some(s)
        },
{
    if contains_str(s.as_str(), "nil") {
        None
    } else {
        Some(s)
    }
}

} // verus!
