use vstd::prelude::*;

use crate::json::{lemma_lookup_at, lookup, lookup_member, Json};
use crate::records::{
    opt_view, FundingInfo, FundingView, Paper, PaperView, ScienceConfig,
};

verus! {

/// Why a command could not complete.
#[derive(Clone, Copy, Debug, PartialEq, Eq, Structural)]
pub enum SpmError {
    /// A file could not be read or written.
    Io,
    /// A file's content is not JSON of the expected shape.
    Parse,
    /// The operator aborted a prompt.
    PromptCancelled,
}

impl SpmError {
    /// A short human-readable description.
    pub fn message(&self) -> (r: &'static str) {
        match self {
            SpmError::Io => "file could not be read or written",
            SpmError::Parse => "file content is not valid JSON of the expected shape",
            SpmError::PromptCancelled => "prompt was cancelled",
        }
    }
}

pub open spec fn key_ethereum() -> Seq<char> {
    "ethereum_address"@
}

pub open spec fn key_optimism() -> Seq<char> {
    "optimism_address"@
}

pub open spec fn key_celo() -> Seq<char> {
    "celo_address"@
}

pub open spec fn key_papers() -> Seq<char> {
    "papers"@
}

pub open spec fn key_citation() -> Seq<char> {
    "citation"@
}

pub open spec fn key_doi() -> Seq<char> {
    "doi"@
}

pub open spec fn key_url() -> Seq<char> {
    "url"@
}

// ---- the documents as written ----

/// `j` is the JSON of an optional text: `null` when absent, else the string.
pub open spec fn is_opt_text_json(j: Json, o: Option<Seq<char>>) -> bool {
    match o {
        None => j is Null,
        Some(s) => j is Str && j->Str_0@ == s,
    }
}

/// Member `i` of `fields` is named `key` and holds the optional text `o`.
pub open spec fn is_opt_member(
    fields: Seq<(String, Json)>,
    i: int,
    key: Seq<char>,
    o: Option<Seq<char>>,
) -> bool {
    fields[i].0@ == key && is_opt_text_json(fields[i].1, o)
}

/// `j` is the funding document of `f`: an object with the three address
/// members in a fixed order, absent ones written as `null`.
pub open spec fn is_funding_json(j: Json, f: FundingView) -> bool {
    &&& j is Object
    &&& j->Object_0@.len() == 3
    &&& is_opt_member(j->Object_0@, 0, key_ethereum(), f.ethereum)
    &&& is_opt_member(j->Object_0@, 1, key_optimism(), f.optimism)
    &&& is_opt_member(j->Object_0@, 2, key_celo(), f.celo)
}

/// `j` is the document of one citation record: `citation`, `doi`, `url`.
pub open spec fn is_paper_json(j: Json, p: PaperView) -> bool {
    &&& j is Object
    &&& j->Object_0@.len() == 3
    &&& j->Object_0@[0].0@ == key_citation()
    &&& j->Object_0@[0].1 is Str
    &&& j->Object_0@[0].1->Str_0@ == p.citation
    &&& is_opt_member(j->Object_0@, 1, key_doi(), p.doi)
    &&& is_opt_member(j->Object_0@, 2, key_url(), p.url)
}

/// `j` is the papers document of `ps`: an object whose one member `papers`
/// is the array of the records, in order.
pub open spec fn is_science_json(j: Json, ps: Seq<PaperView>) -> bool {
    &&& j is Object
    &&& j->Object_0@.len() == 1
    &&& j->Object_0@[0].0@ == key_papers()
    &&& j->Object_0@[0].1 is Array
    &&& j->Object_0@[0].1->Array_0@.len() == ps.len()
    &&& forall|i: int|
        0 <= i < ps.len() ==> is_paper_json(
            #[trigger] j->Object_0@[0].1->Array_0@[i],
            ps[i],
        )
}

// ---- the documents as read ----

/// What an optional text reads as: `null` is absent, a string is present,
/// anything else does not fit.
pub open spec fn read_opt_text(j: Json) -> Option<Option<Seq<char>>> {
    match j {
        Json::Null => Some(None),
        Json::Str(s) => Some(Some(s@)),
        _ => None,
    }
}

/// An optional member: a missing one reads as absent.
pub open spec fn read_opt_member(fields: Seq<(String, Json)>, key: Seq<char>) -> Option<
    Option<Seq<char>>,
> {
    match lookup(fields, key) {
        None => Some(None),
        Some(v) => read_opt_text(v),
    }
}

/// The funding profile that a document holds, if it has the expected shape.
/// Members with other names are ignored.
pub open spec fn read_funding(j: Json) -> Option<FundingView> {
    match j {
        Json::Object(fields) => {
            let e = read_opt_member(fields@, key_ethereum());
            let o = read_opt_member(fields@, key_optimism());
            let c = read_opt_member(fields@, key_celo());
            if e is Some && o is Some && c is Some {
                Some(FundingView { ethereum: e->Some_0, optimism: o->Some_0, celo: c->Some_0 })
            } else {
                None
            }
        },
        _ => None,
    }
}

/// The citation record that a document holds, if it has the expected shape:
/// `citation` must be a string, `doi` and `url` are optional.
pub open spec fn read_paper(j: Json) -> Option<PaperView> {
    match j {
        Json::Object(fields) => {
            let c = lookup(fields@, key_citation());
            let d = read_opt_member(fields@, key_doi());
            let u = read_opt_member(fields@, key_url());
            if c is Some && c->Some_0 is Str && d is Some && u is Some {
                Some(
                    PaperView { citation: c->Some_0->Str_0@, doi: d->Some_0, url: u->Some_0 },
                )
            } else {
                None
            }
        },
        _ => None,
    }
}

/// The records of an array whose every item is a citation record.
pub open spec fn read_papers_array(items: Seq<Json>) -> Option<Seq<PaperView>> {
    if forall|i: int| 0 <= i < items.len() ==> (#[trigger] read_paper(items[i])) is Some {
        Some(Seq::new(items.len(), |i: int| read_paper(items[i])->Some_0))
    } else {
        None
    }
}

/// The records that a papers document holds, if it has the expected shape:
/// an object whose member `papers` is an array of citation records.
pub open spec fn read_science(j: Json) -> Option<Seq<PaperView>> {
    match j {
        Json::Object(fields) => match lookup(fields@, key_papers()) {
            Some(Json::Array(items)) => read_papers_array(items@),
            _ => None,
        },
        _ => None,
    }
}

// ---- encoding ----

fn opt_text_to_json(o: &Option<String>) -> (r: Json)
    ensures
        is_opt_text_json(r, opt_view(*o)),
{
    match o {
        Some(s) => Json::Str(s.clone()),
        None => Json::Null,
    }
}

/// The funding document of a profile.
pub fn funding_to_json(f: &FundingInfo) -> (r: Json)
    ensures
        is_funding_json(r, f@),
{
    let mut fields: Vec<(String, Json)> = Vec::new();
    fields.push(("ethereum_address".to_owned(), opt_text_to_json(&f.ethereum_address)));
    fields.push(("optimism_address".to_owned(), opt_text_to_json(&f.optimism_address)));
    fields.push(("celo_address".to_owned(), opt_text_to_json(&f.celo_address)));
    Json::Object(fields)
}

/// The document of one citation record.
pub fn paper_to_json(p: &Paper) -> (r: Json)
    ensures
        is_paper_json(r, p@),
{
    let mut fields: Vec<(String, Json)> = Vec::new();
    fields.push(("citation".to_owned(), Json::Str(p.citation.clone())));
    fields.push(("doi".to_owned(), opt_text_to_json(&p.doi)));
    fields.push(("url".to_owned(), opt_text_to_json(&p.url)));
    Json::Object(fields)
}

/// The papers document of a list of records.
pub fn science_to_json(s: &ScienceConfig) -> (r: Json)
    ensures
        is_science_json(r, s@),
{
    let mut items: Vec<Json> = Vec::new();
    let mut i: usize = 0;
    while i < s.papers.len()
        invariant
            i <= s.papers@.len(),
            items@.len() == i,
            forall|k: int| 0 <= k < i ==> is_paper_json(#[trigger] items@[k], s@[k]),
        decreases s.papers@.len() - i,
    {
        let item = paper_to_json(&s.papers[i]);
        items.push(item);
        i = i + 1;
    }
    let mut fields: Vec<(String, Json)> = Vec::new();
    fields.push(("papers".to_owned(), Json::Array(items)));
    Json::Object(fields)
}

// ---- decoding ----

fn opt_text_from_json(j: &Json) -> (r: Result<Option<String>, SpmError>)
    ensures
        match r {
            Ok(o) => read_opt_text(*j) == Some(opt_view(o)),
            Err(e) => read_opt_text(*j) is None && e == SpmError::Parse,
        },
{
    match j {
        Json::Null => Ok(None),
        Json::Str(s) => Ok(Some(s.clone())),
        _ => Err(SpmError::Parse),
    }
}

fn opt_member(fields: &Vec<(String, Json)>, key: &str) -> (r: Result<Option<String>, SpmError>)
    ensures
        match r {
            Ok(o) => read_opt_member(fields@, key@) == Some(opt_view(o)),
            Err(e) => read_opt_member(fields@, key@) is None && e == SpmError::Parse,
        },
{
    match lookup_member(fields, key) {
        None => Ok(None),
        Some(v) => opt_text_from_json(v),
    }
}

/// Reads a funding profile from its document; `Parse` when the document
/// does not have the expected shape.
pub fn funding_from_json(j: &Json) -> (r: Result<FundingInfo, SpmError>)
    ensures
        match r {
            Ok(f) => read_funding(*j) == Some(f@),
            Err(e) => read_funding(*j) is None && e == SpmError::Parse,
        },
{
    match j {
        Json::Object(fields) => {
            let e = opt_member(fields, "ethereum_address");
            let o = opt_member(fields, "optimism_address");
            let c = opt_member(fields, "celo_address");
            match (e, o, c) {
                (Ok(e), Ok(o), Ok(c)) => Ok(
                    FundingInfo { ethereum_address: e, optimism_address: o, celo_address: c },
                ),
                _ => Err(SpmError::Parse),
            }
        },
        _ => Err(SpmError::Parse),
    }
}

/// Reads one citation record from its document; `Parse` when the document
/// does not have the expected shape.
pub fn paper_from_json(j: &Json) -> (r: Result<Paper, SpmError>)
    ensures
        match r {
            Ok(p) => read_paper(*j) == Some(p@),
            Err(e) => read_paper(*j) is None && e == SpmError::Parse,
        },
{
    match j {
        Json::Object(fields) => {
            let c = lookup_member(fields, "citation");
            let d = opt_member(fields, "doi");
            let u = opt_member(fields, "url");
            match (c, d, u) {
                (Some(Json::Str(c)), Ok(d), Ok(u)) => Ok(
                    Paper { citation: c.clone(), doi: d, url: u },
                ),
                _ => Err(SpmError::Parse),
            }
        },
        _ => Err(SpmError::Parse),
    }
}

/// Reads a list of records from a papers document; `Parse` when the
/// document does not have the expected shape.
pub fn science_from_json(j: &Json) -> (r: Result<ScienceConfig, SpmError>)
    ensures
        match r {
            Ok(s) => read_science(*j) == Some(s@),
            Err(e) => read_science(*j) is None && e == SpmError::Parse,
        },
{
    let fields = match j {
        Json::Object(fields) => fields,
        _ => {
            return Err(SpmError::Parse);
        },
    };
    let items = match lookup_member(fields, "papers") {
        Some(Json::Array(items)) => items,
        _ => {
            return Err(SpmError::Parse);
        },
    };
    let mut papers: Vec<Paper> = Vec::new();
    let mut i: usize = 0;
    while i < items.len()
        invariant
            *j == Json::Object(*fields),
            lookup(fields@, key_papers()) == Some(Json::Array(*items)),
            i <= items@.len(),
            papers@.len() == i,
            forall|k: int| 0 <= k < i ==> read_paper(#[trigger] items@[k]) == Some(papers@[k]@),
        decreases items@.len() - i,
    {
        match paper_from_json(&items[i]) {
            Ok(p) => papers.push(p),
            Err(e) => {
                assert(read_paper(items@[i as int]) is None);
                assert(read_papers_array(items@) is None);
                return Err(e);
            },
        }
        i = i + 1;
    }
    let s = ScienceConfig { papers };
    assert(s@ =~= Seq::new(items@.len(), |k: int| read_paper(items@[k])->Some_0));
    Ok(s)
}

// ---- reading back what was written ----

proof fn lemma_keys_distinct()
    ensures
        key_ethereum() != key_optimism(),
        key_ethereum() != key_celo(),
        key_optimism() != key_celo(),
        key_citation() != key_doi(),
        key_citation() != key_url(),
        key_doi() != key_url(),
{
    reveal_strlit("ethereum_address");
    reveal_strlit("optimism_address");
    reveal_strlit("celo_address");
    reveal_strlit("citation");
    reveal_strlit("doi");
    reveal_strlit("url");
    assert(key_ethereum()[0] != key_optimism()[0]);
    assert(key_ethereum()[0] != key_celo()[0]);
    assert(key_optimism()[0] != key_celo()[0]);
    assert(key_citation()[0] != key_doi()[0]);
    assert(key_citation()[0] != key_url()[0]);
    assert(key_doi()[0] != key_url()[0]);
}

/// Reading a funding document gives back the profile it was written from.
pub proof fn lemma_funding_round_trip(j: Json, f: FundingView)
    requires
        is_funding_json(j, f),
    ensures
        read_funding(j) == Some(f),
{
    let fields = j->Object_0@;
    lemma_keys_distinct();
    lemma_lookup_at(fields, key_ethereum(), 0);
    lemma_lookup_at(fields, key_optimism(), 1);
    lemma_lookup_at(fields, key_celo(), 2);
}

/// Reading the document of a citation record gives back that record.
pub proof fn lemma_paper_round_trip(j: Json, p: PaperView)
    requires
        is_paper_json(j, p),
    ensures
        read_paper(j) == Some(p),
{
    let fields = j->Object_0@;
    lemma_keys_distinct();
    lemma_lookup_at(fields, key_citation(), 0);
    lemma_lookup_at(fields, key_doi(), 1);
    lemma_lookup_at(fields, key_url(), 2);
}

/// Reading a papers document gives back the records it was written from,
/// in the same order.
pub proof fn lemma_science_round_trip(j: Json, ps: Seq<PaperView>)
    requires
        is_science_json(j, ps),
    ensures
        read_science(j) == Some(ps),
{
    let fields = j->Object_0@;
    let items = fields[0].1->Array_0@;
    lemma_lookup_at(fields, key_papers(), 0);
    assert forall|i: int| 0 <= i < items.len() implies (#[trigger] read_paper(items[i])) == Some(
        ps[i],
    ) by {
        lemma_paper_round_trip(items[i], ps[i]);
    }
    assert(Seq::new(items.len(), |i: int| read_paper(items[i])->Some_0) =~= ps);
}

} // verus!
