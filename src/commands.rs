use vstd::prelude::*;

use crate::json::Json;
use crate::records::{
    chain_at, empty_funding, funding_with, paper_from_answers, Chain, FundingInfo, FundingView,
    PaperView, ScienceConfig,
};
use crate::schema::{
    funding_from_json, funding_to_json, is_funding_json, is_science_json, read_funding,
    read_science, science_from_json, science_to_json, SpmError,
};

verus! {

/// What an attempt to read a configuration file gave.
#[derive(Debug)]
pub enum Loaded {
    /// There is no such file.
    Absent,
    /// The file exists but could not be read.
    Unreadable,
    /// The file's content is not JSON.
    Malformed,
    /// The file's content, as a JSON tree.
    Parsed(Json),
}

/// The funding profile that a read gave: the empty profile for a missing
/// file, an error for an unreadable or misshapen one.
pub open spec fn loaded_funding(l: Loaded) -> Result<FundingView, SpmError> {
    match l {
        Loaded::Absent => Ok(empty_funding()),
        Loaded::Unreadable => Err(SpmError::Io),
        Loaded::Malformed => Err(SpmError::Parse),
        Loaded::Parsed(j) => match read_funding(j) {
            Some(f) => Ok(f),
            None => Err(SpmError::Parse),
        },
    }
}

/// The list of records that a read gave: the empty list for a missing file,
/// an error for an unreadable or misshapen one.
pub open spec fn loaded_science(l: Loaded) -> Result<Seq<PaperView>, SpmError> {
    match l {
        Loaded::Absent => Ok(Seq::empty()),
        Loaded::Unreadable => Err(SpmError::Io),
        Loaded::Malformed => Err(SpmError::Parse),
        Loaded::Parsed(j) => match read_science(j) {
            Some(ps) => Ok(ps),
            None => Err(SpmError::Parse),
        },
    }
}

/// The funding profile to work on, from what reading its file gave.
pub fn load_funding(l: &Loaded) -> (r: Result<FundingInfo, SpmError>)
    ensures
        match r {
            Ok(f) => loaded_funding(*l) == Ok::<FundingView, SpmError>(f@),
            Err(e) => loaded_funding(*l) == Err::<FundingView, SpmError>(e),
        },
{
    match l {
        Loaded::Absent => Ok(FundingInfo::new()),
        Loaded::Unreadable => Err(SpmError::Io),
        Loaded::Malformed => Err(SpmError::Parse),
        Loaded::Parsed(j) => funding_from_json(j),
    }
}

/// The list of records to work on, from what reading its file gave.
pub fn load_science(l: &Loaded) -> (r: Result<ScienceConfig, SpmError>)
    ensures
        match r {
            Ok(s) => loaded_science(*l) == Ok::<Seq<PaperView>, SpmError>(s@),
            Err(e) => loaded_science(*l) == Err::<Seq<PaperView>, SpmError>(e),
        },
{
    match l {
        Loaded::Absent => Ok(ScienceConfig::new()),
        Loaded::Unreadable => Err(SpmError::Io),
        Loaded::Malformed => Err(SpmError::Parse),
        Loaded::Parsed(j) => science_from_json(j),
    }
}

/// The files that `init` writes: for each, the document to write, or
/// nothing where the file is already there.
#[derive(Debug)]
pub struct InitPlan {
    pub funding: Option<Json>,
    pub science: Option<Json>,
}

/// `p` writes the empty funding document exactly when that file is missing,
/// and the empty papers document exactly when that file is missing.
pub open spec fn is_init_plan(funding_exists: bool, science_exists: bool, p: InitPlan) -> bool {
    &&& (p.funding is Some <==> !funding_exists)
    &&& (p.funding is Some ==> is_funding_json(p.funding->Some_0, empty_funding()))
    &&& (p.science is Some <==> !science_exists)
    &&& (p.science is Some ==> is_science_json(p.science->Some_0, Seq::empty()))
}

/// Decides what `init` writes, given which of the two files exist.
pub fn init_plan(funding_exists: bool, science_exists: bool) -> (r: InitPlan)
    ensures
        is_init_plan(funding_exists, science_exists, r),
{
    let funding = if funding_exists {
        None
    } else {
        Some(funding_to_json(&FundingInfo::new()))
    };
    let science = if science_exists {
        None
    } else {
        Some(science_to_json(&ScienceConfig::new()))
    };
    InitPlan { funding, science }
}

/// A file after a write that may not happen: the written document if there
/// is one, else the file as it was.
pub open spec fn after_write(file: Option<Json>, write: Option<Json>) -> Option<Json> {
    match write {
        Some(j) => Some(j),
        None => file,
    }
}

/// A second `init` right after a first writes nothing, so both files keep
/// what the first left; and neither run touches a file that was already
/// there.
pub proof fn lemma_init_idempotent(
    funding: Option<Json>,
    science: Option<Json>,
    first: InitPlan,
    second: InitPlan,
)
    requires
        is_init_plan(funding is Some, science is Some, first),
        is_init_plan(
            after_write(funding, first.funding) is Some,
            after_write(science, first.science) is Some,
            second,
        ),
    ensures
        second.funding is None,
        second.science is None,
        after_write(after_write(funding, first.funding), second.funding) == after_write(
            funding,
            first.funding,
        ),
        after_write(after_write(science, first.science), second.science) == after_write(
            science,
            first.science,
        ),
        funding is Some ==> after_write(funding, first.funding) == funding,
        science is Some ==> after_write(science, first.science) == science,
{
}

/// Sets the address of the chain at menu position `selection`, leaving the
/// other two addresses as they were.
pub fn apply_funding_choice(funding: &mut FundingInfo, selection: usize, address: String)
    requires
        selection < 3,
    ensures
        final(funding)@ == funding_with(old(funding)@, chain_at(selection as int)->Some_0, address@),
{
    match Chain::from_index(selection) {
        Some(chain) => funding.set_address(chain, address),
        None => {},
    }
}

/// The records after a run of `add` commands, one per triple of answers
/// (citation, DOI, URL), each appended at the end.
pub open spec fn papers_after_adds(
    start: Seq<PaperView>,
    answers: Seq<(Seq<char>, Seq<char>, Seq<char>)>,
) -> Seq<PaperView>
    decreases answers.len(),
{
    if answers.len() == 0 {
        start
    } else {
        let a = answers.last();
        papers_after_adds(start, answers.drop_last()).push(paper_from_answers(a.0, a.1, a.2))
    }
}

/// A run of `add` commands keeps the records that were there and appends
/// exactly one record per command, in command order, each with its citation
/// verbatim.
pub proof fn lemma_adds_append_in_order(
    start: Seq<PaperView>,
    answers: Seq<(Seq<char>, Seq<char>, Seq<char>)>,
)
    ensures
        papers_after_adds(start, answers).len() == start.len() + answers.len(),
        papers_after_adds(start, answers).subrange(0, start.len() as int) == start,
        forall|k: int|
            0 <= k < answers.len() ==> #[trigger] papers_after_adds(start, answers)[start.len()
                + k] == paper_from_answers(answers[k].0, answers[k].1, answers[k].2),
        forall|k: int|
            0 <= k < answers.len() ==> (#[trigger] papers_after_adds(start, answers)[start.len()
                + k]).citation == answers[k].0,
    decreases answers.len(),
{
    let r = papers_after_adds(start, answers);
    if answers.len() == 0 {
        assert(r.subrange(0, start.len() as int) =~= start);
    } else {
        let prev = answers.drop_last();
        lemma_adds_append_in_order(start, prev);
        let p = papers_after_adds(start, prev);
        assert(r.subrange(0, start.len() as int) =~= p.subrange(0, start.len() as int));
        assert forall|k: int| 0 <= k < answers.len() implies #[trigger] r[start.len() + k]
            == paper_from_answers(answers[k].0, answers[k].1, answers[k].2) by {
            if k < prev.len() {
                assert(r[start.len() + k] == p[start.len() + k]);
                assert(prev[k] == answers[k]);
            }
        }
    }
}

} // verus!
