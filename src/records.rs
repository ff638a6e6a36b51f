use vstd::prelude::*;

verus! {

/// The text of an optional string, as a sequence of characters.
pub open spec fn opt_view(o: Option<String>) -> Option<Seq<char>> {
    match o {
        Some(s) => Some(s@),
        None => None,
    }
}

/// What an operator's free-text answer becomes: absent when nothing was typed.
pub open spec fn text_to_opt(s: Seq<char>) -> Option<Seq<char>> {
    if s.len() == 0 {
        None
    } else {
        Some(s)
    }
}

/// Turns an operator's free-text answer into an optional value: the empty
/// answer means "absent", any other answer is kept verbatim.
pub fn optional_text(s: String) -> (r: Option<String>)
    ensures
        opt_view(r) == text_to_opt(s@),
{
    if s.as_str().is_empty() {
        None
    } else {
        Some(s)
    }
}

/// The networks a funding address can be recorded for.
#[derive(Clone, Copy, Debug, PartialEq, Eq, Structural)]
pub enum Chain {
    Ethereum,
    Optimism,
    Celo,
}

/// The chain at a zero-based position of the funding menu, if there is one.
pub open spec fn chain_at(index: int) -> Option<Chain> {
    if index == 0 {
        Some(Chain::Ethereum)
    } else if index == 1 {
        Some(Chain::Optimism)
    } else if index == 2 {
        Some(Chain::Celo)
    } else {
        None
    }
}

impl Chain {
    /// The chain chosen at a zero-based position of the funding menu
    /// ("Ethereum", "Optimism", "Celo", in that order).
    pub fn from_index(index: usize) -> (r: Option<Chain>)
        ensures
            r == chain_at(index as int),
    {
        if index == 0 {
            Some(Chain::Ethereum)
        } else if index == 1 {
            Some(Chain::Optimism)
        } else if index == 2 {
            Some(Chain::Celo)
        } else {
            None
        }
    }

    /// The label shown for this chain in the funding menu.
    pub fn label(&self) -> (r: &'static str)
        ensures
            r@ == chain_label(*self),
    {
        match self {
            Chain::Ethereum => "Ethereum",
            Chain::Optimism => "Optimism",
            Chain::Celo => "Celo",
        }
    }
}

pub open spec fn chain_label(c: Chain) -> Seq<char> {
    match c {
        Chain::Ethereum => "Ethereum"@,
        Chain::Optimism => "Optimism"@,
        Chain::Celo => "Celo"@,
    }
}

/// The funding menu's labels, in menu order.
pub fn chain_labels() -> (r: Vec<&'static str>)
    ensures
        r@.len() == 3,
        forall|i: int| 0 <= i < 3 ==> #[trigger] r@[i]@ == chain_label(chain_at(i)->Some_0),
{
    let v = vec![Chain::Ethereum.label(), Chain::Optimism.label(), Chain::Celo.label()];
    v
}

/// A funding profile: one optional wallet address per supported network.
#[derive(Clone, Debug, PartialEq, Eq)]
pub struct FundingInfo {
    pub ethereum_address: Option<String>,
    pub optimism_address: Option<String>,
    pub celo_address: Option<String>,
}

pub struct FundingView {
    pub ethereum: Option<Seq<char>>,
    pub optimism: Option<Seq<char>>,
    pub celo: Option<Seq<char>>,
}

impl View for FundingInfo {
    type V = FundingView;

    open spec fn view(&self) -> FundingView {
        FundingView {
            ethereum: opt_view(self.ethereum_address),
            optimism: opt_view(self.optimism_address),
            celo: opt_view(self.celo_address),
        }
    }
}

/// The funding profile with no address set.
pub open spec fn empty_funding() -> FundingView {
    FundingView { ethereum: None, optimism: None, celo: None }
}

/// A funding profile after the address of one chain was set: that field
/// holds the address, the other two are kept.
pub open spec fn funding_with(f: FundingView, chain: Chain, address: Seq<char>) -> FundingView {
    match chain {
        Chain::Ethereum => FundingView { ethereum: Some(address), ..f },
        Chain::Optimism => FundingView { optimism: Some(address), ..f },
        Chain::Celo => FundingView { celo: Some(address), ..f },
    }
}

impl FundingInfo {
    /// The profile with all three addresses absent.
    pub fn new() -> (r: FundingInfo)
        ensures
            r@ == empty_funding(),
    {
        FundingInfo { ethereum_address: None, optimism_address: None, celo_address: None }
    }

    /// Records `address` for `chain`, overwriting a prior address of that
    /// chain only.
    pub fn set_address(&mut self, chain: Chain, address: String)
        ensures
            final(self)@ == funding_with(old(self)@, chain, address@),
    {
        match chain {
            Chain::Ethereum => self.ethereum_address = Some(address),
            Chain::Optimism => self.optimism_address = Some(address),
            Chain::Celo => self.celo_address = Some(address),
        }
    }
}

impl Default for FundingInfo {
    fn default() -> (r: FundingInfo)
        ensures
            r@ == empty_funding(),
    {
        FundingInfo::new()
    }
}

/// One citation record.
#[derive(Clone, Debug, PartialEq, Eq)]
pub struct Paper {
    pub citation: String,
    pub doi: Option<String>,
    pub url: Option<String>,
}

pub struct PaperView {
    pub citation: Seq<char>,
    pub doi: Option<Seq<char>>,
    pub url: Option<Seq<char>>,
}

impl View for Paper {
    type V = PaperView;

    open spec fn view(&self) -> PaperView {
        PaperView { citation: self.citation@, doi: opt_view(self.doi), url: opt_view(self.url) }
    }
}

/// The record built from the answers of one `add`: the citation verbatim,
/// DOI and URL absent where the answer was empty.
pub open spec fn paper_from_answers(
    citation: Seq<char>,
    doi: Seq<char>,
    url: Seq<char>,
) -> PaperView {
    PaperView { citation, doi: text_to_opt(doi), url: text_to_opt(url) }
}

impl Paper {
    /// Builds a record from a citation and the operator's DOI and URL
    /// answers.
    pub fn from_answers(citation: String, doi: String, url: String) -> (r: Paper)
        ensures
            r@ == paper_from_answers(citation@, doi@, url@),
    {
        Paper { citation, doi: optional_text(doi), url: optional_text(url) }
    }
}

/// The list of citation records, in insertion order.
#[derive(Clone, Debug, PartialEq, Eq)]
pub struct ScienceConfig {
    pub papers: Vec<Paper>,
}

impl View for ScienceConfig {
    type V = Seq<PaperView>;

    open spec fn view(&self) -> Seq<PaperView> {
        self.papers@.map_values(|p: Paper| p@)
    }
}

impl ScienceConfig {
    /// The empty list.
    pub fn new() -> (r: ScienceConfig)
        ensures
            r@ == Seq::<PaperView>::empty(),
    {
        ScienceConfig { papers: Vec::new() }
    }

    /// Appends one record at the end.
    pub fn push_paper(&mut self, paper: Paper)
        ensures
            final(self)@ == old(self)@.push(paper@),
    {
        self.papers.push(paper);
        assert(final(self)@ =~= old(self)@.push(paper@));
    }

    /// Appends the record built from a citation and the operator's DOI and
    /// URL answers.
    pub fn add_paper(&mut self, citation: String, doi: String, url: String)
        ensures
            final(self)@ == old(self)@.push(paper_from_answers(citation@, doi@, url@)),
    {
        let paper = Paper::from_answers(citation, doi, url);
        self.push_paper(paper);
    }
}

impl Default for ScienceConfig {
    fn default() -> (r: ScienceConfig)
        ensures
            r@ == Seq::<PaperView>::empty(),
    {
        ScienceConfig::new()
    }
}

} // verus!
