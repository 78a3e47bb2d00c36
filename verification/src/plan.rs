//! What a run does, decided from its options before anything is fetched.

use crate::job_offers_scraper::board_order;
use crate::job_offers_scraper::boards;
use crate::job_offers_scraper::is_available_tech;
use crate::job_offers_scraper::page_address;
use crate::job_offers_scraper::request_url;
use crate::job_offers_scraper::tech_available;
use crate::job_offers_scraper::Source;
use vstd::prelude::*;

verus! {

/// Why a run was refused.
#[derive(Clone, Copy, Debug, PartialEq, Eq, Structural)]
pub enum UsageError {
    /// The technology asked for is not one that offers can be asked for by.
    UnavailableTech,
    /// Neither the CSV file nor the window was asked for.
    NoOutput,
}

impl UsageError {
    /// The diagnostic for a refusal.
    pub open spec fn text(self) -> Seq<char> {
        match self {
            UsageError::UnavailableTech => "Unavailable tech"@,
            UsageError::NoOutput => "Run with --csv or --gui option"@,
        }
    }

    /// The diagnostic for this refusal.
    pub fn message(&self) -> (message: &'static str)
        ensures
            message@ == self.text(),
    {
        match *self {
            UsageError::UnavailableTech => "Unavailable tech",
            UsageError::NoOutput => "Run with --csv or --gui option",
        }
    }
}

/// One page to fetch.
#[derive(Debug, PartialEq, Eq)]
pub struct Request {
    pub source: Source,
    pub url: String,
}

/// What a run does: the pages it fetches, in their order, and where the
/// offers go.
#[derive(Debug, PartialEq, Eq)]
pub struct RunPlan {
    pub csv: bool,
    pub gui: bool,
    pub requests: Vec<Request>,
}

/// The reason to refuse a run with these options: an unavailable technology
/// first, then the lack of any output; `None` where the run is accepted.
pub open spec fn refusal(csv: bool, gui: bool, tech: Seq<char>) -> Option<UsageError> {
    if !tech_available(tech) {
        Some(UsageError::UnavailableTech)
    } else if !csv && !gui {
        Some(UsageError::NoOutput)
    } else {
        None
    }
}

/// Decides what a run does. A run is refused, with no page to fetch, where the
/// technology is unavailable or no output was asked for; an accepted run
/// fetches one page from each board, in the order of the boards.
pub fn plan_run(csv: bool, gui: bool, tech: &str) -> (outcome: Result<RunPlan, UsageError>)
    ensures
        match outcome {
            Ok(plan) => {
                &&& refusal(csv, gui, tech@) is None
                &&& plan.csv == csv
                &&& plan.gui == gui
                &&& plan.requests.len() == board_order().len()
                &&& forall|i: int|
                    0 <= i < plan.requests.len() ==> (#[trigger] plan.requests[i]).source
                        == board_order()[i] && plan.requests[i].url@ == page_address(
                        board_order()[i],
                        tech@,
                    )
            },
            Err(error) => refusal(csv, gui, tech@) == Some(error),
        },
{
    if !is_available_tech(tech) {
        return Err(UsageError::UnavailableTech);
    }
    if !csv && !gui {
        return Err(UsageError::NoOutput);
    }
    let sources = boards();
    let mut requests: Vec<Request> = Vec::new();
    let mut i: usize = 0;
    while i < sources.len()
        invariant
            i <= sources.len(),
            sources@ == board_order(),
            requests.len() == i,
            forall|k: int|
                0 <= k < i ==> (#[trigger] requests[k]).source == board_order()[k]
                    && requests[k].url@ == page_address(board_order()[k], tech@),
        decreases sources.len() - i,
    {
        let source = sources[i];
        requests.push(Request { source, url: request_url(source, tech) });
        i += 1;
    }
    Ok(RunPlan { csv, gui, requests })
}

/// A run that asks for a technology that is not available is refused for that,
/// whatever outputs it asks for.
pub proof fn lemma_unavailable_tech_is_refused(csv: bool, gui: bool, tech: Seq<char>)
    requires
        !tech_available(tech),
    ensures
        refusal(csv, gui, tech) == Some(UsageError::UnavailableTech),
{
}

/// A run that asks for neither the CSV file nor the window is refused,
/// whatever technology it asks for.
pub proof fn lemma_no_output_is_refused(tech: Seq<char>)
    ensures
        refusal(false, false, tech) is Some,
        tech_available(tech) ==> refusal(false, false, tech) == Some(UsageError::NoOutput),
{
}

} // verus!
