use vstd::prelude::*;

verus! {

/// The three stages of placing a task: find candidate nodes, score them, pick one.
/// Each stage reports what it does as a line of text.
pub trait Scheduler {
    fn select_candidate_nodes(&self) -> String;

    fn score(&self) -> String;

    fn pick(&self) -> String;
}

/// A scheduler that only announces its stages.
pub struct SimpleScheduler;

impl Scheduler for SimpleScheduler {
    fn select_candidate_nodes(&self) -> (line: String)
        ensures
            line@ == "Selecting candidate nodes"@,
    {
        String::from_str("Selecting candidate nodes")
    }

    fn score(&self) -> (line: String)
        ensures
            line@ == "Scoring nodes"@,
    {
        String::from_str("Scoring nodes")
    }

    fn pick(&self) -> (line: String)
        ensures
            line@ == "Picking best node"@,
    {
        String::from_str("Picking best node")
    }
}

} // verus!
