use vstd::prelude::*;
use vstd::string::StringExecFns;

verus! {

/// How far a long operation has come.
#[derive(Debug, Clone, PartialEq, Eq)]
pub struct Progress {
    pub percentage: u32,
    pub message: String,
}

impl Progress {
    pub fn new(percentage: u32, message: String) -> (p: Progress)
        ensures
            p.percentage == percentage,
            p.message == message,
    {
        Progress { percentage, message }
    }

    /// Nothing done yet.
    pub fn start() -> (p: Progress)
        ensures
            p.percentage == 0,
            p.message@ == "start"@,
    {
        Progress::new(0, String::from_str("start"))
    }

    /// Under way, at the given percentage.
    pub fn update(percentage: u32) -> (p: Progress)
        ensures
            p.percentage == percentage,
            p.message@ == "running"@,
    {
        Progress::new(percentage, String::from_str("running"))
    }

    /// All done.
    pub fn finished() -> (p: Progress)
        ensures
            p.percentage == 100,
            p.message@ == "finished"@,
    {
        Progress::new(100, String::from_str("finished"))
    }
}

impl Default for Progress {
    fn default() -> (p: Progress)
        ensures
            p.percentage == 0,
            p.message@ == "start"@,
    {
        Progress::start()
    }
}

} // verus!
