use vstd::prelude::*;

verus! {

/// Outcome of one execution of a test, as Allure reports it.
#[derive(Clone, Copy, Debug, PartialEq, Eq, Structural)]
pub enum AllureTestStatus {
    /// Green
    Passed,
    /// Red
    Failed,
    /// Yellow
    Broken,
    /// Violet
    Unknown,
}

impl AllureTestStatus {
    /// Only a passed test counts as a success.
    pub fn is_success(&self) -> (r: bool)
        ensures
            r == (*self == AllureTestStatus::Passed),
    {
        match self {
            AllureTestStatus::Passed => true,
            AllureTestStatus::Failed => false,
            AllureTestStatus::Broken => false,
            AllureTestStatus::Unknown => false,
        }
    }
}

} // verus!
