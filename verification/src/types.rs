use vstd::prelude::*;

verus! {

/// How urgent a backlog item is.
#[derive(Debug, Clone, Copy, PartialEq, Eq, Structural)]
pub enum Priority {
    High,
    Medium,
    Low,
}

impl Priority {
    /// The canonical rendering of the priority.
    pub fn to_string(&self) -> (r: String)
        ensures
            *self == Priority::High ==> r@ == "High"@,
            *self == Priority::Medium ==> r@ == "Medium"@,
            *self == Priority::Low ==> r@ == "Low"@,
    {
        match self {
            Priority::High => String::from_str("High"),
            Priority::Medium => String::from_str("Medium"),
            Priority::Low => String::from_str("Low"),
        }
    }
}

/// Where a backlog item stands in its life.
#[derive(Debug, Clone, Copy, PartialEq, Eq, Structural)]
pub enum Status {
    Todo,
    InProgress,
    Done,
}

impl Status {
    /// The canonical rendering of the status.
    pub fn to_string(&self) -> (r: String)
        ensures
            *self == Status::Todo ==> r@ == "Todo"@,
            *self == Status::InProgress ==> r@ == "In Progress"@,
            *self == Status::Done ==> r@ == "Done"@,
    {
        match self {
            Status::Todo => String::from_str("Todo"),
            Status::InProgress => String::from_str("In Progress"),
            Status::Done => String::from_str("Done"),
        }
    }
}

} // verus!
