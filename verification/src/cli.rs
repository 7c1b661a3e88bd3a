//! What the command line asks for.

use vstd::prelude::*;

verus! {

/// The command line: the units to watch, or none to watch them all.
#[derive(Debug, PartialEq, Eq)]
pub struct Cli {
    /// Unit list to monitor
    pub units: Option<Vec<String>>,
}

/// Which listing to ask the service manager for.
#[derive(Debug, PartialEq, Eq)]
pub enum ListingRequest {
    /// Every unit the manager knows.
    All,
    /// The units of these names, as given.
    ByNames(Vec<String>),
}

impl Cli {
    /// The listing that this command line calls for: the named units where
    /// names were given, even if the list of names is empty, and all units
    /// where none was.
    pub fn listing_request(self) -> (request: ListingRequest)
        ensures
            request == match self.units {
                Some(names) => ListingRequest::ByNames(names),
                None => ListingRequest::All,
            },
    {
        match self.units {
            Some(names) => ListingRequest::ByNames(names),
            None => ListingRequest::All,
        }
    }
}

} // verus!
