//! Units and the listing they are made from.

use vstd::prelude::*;

verus! {

/// One monitored unit: the name it is shown under and the object path it is
/// addressed by.
#[derive(Debug, PartialEq, Eq)]
pub struct Unit {
    name: String,
    path: String,
}

/// What a unit is, as plain sequences of characters.
pub struct UnitView {
    pub name: Seq<char>,
    pub path: Seq<char>,
}

impl View for Unit {
    type V = UnitView;

    closed spec fn view(&self) -> UnitView {
        UnitView { name: self.name@, path: self.path@ }
    }
}

impl Clone for Unit {
    fn clone(&self) -> (copy: Unit)
        ensures
            copy@ == self@,
    {
        Unit { name: self.name.clone(), path: self.path.clone() }
    }
}

impl Unit {
    /// A unit of the given name, addressed by the given path. Neither is
    /// checked here; the path is checked when a watcher takes the unit.
    pub fn new(name: String, path: String) -> (unit: Unit)
        ensures
            unit@ == (UnitView { name: name@, path: path@ }),
    {
        Unit { name, path }
    }

    /// The name the unit is shown under.
    pub fn name(&self) -> (name: &str)
        ensures
            name@ == self@.name,
    {
        self.name.as_str()
    }

    /// The path the unit is addressed by.
    pub fn path(&self) -> (path: &str)
        ensures
            path@ == self@.path,
    {
        self.path.as_str()
    }
}

/// One row of the service manager's unit listing, field for field in the
/// order the manager reports them.
#[derive(Debug, PartialEq, Eq)]
pub struct ListedUnit {
    pub name: String,
    pub description: String,
    pub load_state: String,
    pub active_state: String,
    pub sub_state: String,
    pub following: String,
    pub object_path: String,
    pub job_id: u32,
    pub job_type: String,
    pub job_path: String,
}

impl ListedUnit {
    /// The unit a row stands for: its name and its own object path.
    pub open spec fn spec_unit(&self) -> UnitView {
        UnitView { name: self.name@, path: self.object_path@ }
    }

    /// Keeps of a row what a watcher needs.
    pub fn to_unit(&self) -> (unit: Unit)
        ensures
            unit@ == self.spec_unit(),
    {
        Unit::new(self.name.clone(), self.object_path.clone())
    }
}

/// The units of a listing, one per row and in the listing's order.
pub open spec fn spec_units_from_listing(rows: Seq<ListedUnit>) -> Seq<UnitView> {
    Seq::new(rows.len(), |i: int| rows[i].spec_unit())
}

/// The views of a vector of units.
pub open spec fn unit_views(units: Seq<Unit>) -> Seq<UnitView> {
    Seq::new(units.len(), |i: int| units[i]@)
}

/// Turns a listing into the units to watch, one per row and in the listing's
/// order. Nothing is filtered and nothing is merged: a name listed twice gives
/// two units.
pub fn units_from_listing(rows: &Vec<ListedUnit>) -> (units: Vec<Unit>)
    ensures
        unit_views(units@) == spec_units_from_listing(rows@),
{
    let mut units: Vec<Unit> = Vec::new();
    let mut i: usize = 0;
    while i < rows.len()
        invariant
            i <= rows.len(),
            units.len() == i,
            forall|k: int| 0 <= k < i ==> (#[trigger] units[k])@ == rows[k].spec_unit(),
        decreases rows.len() - i,
    {
        units.push(rows[i].to_unit());
        i += 1;
    }
    units
}

} // verus!
