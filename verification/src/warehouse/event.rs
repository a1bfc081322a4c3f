//! The events of a warehouse aggregate.

use vstd::prelude::*;
use vstd::string::StringExecFns;
use crate::text::same_text;

verus! {

/// The kinds of event that a warehouse stream holds.
#[derive(Debug, Clone, Copy, PartialEq, Eq)]
pub enum WarehouseEvent {
    DataImported,
}

/// The payload of a `data-imported` event: where the imported batch is stored.
#[derive(Debug, Clone, PartialEq, Eq)]
pub struct DataImported {
    pub storage_path: String,
}

impl WarehouseEvent {
    /// The kebab-case name under which the kind is stored.
    pub open spec fn spec_name(self) -> Seq<char> {
        match self {
            WarehouseEvent::DataImported => "data-imported"@,
        }
    }

    /// The kind stored under `name`, if it is a known one.
    pub open spec fn spec_parse(name: Seq<char>) -> Option<WarehouseEvent> {
        if name == "data-imported"@ {
            Some(WarehouseEvent::DataImported)
        } else {
            None
        }
    }

    pub fn name(&self) -> (name: String)
        ensures
            name@ == self.spec_name(),
            WarehouseEvent::spec_parse(name@) == Some(*self),
    {
        match self {
            WarehouseEvent::DataImported => String::from_str("data-imported"),
        }
    }

    /// Reads a stored name back. An unknown name is an error of decoding, not
    /// a reason to stop the process.
    pub fn parse(name: &str) -> (kind: Option<WarehouseEvent>)
        ensures
            kind == WarehouseEvent::spec_parse(name@),
    {
        if same_text(name, "data-imported") {
            Some(WarehouseEvent::DataImported)
        } else {
            None
        }
    }
}

impl DataImported {
    pub fn new(storage_path: String) -> (data: Self)
        ensures
            data.storage_path == storage_path,
    {
        DataImported { storage_path }
    }
}

impl Default for DataImported {
    fn default() -> (data: Self)
        ensures
            data.storage_path@ == Seq::<char>::empty(),
    {
        DataImported { storage_path: String::new() }
    }
}

} // verus!
