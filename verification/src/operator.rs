//! The operator catalog: which operators the DSL supports, and the requirements each one covers.
use vstd::prelude::*;
use vstd::string::StringSliceAdditionalSpecFns;
use crate::error::{OperatorKey, StreamDslError};

verus! {

/// What the catalog records of a supported operator.
#[derive(Debug, PartialEq, Eq)]
pub struct OperatorContract {
    pub key: OperatorKey,
    pub requirement_ids: Vec<&'static str>,
}

/// A catalog of supported operators.
pub trait OperatorCatalog {
    /// The contract of the operator named by `key`, or `UnsupportedOperator` when it is unknown.
    fn lookup(&self, key: OperatorKey) -> (r: Result<OperatorContract, StreamDslError>);
}

impl OperatorKey {
    /// The key of the `group_by` operator.
    pub fn group_by() -> (r: Self)
        ensures r.name == "group_by",
    {
        OperatorKey { name: "group_by" }
    }
    /// The key of the `map_async` operator.
    pub fn map_async() -> (r: Self)
        ensures r.name == "map_async",
    {
        OperatorKey { name: "map_async" }
    }
    /// The key of the `filter` operator.
    pub fn filter() -> (r: Self)
        ensures r.name == "filter",
    {
        OperatorKey { name: "filter" }
    }
    /// The key of the `filter_not` operator.
    pub fn filter_not() -> (r: Self)
        ensures r.name == "filter_not",
    {
        OperatorKey { name: "filter_not" }
    }
    /// The key of the `empty` operator.
    pub fn empty() -> (r: Self)
        ensures r.name == "empty",
    {
        OperatorKey { name: "empty" }
    }
    /// The key of the `from_option` operator.
    pub fn from_option() -> (r: Self)
        ensures r.name == "from_option",
    {
        OperatorKey { name: "from_option" }
    }
    /// The key of the `from_array` operator.
    pub fn from_array() -> (r: Self)
        ensures r.name == "from_array",
    {
        OperatorKey { name: "from_array" }
    }
    /// The key of the `from_iterator` operator.
    pub fn from_iterator() -> (r: Self)
        ensures r.name == "from_iterator",
    {
        OperatorKey { name: "from_iterator" }
    }
    /// The key of the `flatten_optional` operator.
    pub fn flatten_optional() -> (r: Self)
        ensures r.name == "flatten_optional",
    {
        OperatorKey { name: "flatten_optional" }
    }
    /// The key of the `stateful_map` operator.
    pub fn stateful_map() -> (r: Self)
        ensures r.name == "stateful_map",
    {
        OperatorKey { name: "stateful_map" }
    }
    /// The key of the `stateful_map_concat` operator.
    pub fn stateful_map_concat() -> (r: Self)
        ensures r.name == "stateful_map_concat",
    {
        OperatorKey { name: "stateful_map_concat" }
    }

    /// The operator name of this key.
    pub fn as_str(&self) -> (r: &'static str)
        ensures r == self.name,
    {
        self.name
    }

    /// The key of the operator called `name`.
    pub fn new(name: &'static str) -> (r: Self)
        ensures r.name == name,
    {
        OperatorKey { name }
    }
}

/// Whether two names have the same bytes.
pub fn same_name(a: &str, b: &str) -> (r: bool)
    ensures r == (a.spec_bytes() == b.spec_bytes()),
{
    let x = a.as_bytes();
    let y = b.as_bytes();
    if x.len() != y.len() {
        return false;
    }
    let mut i: usize = 0;
    while i < x.len()
        invariant
            x@ == a.spec_bytes(),
            y@ == b.spec_bytes(),
            x@.len() == y@.len(),
            i <= x@.len(),
            forall|j: int| 0 <= j < i ==> x@[j] == y@[j],
        decreases x@.len() - i,
    {
        if x[i] != y[i] {
            return false;
        }
        i = i + 1;
    }
    proof { assert(x@ =~= y@); }
    true
}

/// The requirements that the operator with name bytes `name` covers, when it is supported.
pub open spec fn requirement_ids_for(name: Seq<u8>) -> Option<Seq<&'static str>> {
    if name == "group_by".spec_bytes() {
        Some(seq!["1.1", "1.3", "2.1", "2.2"])
    } else if name == "map_async".spec_bytes() {
        Some(seq!["1.1", "1.3", "7.1", "7.2", "7.3", "7.4"])
    } else if name == "filter".spec_bytes() || name == "filter_not".spec_bytes() || name == "empty".spec_bytes()
        || name == "from_option".spec_bytes() || name == "from_array".spec_bytes()
        || name == "from_iterator".spec_bytes() || name == "flatten_optional".spec_bytes()
        || name == "stateful_map".spec_bytes() || name == "stateful_map_concat".spec_bytes() {
        Some(seq!["1.1", "1.3"])
    } else {
        None
    }
}

/// The catalog of the operators this DSL provides.
pub struct DefaultOperatorCatalog;

impl DefaultOperatorCatalog {
    /// The catalog.
    pub fn new() -> (r: Self)
        ensures true,
    {
        DefaultOperatorCatalog
    }
}

impl OperatorCatalog for DefaultOperatorCatalog {
    fn lookup(&self, key: OperatorKey) -> (r: Result<OperatorContract, StreamDslError>)
        ensures
            match requirement_ids_for(key.name.spec_bytes()) {
                Some(ids) => r matches Ok(c) && c.key == key && c.requirement_ids@ == ids,
                None => r == Err::<OperatorContract, StreamDslError>(StreamDslError::UnsupportedOperator { key }),
            },
    {
        let name = key.name;
        if same_name(name, "group_by") {
            Ok(OperatorContract { key, requirement_ids: vec!["1.1", "1.3", "2.1", "2.2"] })
        } else if same_name(name, "map_async") {
            Ok(OperatorContract { key, requirement_ids: vec!["1.1", "1.3", "7.1", "7.2", "7.3", "7.4"] })
        } else if same_name(name, "filter") || same_name(name, "filter_not") || same_name(name, "empty")
            || same_name(name, "from_option") || same_name(name, "from_array")
            || same_name(name, "from_iterator") || same_name(name, "flatten_optional")
            || same_name(name, "stateful_map") || same_name(name, "stateful_map_concat") {
            Ok(OperatorContract { key, requirement_ids: vec!["1.1", "1.3"] })
        } else {
            Err(StreamDslError::UnsupportedOperator { key })
        }
    }
}

} // verus!
