//! Flow definitions and table-identifier normalization.

use vstd::prelude::*;
use vstd::string::{StrSliceExecFns, StringExecFns};

verus! {

/// A pairing of a source table identifier and a destination table
/// identifier within a flow.
#[derive(Debug, PartialEq, Eq)]
pub struct TableMapping {
    pub source_table_identifier: String,
    pub target_table_identifier: String,
}

/// Mathematical view of a `TableMapping`.
pub ghost struct TableMappingV {
    pub source_table_identifier: Seq<char>,
    pub target_table_identifier: Seq<char>,
}

impl View for TableMapping {
    type V = TableMappingV;

    open spec fn view(&self) -> TableMappingV {
        TableMappingV {
            source_table_identifier: self.source_table_identifier@,
            target_table_identifier: self.target_table_identifier@,
        }
    }
}

/// A named data-movement definition: a source peer and a destination peer
/// (each referenced by name) linked through one or more table mappings.
#[derive(Debug, PartialEq, Eq)]
pub struct FlowJob {
    pub name: String,
    pub description: String,
    pub source_peer: String,
    pub target_peer: String,
    pub table_mappings: Vec<TableMapping>,
}

/// Mathematical view of a `FlowJob`.
pub ghost struct FlowJobV {
    pub name: Seq<char>,
    pub description: Seq<char>,
    pub source_peer: Seq<char>,
    pub target_peer: Seq<char>,
    pub table_mappings: Seq<TableMappingV>,
}

impl View for FlowJob {
    type V = FlowJobV;

    open spec fn view(&self) -> FlowJobV {
        FlowJobV {
            name: self.name@,
            description: self.description@,
            source_peer: self.source_peer@,
            target_peer: self.target_peer@,
            table_mappings: self.table_mappings@.map_values(|m: TableMapping| m@),
        }
    }
}

/// True when the identifier already carries a schema segment, that is,
/// when it contains a `.` separator.
pub open spec fn has_dot(s: Seq<char>) -> bool {
    exists|i: int| 0 <= i < s.len() && s[i] == '.'
}

/// The identifier as stored: a single-segment identifier gains the default
/// schema segment `public` when its side calls for normalization; any other
/// identifier is stored unchanged.
pub open spec fn spec_normalize_identifier(s: Seq<char>, normalize: bool) -> Seq<char> {
    if normalize && !has_dot(s) {
        "public."@ + s
    } else {
        s
    }
}

/// True when the identifier contains a `.` separator.
pub fn contains_dot(s: &str) -> (r: bool)
    ensures
        r == has_dot(s@),
{
    let n = s.unicode_len();
    let mut i: usize = 0;
    while i < n
        invariant
            i <= n == s@.len(),
            forall|k: int| 0 <= k < i ==> s@[k] != '.',
        decreases n - i,
    {
        if s.get_char(i) == '.' {
            return true;
        }
        i = i + 1;
    }
    false
}

/// Normalizes one table identifier, as `spec_normalize_identifier`
/// describes.
pub fn normalize_table_identifier(ident: &str, normalize: bool) -> (r: String)
    ensures
        r@ == spec_normalize_identifier(ident@, normalize),
{
    if normalize && !contains_dot(ident) {
        let mut s = String::new();
        s.append("public.");
        s.append(ident);
        assert(s@ =~= "public."@ + ident@);
        s
    } else {
        ident.to_owned()
    }
}

} // verus!
