//! The element registry loader: raw records in, validated elements out.

use vstd::prelude::*;
use crate::ratom::{number_ok, symbol_byte_len, symbol_len_ok, Ratom, RatomBuildError, Type};

verus! {

/// What the trimmed form of a string is; `str::trim`'s result, a function of
/// the characters alone.
pub uninterp spec fn trim_of(s: Seq<char>) -> Seq<char>;

/// Relies on `str::trim`: returns the string with leading and trailing
/// whitespace removed; the result depends on the characters alone.
#[verifier::external_body]
fn trimmed(s: &String) -> (r: String)
    ensures
        r@ == trim_of(s@),
{
    s.trim().to_string()
}

/// One raw record as the data collaborator hands it over: already typed, not
/// yet validated.
#[derive(Debug)]
pub struct RawElementRecord {
    pub symbol: String,
    pub atomic_number: u8,
    pub name: String,
    pub period: u8,
    pub group: Option<u8>,
    pub classification: Option<Type>,
}

/// A validated element together with where the data file says it sits.
#[derive(Debug)]
pub struct LoadedElement {
    pub element: Ratom,
    pub period: u8,
    pub group: Option<u8>,
}

/// Why loading the element registry failed.
#[derive(Debug)]
pub enum LoadError {
    /// The data source could not be read.  Raised by the collaborator that
    /// owns the source, never by [`load_elements`].
    Source(String),
    /// A record's shape was malformed.  Raised by the decoding collaborator,
    /// never by [`load_elements`].
    Decode(String),
    /// A record failed element validation; the trimmed symbol identifies the
    /// offending record.
    InvalidElement { symbol: String, cause: RatomBuildError },
}

/// A raw record passes validation: its trimmed symbol and its atomic number
/// are both acceptable.
pub open spec fn record_ok(r: RawElementRecord) -> bool {
    symbol_len_ok(trim_of(r.symbol@)) && number_ok(r.atomic_number)
}

/// The construction error that a failing record earns: a bad symbol length is
/// reported before a bad atomic number.
pub open spec fn record_error(r: RawElementRecord, e: RatomBuildError) -> bool {
    if !symbol_len_ok(trim_of(r.symbol@)) {
        e matches RatomBuildError::SymbolLengthOutOfBounds(l) && l == symbol_byte_len(
            trim_of(r.symbol@),
        )
    } else {
        e == RatomBuildError::NumberOutOfBounds(r.atomic_number)
    }
}

/// The loaded element that a passing record yields: its element carries the
/// trimmed symbol and the other fields unchanged.
pub open spec fn loaded_from(r: RawElementRecord, l: LoadedElement) -> bool {
    &&& l.element.spec_symbol() == trim_of(r.symbol@)
    &&& l.element.spec_number() == r.atomic_number
    &&& l.element.spec_name() == r.name@
    &&& l.element.spec_classification() == r.classification
    &&& l.element.wf()
    &&& l.period == r.period
    &&& l.group == r.group
}

/// Validate every record in order, trimming each symbol, and produce one
/// loaded element per record.  Succeeds exactly when every record passes
/// validation; otherwise the first failing record aborts the load and is
/// reported with its trimmed symbol and its construction error.
pub fn load_elements(records: &Vec<RawElementRecord>) -> (r: Result<
    Vec<LoadedElement>,
    LoadError,
>)
    ensures
        r is Ok <==> (forall|k: int|
            0 <= k < records@.len() ==> record_ok(#[trigger] records@[k])),
        r matches Ok(v) ==> v@.len() == records@.len() && (forall|k: int|
            0 <= k < records@.len() ==> loaded_from(records@[k], #[trigger] v@[k])),
        r matches Err(e) ==> exists|k: int|
            {
                &&& 0 <= k < records@.len()
                &&& !record_ok(#[trigger] records@[k])
                &&& (forall|k2: int| 0 <= k2 < k ==> record_ok(#[trigger] records@[k2]))
                &&& (e matches LoadError::InvalidElement { symbol, cause } && symbol@ == trim_of(
                    records@[k].symbol@,
                ) && record_error(records@[k], cause))
            },
{
    let mut out: Vec<LoadedElement> = Vec::new();
    let mut n: usize = 0;
    while n < records.len()
        invariant
            n <= records@.len(),
            out@.len() == n,
            forall|k: int| 0 <= k < n ==> record_ok(#[trigger] records@[k]),
            forall|k: int| 0 <= k < n ==> loaded_from(records@[k], #[trigger] out@[k]),
        decreases records@.len() - n,
    {
        let rec = &records[n];
        let symbol = trimmed(&rec.symbol);
        match Ratom::build(symbol, rec.atomic_number, rec.name.clone(), rec.classification) {
            Ok(element) => {
                out.push(LoadedElement { element, period: rec.period, group: rec.group });
            },
            Err(cause) => {
                return Err(
                    LoadError::InvalidElement { symbol: trimmed(&rec.symbol), cause },
                );
            },
        }
        n += 1;
    }
    Ok(out)
}

} // verus!
