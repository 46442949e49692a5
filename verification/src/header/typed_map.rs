//! The typed header map: the view of a header map through typed headers.
//!
//! A typed header map holds what a header map holds. A typed header is set
//! by value and encoded as it goes in; it is read by decoding what the map
//! holds under its name.

use vstd::prelude::*;

use super::map::{
    spec_contains, spec_get, spec_map_wf, spec_set, spec_values_view, HeaderMap, HeaderMapView,
};
use super::name::HeaderName;
use super::types::{InvalidTypedHeader, TypedHeader};
use super::value::HeaderValue;

verus! {

/// What is read of the typed header `H` in `entries`: an error where the
/// values under its name do not decode; else the header that they decode to.
/// Where there is no value under the name, the header is absent, unless `H`
/// gives absence a meaning, as `Content-Length` does.
pub open spec fn spec_typed<H: TypedHeader>(entries: HeaderMapView) -> Result<
    Option<H::V>,
    InvalidTypedHeader,
> {
    let values = spec_get(entries, H::spec_header_name().lower());
    match H::spec_try_from_header_raw(values) {
        Some(value) => Ok(Some(value)),
        None => if spec_contains(entries, H::spec_header_name().lower()) {
            Err(InvalidTypedHeader)
        } else {
            Ok(None)
        },
    }
}

/// Whether `res` is what reading the typed header `H` in `entries` gives.
pub open spec fn spec_reads_typed<H: TypedHeader>(
    entries: HeaderMapView,
    res: Result<Option<H>, InvalidTypedHeader>,
) -> bool {
    match spec_typed::<H>(entries) {
        Ok(Some(value)) => res matches Ok(Some(typed)) && typed@ == value && typed.wf(),
        Ok(None) => res matches Ok(None),
        Err(_) => res is Err,
    }
}

/// Reads the typed header `H` in `map`.
pub fn typed_header<H: TypedHeader>(map: &HeaderMap) -> (res: Result<Option<H>, InvalidTypedHeader>)
    ensures
        spec_reads_typed::<H>(map@, res),
{
    let name = H::header_name();
    let values = map.get(&name);
    let present = map.contains(&name);
    match H::try_from_header_raw(values) {
        Ok(typed) => Ok(Some(typed)),
        Err(error) => if present {
            Err(error)
        } else {
            Ok(None)
        },
    }
}

/// A header map that is written and read through typed headers.
#[derive(Debug, PartialEq, Eq)]
pub struct TypedHeaderMap {
    raw: HeaderMap,
}

impl View for TypedHeaderMap {
    type V = HeaderMapView;

    /// What the map holds, as raw header values.
    closed spec fn view(&self) -> HeaderMapView {
        self.raw@
    }
}

impl TypedHeaderMap {
    /// Well-formedness: the invariant of a header map holds of what the map
    /// holds.
    pub open spec fn wf(&self) -> bool {
        spec_map_wf(self@)
    }

    /// Creates an empty typed header map.
    pub fn new() -> (res: TypedHeaderMap)
        ensures
            res@ == HeaderMapView::empty(),
            res.wf(),
    {
        TypedHeaderMap { raw: HeaderMap::new() }
    }

    /// Sets the typed header `header`, in place of what the map holds under
    /// its name.
    pub fn set<H: TypedHeader>(&mut self, header: H)
        ensures
            final(self)@ == spec_set(
                old(self)@,
                H::spec_header_name()@,
                H::spec_to_header_raw(header@),
            ),
            old(self).wf() ==> final(self).wf(),
    {
        let values = header.to_header_raw();
        self.raw.set(H::header_name(), values);
    }

    /// Reads the typed header `H`.
    pub fn get<H: TypedHeader>(&self) -> (res: Result<Option<H>, InvalidTypedHeader>)
        ensures
            spec_reads_typed::<H>(self@, res),
    {
        typed_header::<H>(&self.raw)
    }

    /// Sets the raw values of `name`, in place of what the map holds under
    /// the name.
    pub fn set_raw(&mut self, name: HeaderName, values: Vec<HeaderValue>)
        ensures
            final(self)@ == spec_set(old(self)@, name@, spec_values_view(values@)),
            old(self).wf() && name.wf() && (forall|k: int|
                0 <= k < values@.len() ==> (#[trigger] values@[k]).wf()) ==> final(self).wf(),
    {
        self.raw.set(name, values);
    }

    /// Returns the raw values of `name`.
    pub fn get_raw(&self, name: &HeaderName) -> (res: &[HeaderValue])
        ensures
            spec_values_view(res@) == spec_get(self@, name.lower()),
    {
        self.raw.get(name)
    }

    /// Converts a header map to a typed header map that holds the same.
    pub fn from_untyped(map: HeaderMap) -> (res: TypedHeaderMap)
        ensures
            res@ == map@,
    {
        TypedHeaderMap { raw: map }
    }

    /// Converts the typed header map to a header map that holds the same.
    pub fn into_untyped(self) -> (res: HeaderMap)
        ensures
            res@ == self@,
    {
        self.raw
    }
}

impl Clone for TypedHeaderMap {
    fn clone(&self) -> (res: TypedHeaderMap)
        ensures
            res@ == self@,
    {
        TypedHeaderMap { raw: self.raw.clone() }
    }
}

impl Default for TypedHeaderMap {
    fn default() -> (res: TypedHeaderMap)
        ensures
            res@ == HeaderMapView::empty(),
    {
        TypedHeaderMap::new()
    }
}

/// A collection of headers that a message carries: a header map or a typed
/// header map.
pub trait Headers: Sized {
    /// What the collection holds, as raw header values.
    spec fn raw(&self) -> HeaderMapView;

    /// Creates a collection that holds no header.
    fn empty() -> (res: Self)
        ensures
            res.raw() == HeaderMapView::empty(),
    ;
}

impl Headers for HeaderMap {
    open spec fn raw(&self) -> HeaderMapView {
        self@
    }

    fn empty() -> (res: HeaderMap) {
        HeaderMap::new()
    }
}

impl Headers for TypedHeaderMap {
    open spec fn raw(&self) -> HeaderMapView {
        self@
    }

    fn empty() -> (res: TypedHeaderMap) {
        TypedHeaderMap::new()
    }
}

} // verus!
