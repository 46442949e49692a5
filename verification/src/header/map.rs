//! The header map: an ordered multimap from header names to header values.
//!
//! Names keep the order in which they were first inserted, and the values of
//! one name keep the order in which they were appended. Names are told apart
//! by their lowercase spelling.

use vstd::prelude::*;

use super::name::{lemma_view_wf, HeaderName, HeaderNameView};
use super::value::{spec_is_valid_value, HeaderValue};
use crate::syntax::bytes_eq;

verus! {

/// What a header map holds: for each name, in order, its two spellings and
/// its values.
pub type HeaderMapView = Seq<(HeaderNameView, Seq<Seq<u8>>)>;

/// The views of a sequence of header values.
pub open spec fn spec_values_view(values: Seq<HeaderValue>) -> Seq<Seq<u8>> {
    Seq::new(values.len(), |i: int| values[i]@)
}

/// The index of the first entry named `lower`, or the number of entries if
/// there is none.
pub open spec fn spec_find(entries: HeaderMapView, lower: Seq<u8>) -> int
    decreases entries.len(),
{
    if entries.len() == 0 || entries[0].0.lower == lower {
        0
    } else {
        1 + spec_find(entries.skip(1), lower)
    }
}

/// Whether an entry is named `lower`.
pub open spec fn spec_contains(entries: HeaderMapView, lower: Seq<u8>) -> bool {
    spec_find(entries, lower) < entries.len()
}

/// The values of the entry named `lower`; none if there is no such entry.
pub open spec fn spec_get(entries: HeaderMapView, lower: Seq<u8>) -> Seq<Seq<u8>> {
    if spec_contains(entries, lower) {
        entries[spec_find(entries, lower)].1
    } else {
        Seq::empty()
    }
}

/// The entries after `value` was appended under `name`: it joins the values
/// of the entry of that name, or starts a new entry at the end.
pub open spec fn spec_append(
    entries: HeaderMapView,
    name: HeaderNameView,
    value: Seq<u8>,
) -> HeaderMapView {
    let index = spec_find(entries, name.lower);
    if index < entries.len() {
        entries.update(index, (entries[index].0, entries[index].1.push(value)))
    } else {
        entries.push((name, seq![value]))
    }
}

/// The entries without the entry named `lower`.
pub open spec fn spec_remove(entries: HeaderMapView, lower: Seq<u8>) -> HeaderMapView {
    if spec_contains(entries, lower) {
        entries.remove(spec_find(entries, lower))
    } else {
        entries
    }
}

/// The entries after the values of `name` were set to `values`: they replace
/// the entry of that name where it stands, or start a new entry at the end.
/// Setting no values removes the entry.
pub open spec fn spec_set(
    entries: HeaderMapView,
    name: HeaderNameView,
    values: Seq<Seq<u8>>,
) -> HeaderMapView {
    let index = spec_find(entries, name.lower);
    if values.len() == 0 {
        spec_remove(entries, name.lower)
    } else if index < entries.len() {
        entries.update(index, (name, values))
    } else {
        entries.push((name, values))
    }
}

/// The invariant of a header map: no two entries share a name, every entry
/// has a value, every name is well-formed and every value is a header value.
pub open spec fn spec_map_wf(entries: HeaderMapView) -> bool {
    &&& forall|i: int, j: int|
        0 <= i < j < entries.len() ==> (#[trigger] entries[i]).0.lower != (
        #[trigger] entries[j]).0.lower
    &&& forall|i: int| 0 <= i < entries.len() ==> (#[trigger] entries[i]).1.len() > 0
    &&& forall|i: int| 0 <= i < entries.len() ==> (#[trigger] entries[i]).0.wf()
    &&& forall|i: int, k: int|
        0 <= i < entries.len() && 0 <= k < entries[i].1.len() ==> spec_is_valid_value(
            #[trigger] entries[i].1[k],
        )
}

/// `spec_find` returns the first index at which the name stands.
pub proof fn lemma_find(entries: HeaderMapView, lower: Seq<u8>)
    ensures
        0 <= spec_find(entries, lower) <= entries.len(),
        spec_find(entries, lower) < entries.len() ==> entries[spec_find(entries, lower)].0.lower
            == lower,
        forall|j: int| 0 <= j < spec_find(entries, lower) ==> (#[trigger] entries[j]).0.lower != lower,
    decreases entries.len(),
{
    if entries.len() == 0 || entries[0].0.lower == lower {
    } else {
        let rest = entries.skip(1);
        lemma_find(rest, lower);
        let r = spec_find(rest, lower);
        assert forall|j: int| 0 <= j < r + 1 implies (#[trigger] entries[j]).0.lower != lower by {
            if j > 0 {
                assert(rest[j - 1] == entries[j]);
            }
        }
        if r < rest.len() {
            assert(rest[r] == entries[r + 1]);
        }
    }
}

/// An index before which the name does not stand, and at which it stands or
/// the entries end, is what `spec_find` returns.
pub proof fn lemma_find_is(entries: HeaderMapView, lower: Seq<u8>, index: int)
    requires
        0 <= index <= entries.len(),
        forall|j: int| 0 <= j < index ==> (#[trigger] entries[j]).0.lower != lower,
        index < entries.len() ==> entries[index].0.lower == lower,
    ensures
        spec_find(entries, lower) == index,
{
    lemma_find(entries, lower);
    let r = spec_find(entries, lower);
    if r < index {
        assert(entries[r].0.lower != lower);
    }
}

/// The values of a name after a value was appended under it are its values
/// before, and the value; the values of every other name stay as they are.
pub proof fn lemma_get_after_append(
    entries: HeaderMapView,
    name: HeaderNameView,
    value: Seq<u8>,
    other: Seq<u8>,
)
    ensures
        spec_get(spec_append(entries, name, value), name.lower) == spec_get(
            entries,
            name.lower,
        ).push(value),
        other != name.lower ==> spec_get(spec_append(entries, name, value), other) == spec_get(
            entries,
            other,
        ),
{
    let after = spec_append(entries, name, value);
    let index = spec_find(entries, name.lower);
    lemma_find(entries, name.lower);
    lemma_find(entries, other);
    let at = spec_find(entries, other);
    assert forall|j: int| 0 <= j < entries.len() implies (#[trigger] after[j]).0.lower
        == entries[j].0.lower by {}
    assert forall|j: int| 0 <= j < index implies (#[trigger] after[j]).0.lower != name.lower by {
        assert(after[j].0.lower == entries[j].0.lower);
        assert(entries[j].0.lower != name.lower);
    }
    lemma_find_is(after, name.lower, index);
    if index == entries.len() {
        assert(seq![value] =~= Seq::<Seq<u8>>::empty().push(value));
    }
    if other != name.lower {
        assert forall|j: int| 0 <= j < at implies (#[trigger] after[j]).0.lower != other by {
            assert(after[j].0.lower == entries[j].0.lower);
            assert(entries[j].0.lower != other);
        }
        if at < entries.len() {
            lemma_find_is(after, other, at);
        } else {
            assert forall|j: int| 0 <= j < after.len() implies (#[trigger] after[j]).0.lower
                != other by {
                if j < entries.len() {
                    assert(after[j].0.lower == entries[j].0.lower);
                    assert(entries[j].0.lower != other);
                }
            }
            lemma_find_is(after, other, after.len() as int);
        }
    }
}

/// After a header was removed from a well-formed map, the map holds no value
/// under its name; the values of every other name stay as they are.
pub proof fn lemma_get_after_remove(entries: HeaderMapView, lower: Seq<u8>, other: Seq<u8>)
    requires
        spec_map_wf(entries),
    ensures
        spec_get(spec_remove(entries, lower), lower) == Seq::<Seq<u8>>::empty(),
        other != lower ==> spec_get(spec_remove(entries, lower), other) == spec_get(entries, other),
{
    let after = spec_remove(entries, lower);
    let index = spec_find(entries, lower);
    lemma_find(entries, lower);
    lemma_find(entries, other);
    let at = spec_find(entries, other);
    if index < entries.len() {
        assert forall|j: int| 0 <= j < after.len() implies #[trigger] after[j] == entries[if j
            < index {
            j
        } else {
            j + 1
        }] by {}
        assert forall|j: int| 0 <= j < after.len() implies (#[trigger] after[j]).0.lower
            != lower by {
            let from = if j < index { j } else { j + 1 };
            assert(after[j] == entries[from]);
            if from < index {
                assert(entries[from].0.lower != entries[index].0.lower);
            } else {
                assert(entries[index].0.lower != entries[from].0.lower);
            }
        }
        lemma_find_is(after, lower, after.len() as int);
        if other != lower {
            let moved = if at < index {
                at
            } else {
                at - 1
            };
            assert forall|j: int| 0 <= j < moved implies (#[trigger] after[j]).0.lower != other by {
                let from = if j < index { j } else { j + 1 };
                assert(after[j] == entries[from]);
                assert(entries[from].0.lower != other);
            }
            if at < entries.len() {
                assert(after[moved] == entries[at]);
            }
            lemma_find_is(after, other, moved);
        }
    }
}

/// The values of a name after its values were set in a well-formed map are
/// the values that were set; the values of every other name stay as they
/// are.
pub proof fn lemma_get_after_set(
    entries: HeaderMapView,
    name: HeaderNameView,
    values: Seq<Seq<u8>>,
    other: Seq<u8>,
)
    requires
        spec_map_wf(entries),
    ensures
        spec_get(spec_set(entries, name, values), name.lower) == values,
        other != name.lower ==> spec_get(spec_set(entries, name, values), other) == spec_get(
            entries,
            other,
        ),
{
    let after = spec_set(entries, name, values);
    let index = spec_find(entries, name.lower);
    lemma_find(entries, name.lower);
    lemma_find(entries, other);
    let at = spec_find(entries, other);
    if values.len() == 0 {
        lemma_get_after_remove(entries, name.lower, other);
        assert(values =~= Seq::<Seq<u8>>::empty());
    } else {
        assert forall|j: int| 0 <= j < entries.len() implies (#[trigger] after[j]).0.lower
            == entries[j].0.lower by {}
        assert forall|j: int| 0 <= j < index implies (#[trigger] after[j]).0.lower != name.lower by {
            assert(after[j].0.lower == entries[j].0.lower);
            assert(entries[j].0.lower != name.lower);
        }
        lemma_find_is(after, name.lower, index);
        if other != name.lower {
            assert forall|j: int| 0 <= j < at implies (#[trigger] after[j]).0.lower != other by {
                assert(after[j].0.lower == entries[j].0.lower);
                assert(entries[j].0.lower != other);
            }
            if at < entries.len() {
                lemma_find_is(after, other, at);
            } else {
                assert forall|j: int| 0 <= j < after.len() implies (#[trigger] after[j]).0.lower
                    != other by {
                    if j < entries.len() {
                        assert(after[j].0.lower == entries[j].0.lower);
                        assert(entries[j].0.lower != other);
                    }
                }
                lemma_find_is(after, other, after.len() as int);
            }
        }
    }
}

/// One name with its values, as a header map holds it.
#[derive(Debug, PartialEq, Eq)]
pub struct HeaderEntry {
    name: HeaderName,
    values: Vec<HeaderValue>,
}

impl HeaderEntry {
    /// The name and the values of the entry.
    pub closed spec fn view_pair(&self) -> (HeaderNameView, Seq<Seq<u8>>) {
        (self.name@, spec_values_view(self.values@))
    }

}

/// An ordered multimap from header names to header values.
#[derive(Debug, PartialEq, Eq)]
pub struct HeaderMap {
    entries: Vec<HeaderEntry>,
}

impl View for HeaderMap {
    type V = HeaderMapView;

    closed spec fn view(&self) -> HeaderMapView {
        Seq::new(self.entries@.len(), |i: int| self.entries@[i].view_pair())
    }
}

impl HeaderMap {
    /// Well-formedness: the invariant of a header map holds of what the map
    /// holds. It holds of the empty map, and every operation keeps it where its
    /// arguments are well-formed.
    pub open spec fn wf(&self) -> bool {
        spec_map_wf(self@)
    }

    /// Creates an empty header map.
    pub fn new() -> (res: HeaderMap)
        ensures
            res@ == HeaderMapView::empty(),
            res.wf(),
    {
        let res = HeaderMap { entries: Vec::new() };
        assert(res@ =~= HeaderMapView::empty());
        res
    }

    /// Returns the number of names in the map.
    pub fn len(&self) -> (res: usize)
        ensures
            res == self@.len(),
    {
        self.entries.len()
    }

    /// Decides whether the map holds no header.
    pub fn is_empty(&self) -> (res: bool)
        ensures
            res == (self@.len() == 0),
    {
        self.entries.len() == 0
    }

    /// Returns the index of the entry of `name`, or the number of entries if
    /// there is none.
    fn find(&self, name: &HeaderName) -> (res: usize)
        ensures
            res == spec_find(self@, name.lower()),
            res <= self@.len(),
            res <= self.entries@.len(),
    {
        let lower = name.as_bytes();
        let mut i: usize = 0;
        while i < self.entries.len()
            invariant
                i <= self.entries@.len(),
                lower@ == name.lower(),
                forall|j: int| 0 <= j < i ==> (#[trigger] self@[j]).0.lower != name.lower(),
            decreases self.entries@.len() - i,
        {
            if bytes_eq(self.entries[i].name.as_bytes(), lower) {
                proof {
                    assert(self@[i as int].0.lower == name.lower());
                    lemma_find_is(self@, name.lower(), i as int);
                }
                return i;
            }
            assert(self@[i as int].0.lower != name.lower());
            i += 1;
        }
        proof {
            lemma_find_is(self@, name.lower(), i as int);
        }
        i
    }

    /// Decides whether the map holds a value for `name`.
    pub fn contains(&self, name: &HeaderName) -> (res: bool)
        ensures
            res == spec_contains(self@, name.lower()),
    {
        self.find(name) < self.entries.len()
    }

    /// Returns the values of `name` in the order in which they were appended;
    /// none if the map has no such header.
    pub fn get(&self, name: &HeaderName) -> (res: &[HeaderValue])
        ensures
            spec_values_view(res@) == spec_get(self@, name.lower()),
    {
        let index = self.find(name);
        if index < self.entries.len() {
            let res = self.entries[index].values.as_slice();
            assert(self@[index as int].1 == spec_values_view(res@));
            res
        } else {
            let res: &[HeaderValue] = &[];
            assert(spec_values_view(res@) =~= Seq::<Seq<u8>>::empty());
            res
        }
    }

    /// Returns the name at position `index` in the order of first insertion.
    pub fn name_at(&self, index: usize) -> (res: &HeaderName)
        requires
            index < self@.len(),
        ensures
            res@ == self@[index as int].0,
    {
        &self.entries[index].name
    }

    /// Returns the values of the name at position `index`.
    pub fn values_at(&self, index: usize) -> (res: &[HeaderValue])
        requires
            index < self@.len(),
        ensures
            spec_values_view(res@) == self@[index as int].1,
    {
        self.entries[index].values.as_slice()
    }

    /// Appends `value` to the values of `name`. A name that the map does not
    /// hold yet comes after all names that it holds.
    pub fn append(&mut self, name: HeaderName, value: HeaderValue)
        ensures
            final(self)@ == spec_append(old(self)@, name@, value@),
            old(self).wf() && name.wf() && value.wf() ==> final(self).wf(),
    {
        let index = self.find(&name);
        let ghost before = self@;
        let ghost value_view = value@;
        if index < self.entries.len() {
            let ghost old_values = self.entries@[index as int].values@;
            self.entries[index].values.push(value);
            proof {
                assert(spec_values_view(old_values.push(value)) =~= spec_values_view(
                    old_values,
                ).push(value_view));
                assert(self@ =~= spec_append(before, name@, value_view));
            }
        } else {
            let mut values: Vec<HeaderValue> = Vec::new();
            values.push(value);
            proof {
                assert(spec_values_view(values@) =~= seq![value_view]);
            }
            self.entries.push(HeaderEntry { name, values });
            proof {
                assert(self@ =~= spec_append(before, name@, value_view));
            }
        }
        proof {
            lemma_append_wf(before, name, value_view);
        }
    }

    /// Sets the values of `name` to `values`, in place of the values that the
    /// map holds for the name. With no values, the header is removed.
    pub fn set(&mut self, name: HeaderName, values: Vec<HeaderValue>)
        ensures
            final(self)@ == spec_set(old(self)@, name@, spec_values_view(values@)),
            old(self).wf() && name.wf() && (forall|k: int|
                0 <= k < values@.len() ==> (#[trigger] values@[k]).wf()) ==> final(self).wf(),
    {
        let index = self.find(&name);
        let ghost before = self@;
        let ghost values_view = spec_values_view(values@);
        proof {
            lemma_set_wf(before, name, values_view);
        }
        if values.len() == 0 {
            if index < self.entries.len() {
                self.entries.remove(index);
                assert(self@ =~= spec_remove(before, name.lower()));
            }
        } else if index < self.entries.len() {
            self.entries[index] = HeaderEntry { name, values };
            assert(self@ =~= spec_set(before, name@, values_view));
        } else {
            self.entries.push(HeaderEntry { name, values });
            assert(self@ =~= spec_set(before, name@, values_view));
        }
    }

    /// Removes the header `name` and returns the values that it had.
    pub fn remove(&mut self, name: &HeaderName) -> (res: Vec<HeaderValue>)
        ensures
            final(self)@ == spec_remove(old(self)@, name.lower()),
            spec_values_view(res@) == spec_get(old(self)@, name.lower()),
            old(self).wf() ==> final(self).wf(),
    {
        let index = self.find(name);
        let ghost before = self@;
        proof {
            lemma_remove_wf(before, name.lower());
        }
        if index < self.entries.len() {
            let entry = self.entries.remove(index);
            assert(self@ =~= spec_remove(before, name.lower()));
            assert(before[index as int].1 == spec_values_view(entry.values@));
            entry.values
        } else {
            let res: Vec<HeaderValue> = Vec::new();
            assert(spec_values_view(res@) =~= Seq::<Seq<u8>>::empty());
            res
        }
    }
}

impl Clone for HeaderMap {
    fn clone(&self) -> (res: HeaderMap)
        ensures
            res@ == self@,
    {
        let mut entries: Vec<HeaderEntry> = Vec::with_capacity(self.entries.len());
        let mut i: usize = 0;
        while i < self.entries.len()
            invariant
                i <= self.entries@.len(),
                entries@.len() == i,
                forall|j: int| 0 <= j < i ==> (#[trigger] entries@[j]).view_pair() == self@[j],
            decreases self.entries@.len() - i,
        {
            let entry = &self.entries[i];
            let mut values: Vec<HeaderValue> = Vec::with_capacity(entry.values.len());
            let mut k: usize = 0;
            while k < entry.values.len()
                invariant
                    k <= entry.values@.len(),
                    values@.len() == k,
                    forall|j: int| 0 <= j < k ==> (#[trigger] values@[j])@ == entry.values@[j]@,
                decreases entry.values@.len() - k,
            {
                values.push(entry.values[k].clone());
                k += 1;
            }
            assert(spec_values_view(values@) =~= spec_values_view(entry.values@));
            let name = entry.name.clone();
            entries.push(HeaderEntry { name, values });
            i += 1;
        }
        let res = HeaderMap { entries };
        assert(res@ =~= self@);
        res
    }
}

impl Default for HeaderMap {
    fn default() -> (res: HeaderMap)
        ensures
            res@ == HeaderMapView::empty(),
    {
        HeaderMap::new()
    }
}

/// Appending a header value under a well-formed name keeps a map
/// well-formed.
pub proof fn lemma_append_wf(entries: HeaderMapView, name: HeaderName, value: Seq<u8>)
    ensures
        spec_map_wf(entries) && name.wf() && spec_is_valid_value(value) ==> spec_map_wf(
            spec_append(entries, name@, value),
        ),
{
    if spec_map_wf(entries) && name.wf() && spec_is_valid_value(value) {
        lemma_find(entries, name.lower());
        let after = spec_append(entries, name@, value);
        let index = spec_find(entries, name.lower());
        lemma_view_wf(name);
        assert forall|i: int, k: int|
            0 <= i < after.len() && 0 <= k < after[i].1.len() implies spec_is_valid_value(
            #[trigger] after[i].1[k],
        ) by {
            if i < entries.len() && k < entries[i].1.len() {
                assert(after[i].1[k] == entries[i].1[k]);
            }
        }
        assert forall|i: int, j: int| 0 <= i < j < after.len() implies (#[trigger] after[i]).0.lower
            != (#[trigger] after[j]).0.lower by {
            if j < entries.len() {
                assert(entries[i].0.lower != entries[j].0.lower);
            } else {
                assert(entries[i].0.lower != name.lower());
            }
        }
        assert forall|i: int| 0 <= i < after.len() implies (#[trigger] after[i]).0.wf() by {
            if i < entries.len() {
                assert(entries[i].0.wf());
            }
        }
        assert forall|i: int| 0 <= i < after.len() implies (#[trigger] after[i]).1.len() > 0 by {
            if i < entries.len() {
                assert(entries[i].1.len() > 0);
            }
        }
    }
}

/// Removing a header keeps a map well-formed.
pub proof fn lemma_remove_wf(entries: HeaderMapView, lower: Seq<u8>)
    ensures
        spec_map_wf(entries) ==> spec_map_wf(spec_remove(entries, lower)),
{
    if spec_map_wf(entries) && spec_contains(entries, lower) {
        lemma_find(entries, lower);
        let index = spec_find(entries, lower);
        let after = spec_remove(entries, lower);
        assert forall|i: int| 0 <= i < after.len() implies #[trigger] after[i] == entries[if i
            < index {
            i
        } else {
            i + 1
        }] by {}
        assert forall|i: int, j: int| 0 <= i < j < after.len() implies (#[trigger] after[i]).0.lower
            != (#[trigger] after[j]).0.lower by {
            let a = if i < index { i } else { i + 1 };
            let b = if j < index { j } else { j + 1 };
            assert(entries[a].0.lower != entries[b].0.lower);
        }
        assert forall|i: int| 0 <= i < after.len() implies (#[trigger] after[i]).1.len() > 0 by {
            let a = if i < index { i } else { i + 1 };
            assert(entries[a].1.len() > 0);
        }
        assert forall|i: int| 0 <= i < after.len() implies (#[trigger] after[i]).0.wf() by {
            let a = if i < index { i } else { i + 1 };
            assert(entries[a].0.wf());
        }
        assert forall|i: int, k: int|
            0 <= i < after.len() && 0 <= k < after[i].1.len() implies spec_is_valid_value(
            #[trigger] after[i].1[k],
        ) by {
            let a = if i < index { i } else { i + 1 };
            assert(after[i].1[k] == entries[a].1[k]);
        }
    }
}

/// Setting the values of a well-formed name to header values keeps a map
/// well-formed.
pub proof fn lemma_set_wf(entries: HeaderMapView, name: HeaderName, values: Seq<Seq<u8>>)
    ensures
        spec_map_wf(entries) && name.wf() && (forall|k: int|
            0 <= k < values.len() ==> spec_is_valid_value(#[trigger] values[k])) ==> spec_map_wf(
            spec_set(entries, name@, values),
        ),
{
    if spec_map_wf(entries) && name.wf() && (forall|k: int|
        0 <= k < values.len() ==> spec_is_valid_value(#[trigger] values[k])) {
        lemma_find(entries, name.lower());
        lemma_remove_wf(entries, name.lower());
        if values.len() > 0 {
            let after = spec_set(entries, name@, values);
            let index = spec_find(entries, name.lower());
            lemma_view_wf(name);
            assert forall|i: int, j: int| 0 <= i < j < after.len() implies (
            #[trigger] after[i]).0.lower != (#[trigger] after[j]).0.lower by {
                if j < entries.len() {
                    assert(entries[i].0.lower != entries[j].0.lower);
                } else {
                    assert(entries[i].0.lower != name.lower());
                }
            }
            assert forall|i: int| 0 <= i < after.len() implies (#[trigger] after[i]).1.len()
                > 0 by {
                if i < entries.len() {
                    assert(entries[i].1.len() > 0);
                }
            }
            assert forall|i: int| 0 <= i < after.len() implies (#[trigger] after[i]).0.wf() by {
                if i < entries.len() {
                    assert(entries[i].0.wf());
                }
            }
            assert forall|i: int, k: int|
                0 <= i < after.len() && 0 <= k < after[i].1.len() implies spec_is_valid_value(
                #[trigger] after[i].1[k],
            ) by {
                if i < entries.len() && i != index {
                    assert(after[i].1[k] == entries[i].1[k]);
                }
            }
        }
    }
}

} // verus!
