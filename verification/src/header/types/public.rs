//! The `Public` header.

use vstd::prelude::*;
use vstd::slice::slice_subrange;

use super::{InvalidTypedHeader, TypedHeader};
use crate::header::map::spec_values_view;
use crate::header::name::HeaderName;
use crate::header::value::{spec_is_valid_value, spec_value_byte_ok, HeaderValue};
use crate::header::MAX_HEADER_VALUE_LENGTH;
use crate::method::Method;
use crate::syntax::{
    bytes_eq, bytes_to_vec, index_of, is_token, lemma_token_has_no_separator,
    lemma_trim_is_trimmed, spec_index_of, spec_is_token, spec_is_token_char,
    spec_trim_whitespace, trim_whitespace,
};

verus! {

/// The `Public` typed header as described by
/// [RFC7826](https://tools.ietf.org/html/rfc7826#section-18.39).
///
/// It lists the methods that a server supports. The header holds every method
/// once, in the order in which the methods were first named.
#[derive(Debug, PartialEq, Eq, Hash)]
pub struct Public {
    methods: Vec<Method>,
}

/// The names of a sequence of methods.
pub open spec fn spec_method_names(methods: Seq<Method>) -> Seq<Seq<u8>> {
    Seq::new(methods.len(), |i: int| methods[i]@)
}

impl View for Public {
    type V = Seq<Seq<u8>>;

    /// The names of the methods, in order.
    closed spec fn view(&self) -> Seq<Seq<u8>> {
        spec_method_names(self.methods@)
    }
}

/// Whether `names` is a list of methods as a `Public` header holds it: one
/// or more tokens that fit a header value, none of them twice.
pub open spec fn spec_is_method_list(names: Seq<Seq<u8>>) -> bool {
    &&& names.len() > 0
    &&& forall|i: int|
        0 <= i < names.len() ==> spec_is_token(#[trigger] names[i]) && names[i].len()
            <= MAX_HEADER_VALUE_LENGTH
    &&& forall|i: int, j: int| 0 <= i < j < names.len() ==> #[trigger] names[i] != #[trigger] names[j]
}

/// `names` with `name` added at the end, unless `names` holds it already.
pub open spec fn spec_add_method(names: Seq<Seq<u8>>, name: Seq<u8>) -> Seq<Seq<u8>> {
    if names.contains(name) {
        names
    } else {
        names.push(name)
    }
}

/// The methods that `names` and the comma-separated list `list` name
/// together. Whitespace around a method is ignored. `None` where a piece of
/// the list is not a token.
pub open spec fn spec_parse_method_list(list: Seq<u8>, names: Seq<Seq<u8>>) -> Option<
    Seq<Seq<u8>>,
>
    decreases list.len(),
{
    let comma = spec_index_of(list, 0x2c);
    let name = spec_trim_whitespace(list.take(comma));
    if !spec_is_token(name) {
        None
    } else if 0 <= comma < list.len() {
        spec_parse_method_list(list.skip(comma + 1), spec_add_method(names, name))
    } else {
        Some(spec_add_method(names, name))
    }
}

/// The methods that `names` and the lists `lists` name together. `None` where
/// a list is longer than a header value may be.
pub open spec fn spec_parse_method_lists(lists: Seq<Seq<u8>>, names: Seq<Seq<u8>>) -> Option<
    Seq<Seq<u8>>,
>
    decreases lists.len(),
{
    if lists.len() == 0 {
        Some(names)
    } else if lists[0].len() > MAX_HEADER_VALUE_LENGTH {
        None
    } else {
        match spec_parse_method_list(lists[0], names) {
            Some(more) => spec_parse_method_lists(lists.skip(1), more),
            None => None,
        }
    }
}

/// Decides whether one of `methods` is named `name`.
fn holds(methods: &Vec<Method>, name: &[u8]) -> (res: bool)
    ensures
        res == spec_method_names(methods@).contains(name@),
{
    let ghost names = spec_method_names(methods@);
    let mut i: usize = 0;
    while i < methods.len()
        invariant
            i <= methods@.len(),
            names == spec_method_names(methods@),
            forall|j: int| 0 <= j < i ==> #[trigger] names[j] != name@,
        decreases methods@.len() - i,
    {
        if bytes_eq(methods[i].as_bytes(), name) {
            assert(names[i as int] == name@);
            return true;
        }
        assert(names[i as int] != name@);
        i += 1;
    }
    false
}

/// Adds the methods that the comma-separated list `list` names to `methods`.
fn parse_method_list(list: &[u8], methods: &mut Vec<Method>) -> (res: bool)
    requires
        spec_is_method_list_part(spec_method_names(old(methods)@)),
        list@.len() <= MAX_HEADER_VALUE_LENGTH,
    ensures
        res <==> spec_parse_method_list(list@, spec_method_names(old(methods)@)) is Some,
        res ==> Some(spec_method_names(final(methods)@)) == spec_parse_method_list(
            list@,
            spec_method_names(old(methods)@),
        ),
        res ==> spec_is_method_list(spec_method_names(final(methods)@)),
{
    let ghost expected = spec_parse_method_list(list@, spec_method_names(methods@));
    let mut start: usize = 0;
    assert(list@.skip(0) =~= list@);
    loop
        invariant
            start <= list@.len() <= MAX_HEADER_VALUE_LENGTH,
            expected == spec_parse_method_list(list@, spec_method_names(old(methods)@)),
            expected == spec_parse_method_list(
                list@.skip(start as int),
                spec_method_names(methods@),
            ),
            spec_is_method_list_part(spec_method_names(methods@)),
        decreases list@.len() - start,
    {
        let rest = slice_subrange(list, start, list.len());
        assert(rest@ == list@.skip(start as int));
        let comma = index_of(rest, 0x2c);
        let name = trim_whitespace(slice_subrange(rest, 0, comma));
        assert(name@ == spec_trim_whitespace(rest@.take(comma as int)));
        proof {
            lemma_trim_is_trimmed(rest@.take(comma as int));
        }
        let ghost before = spec_method_names(methods@);
        match Method::try_from(name) {
            Ok(method) => {
                if !holds(methods, name) {
                    methods.push(method);
                    assert(spec_method_names(methods@) =~= before.push(name@));
                }
                assert(spec_method_names(methods@) == spec_add_method(before, name@));
            },
            Err(_) => {
                return false;
            },
        }
        if comma < rest.len() {
            assert(rest@.skip(comma + 1) =~= list@.skip(start + comma + 1));
            start = start + comma + 1;
        } else {
            return true;
        }
    }
}

/// Whether `names` is a list of methods that may still be empty.
pub open spec fn spec_is_method_list_part(names: Seq<Seq<u8>>) -> bool {
    names.len() == 0 || spec_is_method_list(names)
}

impl Public {
    /// The invariant of the type: the methods are a list of methods as the
    /// header holds it.
    #[verifier::type_invariant]
    closed spec fn inv(self) -> bool {
        spec_is_method_list(spec_method_names(self.methods@))
    }

    /// Creates the header for `methods`. There must be one method at least,
    /// every name must be a token that fits a header value, and no method may
    /// occur twice.
    pub fn try_from(methods: Vec<Method>) -> (res: Result<Public, InvalidTypedHeader>)
        ensures
            res is Ok <==> spec_is_method_list(spec_method_names(methods@)),
            res matches Ok(header) ==> header.wf() && header@ == spec_method_names(methods@),
    {
        let ghost names = spec_method_names(methods@);
        if methods.len() == 0 {
            return Err(InvalidTypedHeader);
        }
        let mut i: usize = 0;
        while i < methods.len()
            invariant
                i <= methods@.len(),
                names == spec_method_names(methods@),
                forall|k: int|
                    0 <= k < i ==> spec_is_token(#[trigger] names[k]) && names[k].len()
                        <= MAX_HEADER_VALUE_LENGTH,
                forall|a: int, b: int| 0 <= a < b < i ==> #[trigger] names[a] != #[trigger] names[b],
            decreases methods@.len() - i,
        {
            let name = methods[i].as_bytes();
            assert(names[i as int] == name@);
            if name.len() > MAX_HEADER_VALUE_LENGTH || !is_token(name) {
                return Err(InvalidTypedHeader);
            }
            let mut k: usize = 0;
            while k < i
                invariant
                    k <= i < methods@.len(),
                    names == spec_method_names(methods@),
                    name@ == names[i as int],
                    forall|a: int| 0 <= a < k ==> #[trigger] names[a] != names[i as int],
                decreases i - k,
            {
                if bytes_eq(methods[k].as_bytes(), name) {
                    assert(names[k as int] == names[i as int]);
                    return Err(InvalidTypedHeader);
                }
                assert(names[k as int] != names[i as int]);
                k += 1;
            }
            i += 1;
        }
        Ok(Public { methods })
    }

    /// Returns the methods of the header, in order.
    pub fn methods(&self) -> (res: &[Method])
        ensures
            spec_method_names(res@) == self@,
    {
        self.methods.as_slice()
    }

    /// Decides whether the header lists `method`.
    pub fn contains(&self, method: &Method) -> (res: bool)
        ensures
            res == self@.contains(method@),
    {
        holds(&self.methods, method.as_bytes())
    }
}

impl TypedHeader for Public {
    open spec fn wf(&self) -> bool {
        spec_is_method_list(self@)
    }

    open spec fn spec_header_name() -> HeaderName {
        HeaderName::Public
    }

    /// One value for each method: its name.
    open spec fn spec_to_header_raw(value: Seq<Seq<u8>>) -> Seq<Seq<u8>> {
        value
    }

    /// One or more values, each a comma-separated list of methods. The header
    /// holds the methods of all lists, each once.
    open spec fn spec_try_from_header_raw(header: Seq<Seq<u8>>) -> Option<Seq<Seq<u8>>> {
        if header.len() == 0 {
            None
        } else {
            spec_parse_method_lists(header, Seq::empty())
        }
    }

    /// Returns the statically assigned `HeaderName` for this header.
    fn header_name() -> (res: HeaderName) {
        HeaderName::Public
    }

    /// Converts the `Public` type to raw header values.
    fn to_header_raw(&self) -> (res: Vec<HeaderValue>) {
        proof {
            use_type_invariant(self);
        }
        let mut res: Vec<HeaderValue> = Vec::with_capacity(self.methods.len());
        let mut i: usize = 0;
        while i < self.methods.len()
            invariant
                i <= self.methods@.len(),
                self.wf(),
                res@.len() == i,
                forall|k: int| 0 <= k < i ==> (#[trigger] res@[k])@ == self@[k],
                forall|k: int| 0 <= k < i ==> (#[trigger] res@[k]).wf(),
            decreases self.methods@.len() - i,
        {
            let name = bytes_to_vec(self.methods[i].as_bytes());
            proof {
                assert(name@ == self@[i as int]);
                lemma_token_is_value(name@);
            }
            res.push(HeaderValue::from_valid(name));
            i += 1;
        }
        assert(spec_values_view(res@) =~= self@);
        res
    }

    /// Converts the raw header values to the `Public` header type. Based on
    /// the syntax provided by
    /// [RFC7826](https://tools.ietf.org/html/rfc7826#section-20), this header
    /// has the following syntax:
    ///
    /// ```text
    /// Public = "Public" HCOLON Method *(COMMA Method)
    /// ```
    fn try_from_header_raw(header: &[HeaderValue]) -> (res: Result<Self, InvalidTypedHeader>) {
        if header.len() == 0 {
            return Err(InvalidTypedHeader);
        }
        let ghost lists = spec_values_view(header@);
        let mut methods: Vec<Method> = Vec::new();
        let mut i: usize = 0;
        assert(lists.skip(0) =~= lists);
        assert(spec_method_names(methods@) =~= Seq::<Seq<u8>>::empty());
        while i < header.len()
            invariant
                0 < header@.len(),
                i <= header@.len(),
                lists == spec_values_view(header@),
                spec_parse_method_lists(lists, Seq::empty()) == spec_parse_method_lists(
                    lists.skip(i as int),
                    spec_method_names(methods@),
                ),
                spec_is_method_list_part(spec_method_names(methods@)),
                i > 0 ==> spec_is_method_list(spec_method_names(methods@)),
            decreases header@.len() - i,
        {
            let list = header[i].as_bytes();
            assert(lists.skip(i as int)[0] == list@);
            assert(lists.skip(i as int).skip(1) =~= lists.skip(i + 1));
            if list.len() > MAX_HEADER_VALUE_LENGTH || !parse_method_list(list, &mut methods) {
                return Err(InvalidTypedHeader);
            }
            i += 1;
        }
        assert(lists.skip(lists.len() as int) =~= Seq::<Seq<u8>>::empty());
        Ok(Public { methods })
    }

    proof fn lemma_round_trip(&self) {
        let names = self@;
        assert(names.take(0) =~= Seq::<Seq<u8>>::empty());
        assert(names.skip(0) =~= names);
        lemma_parse_names(names, 0);
    }
}

/// A token that fits a header value is a header value.
pub proof fn lemma_token_is_value(name: Seq<u8>)
    requires
        spec_is_token(name),
        name.len() <= MAX_HEADER_VALUE_LENGTH,
    ensures
        spec_is_valid_value(name),
{
    assert forall|i: int| 0 <= i < name.len() implies #[trigger] spec_value_byte_ok(name, i) by {
        assert(spec_is_token_char(name[i]));
    }
}

/// Reading the names of a list of methods, one name a value, from the name
/// at `from` on, with the names before it already read, gives the list.
proof fn lemma_parse_names(names: Seq<Seq<u8>>, from: int)
    requires
        spec_is_method_list(names),
        0 <= from <= names.len(),
    ensures
        spec_parse_method_lists(names.skip(from), names.take(from)) == Some(names),
    decreases names.len() - from,
{
    let rest = names.skip(from);
    let read = names.take(from);
    if from == names.len() {
        assert(read =~= names);
    } else {
        let name = names[from];
        assert(rest[0] == name);
        lemma_token_has_no_separator(name);
        assert(name.take(name.len() as int) =~= name);
        assert(!read.contains(name)) by {
            if read.contains(name) {
                let k = choose|k: int| 0 <= k < read.len() && read[k] == name;
                assert(names[k] == names[from]);
            }
        }
        assert(spec_parse_method_list(name, read) == Some(read.push(name)));
        assert(read.push(name) =~= names.take(from + 1));
        assert(rest.skip(1) =~= names.skip(from + 1));
        lemma_parse_names(names, from + 1);
    }
}

} // verus!
