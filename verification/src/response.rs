//! RTSP Response Types
//!
//! This module contains structs related to RTSP responses, notably the
//! `Response` type itself as well as a builder to create responses.

use vstd::prelude::*;

use crate::header::map::{spec_append, spec_map_wf, spec_set, spec_values_view, HeaderMapView};
use crate::header::name::{lemma_parsed_view, spec_is_valid_name, spec_name_view, HeaderName};
use crate::header::typed_map::{Headers, TypedHeaderMap};
use crate::header::types::TypedHeader;
use crate::header::value::{spec_is_valid_value, HeaderValue};
use crate::header::HeaderMap;
use crate::reason::{spec_is_reason_phrase, ReasonPhrase};
use crate::status::{spec_canonical_reason_of, spec_is_standard_code, StatusCode};
use crate::version::Version;

verus! {

/// What a response says: its status line, its headers as raw header values,
/// and its body.
pub struct ResponseView<B> {
    /// The protocol version.
    pub version: Version,
    /// The number of the status code.
    pub status: u16,
    /// The reason phrase.
    pub reason: Seq<u8>,
    /// The headers.
    pub headers: HeaderMapView,
    /// The body.
    pub body: B,
}

/// Represents an RTSP response.
///
/// An RTSP response consists of a header and a, potentially empty, body. The
/// body component is generic, enabling arbitrary types to represent the RTSP
/// body.
///
/// Note that it is not necessary to ever set the `Content-Length` header as
/// it will be forcibly set during encoding even if it is already present.
#[derive(Clone, Debug, PartialEq, Eq)]
pub struct Response<B, H = HeaderMap> where H: Headers {
    /// The body component of the response.
    body: B,
    /// Specifies a reason phrase for the given status code. RTSP allows agents
    /// to give custom reason phrases and even recommends it in specific cases.
    reason_phrase: ReasonPhrase,
    /// A header map that will either be `HeaderMap` or `TypedHeaderMap`.
    headers: H,
    /// The status code of the response.
    status_code: StatusCode,
    /// The protocol version that is being used.
    version: Version,
}

/// Alias for a response using typed headers.
pub type TypedResponse<B> = Response<B, TypedHeaderMap>;

impl<B, H: Headers> View for Response<B, H> {
    type V = ResponseView<B>;

    closed spec fn view(&self) -> ResponseView<B> {
        ResponseView {
            version: self.version,
            status: self.status_code@,
            reason: self.reason_phrase@,
            headers: self.headers.raw(),
            body: self.body,
        }
    }
}

impl<B> ResponseView<B> {
    /// Whether this is what a valid response says: the version is RTSP 2.0,
    /// the status code is in the range of status codes, the reason phrase is
    /// one and the headers are well-formed.
    pub open spec fn wf(self) -> bool {
        &&& self.version == Version::RTSP20
        &&& 100 <= self.status <= 599
        &&& spec_is_reason_phrase(self.reason)
        &&& spec_map_wf(self.headers)
    }
}

impl Response<()> {
    /// Constructs a new builder that uses untyped headers.
    pub fn builder() -> (res: Builder)
        ensures
            res@ == BuilderView::new(),
    {
        Builder::new()
    }

    /// Constructs a new builder that uses typed headers.
    pub fn typed_builder() -> (res: Builder<TypedHeaderMap>)
        ensures
            res@ == BuilderView::new(),
    {
        Builder::new()
    }
}

impl<B, H: Headers> Response<B, H> {
    /// Well-formedness: the response is a valid one. It holds of every
    /// response that a builder returns.
    pub open spec fn wf(&self) -> bool {
        self@.wf()
    }

    /// Puts a response together from version, status code, reason phrase,
    /// headers and body.
    pub fn from_parts(
        version: Version,
        status_code: StatusCode,
        reason_phrase: ReasonPhrase,
        headers: H,
        body: B,
    ) -> (res: Response<B, H>)
        ensures
            res@ == (ResponseView {
                version,
                status: status_code@,
                reason: reason_phrase@,
                headers: headers.raw(),
                body,
            }),
    {
        Response { body, reason_phrase, headers, status_code, version }
    }

    /// Returns an immutable reference to the response body.
    pub fn body(&self) -> (res: &B)
        ensures
            *res == self@.body,
    {
        &self.body
    }

    /// Returns a mutable reference to the response body. To change the type
    /// of the body, use the `map` function.
    pub fn body_mut(&mut self) -> (res: &mut B)
        ensures
            *res == old(self)@.body,
            final(self)@ == (ResponseView { body: *final(res), ..old(self)@ }),
    {
        &mut self.body
    }

    /// Returns an immutable reference to the response header map.
    pub fn headers(&self) -> (res: &H)
        ensures
            res.raw() == self@.headers,
    {
        &self.headers
    }

    /// Returns a mutable reference to the response header map.
    pub fn headers_mut(&mut self) -> (res: &mut H)
        ensures
            res.raw() == old(self)@.headers,
            final(self)@ == (ResponseView { headers: final(res).raw(), ..old(self)@ }),
    {
        &mut self.headers
    }

    /// Maps the body of this response to a new type `T` using the provided
    /// function.
    pub fn map<T, F>(self, mut mapper: F) -> (res: Response<T, H>) where F: FnMut(B) -> T
        requires
            mapper.requires((self@.body,)),
        ensures
            mapper.ensures((self@.body,), res@.body),
            res@.version == self@.version,
            res@.status == self@.status,
            res@.reason == self@.reason,
            res@.headers == self@.headers,
    {
        Response {
            body: mapper(self.body),
            headers: self.headers,
            reason_phrase: self.reason_phrase,
            status_code: self.status_code,
            version: self.version,
        }
    }

    /// Returns an immutable reference to the response reason.
    pub fn reason(&self) -> (res: &ReasonPhrase)
        ensures
            res@ == self@.reason,
    {
        &self.reason_phrase
    }

    /// Returns a mutable reference to the response reason.
    pub fn reason_mut(&mut self) -> (res: &mut ReasonPhrase)
        ensures
            res@ == old(self)@.reason,
            final(self)@ == (ResponseView { reason: final(res)@, ..old(self)@ }),
    {
        &mut self.reason_phrase
    }

    /// Returns a copy of the response status code.
    pub fn status_code(&self) -> (res: StatusCode)
        ensures
            res@ == self@.status,
    {
        self.status_code
    }

    /// Returns a mutable reference to the response status code.
    pub fn status_code_mut(&mut self) -> (res: &mut StatusCode)
        ensures
            res@ == old(self)@.status,
            final(self)@ == (ResponseView { status: final(res)@, ..old(self)@ }),
    {
        &mut self.status_code
    }

    /// Returns a copy of the response version.
    pub fn version(&self) -> (res: Version)
        ensures
            res == self@.version,
    {
        self.version
    }

    /// Returns a mutable reference to the response version.
    pub fn version_mut(&mut self) -> (res: &mut Version)
        ensures
            *res == old(self)@.version,
            final(self)@ == (ResponseView { version: *final(res), ..old(self)@ }),
    {
        &mut self.version
    }

    /// Takes the response apart into version, status code, reason phrase,
    /// headers and body.
    pub fn into_parts(self) -> (res: (Version, StatusCode, ReasonPhrase, H, B))
        ensures
            res.0 == self@.version,
            res.1@ == self@.status,
            res.2@ == self@.reason,
            res.3.raw() == self@.headers,
            res.4 == self@.body,
    {
        (self.version, self.status_code, self.reason_phrase, self.headers, self.body)
    }
}

impl<B> Response<B, HeaderMap> {
    /// Converts the response from using untyped headers to typed headers.
    pub fn into_typed(self) -> (res: Response<B, TypedHeaderMap>)
        ensures
            res@ == self@,
    {
        Response {
            body: self.body,
            headers: TypedHeaderMap::from_untyped(self.headers),
            reason_phrase: self.reason_phrase,
            status_code: self.status_code,
            version: self.version,
        }
    }
}

impl<B> Response<B, TypedHeaderMap> {
    /// Converts the response from using typed headers to untyped headers.
    pub fn into_untyped(self) -> (res: Response<B, HeaderMap>)
        ensures
            res@ == self@,
    {
        Response {
            body: self.body,
            headers: self.headers.into_untyped(),
            reason_phrase: self.reason_phrase,
            status_code: self.status_code,
            version: self.version,
        }
    }
}

/// The views of a sequence of byte strings.
pub open spec fn spec_bytes_view(values: Seq<Vec<u8>>) -> Seq<Seq<u8>> {
    Seq::new(values.len(), |i: int| values[i]@)
}

/// What a response builder holds.
pub struct BuilderView {
    /// The custom reason phrase, where one is set.
    pub custom_reason_phrase: Option<Seq<u8>>,
    /// The first error that a setter met, if any.
    pub error: Option<BuilderError>,
    /// The headers, as raw header values.
    pub headers: HeaderMapView,
    /// The number of the status code.
    pub status_code: u16,
    /// The protocol version.
    pub version: Version,
}

impl BuilderView {
    /// What a new builder holds: no custom reason phrase, no error, no
    /// header, the status code 200 and the version RTSP 2.0.
    pub open spec fn new() -> BuilderView {
        BuilderView {
            custom_reason_phrase: None,
            error: None,
            headers: HeaderMapView::empty(),
            status_code: 200,
            version: Version::RTSP20,
        }
    }

    /// The builder after a setter met the error `error`: the first error
    /// stays.
    pub open spec fn with_error(self, error: BuilderError) -> BuilderView {
        BuilderView { error: Some(self.error.unwrap_or(error)), ..self }
    }

    /// The builder after the reason phrase was set to `reason`: with none,
    /// the custom reason phrase is unset; with a reason phrase, it is set;
    /// with bytes that are no reason phrase, the builder has met an error.
    pub open spec fn with_reason(self, reason: Option<Seq<u8>>) -> BuilderView {
        match reason {
            None => BuilderView { custom_reason_phrase: None, ..self },
            Some(bytes) => if spec_is_reason_phrase(bytes) {
                BuilderView { custom_reason_phrase: Some(bytes), ..self }
            } else {
                self.with_error(BuilderError::InvalidReasonPhrase)
            },
        }
    }

    /// The builder after the status code was set to `code`: the status code
    /// is set if the number is in the range of status codes; else the builder
    /// has met an error.
    pub open spec fn with_status_code(self, code: u16) -> BuilderView {
        if 100 <= code <= 599 {
            BuilderView { status_code: code, ..self }
        } else {
            self.with_error(BuilderError::InvalidStatusCode)
        }
    }

    /// The builder after the version was set to `version`: nothing changes if
    /// it is RTSP 2.0; else the builder has met an error, for a version that
    /// is not supported or for bytes that name no version.
    pub open spec fn with_version(self, version: Seq<u8>) -> BuilderView {
        match Version::spec_try_from(version) {
            Ok(Version::RTSP20) => BuilderView { version: Version::RTSP20, ..self },
            Ok(_) => self.with_error(BuilderError::UnsupportedVersion),
            Err(_) => self.with_error(BuilderError::InvalidVersion),
        }
    }

    /// The builder after the header `name` with the value `value` was
    /// appended: the header is appended if the name and the value are valid;
    /// else the builder has met an error.
    pub open spec fn with_header(self, name: Seq<u8>, value: Seq<u8>) -> BuilderView {
        if !spec_is_valid_name(name) {
            self.with_error(BuilderError::InvalidHeaderName)
        } else if !spec_is_valid_value(value) {
            self.with_error(BuilderError::InvalidHeaderValue)
        } else {
            BuilderView { headers: spec_append(self.headers, spec_name_view(name), value), ..self }
        }
    }

    /// The builder after the values of the header `name` were set to
    /// `values`: they are set if the name and all values are valid; else the
    /// builder has met an error.
    pub open spec fn with_header_raw(self, name: Seq<u8>, values: Seq<Seq<u8>>) -> BuilderView {
        if !spec_is_valid_name(name) {
            self.with_error(BuilderError::InvalidHeaderName)
        } else if exists|i: int| 0 <= i < values.len() && !spec_is_valid_value(#[trigger] values[i]) {
            self.with_error(BuilderError::InvalidHeaderValue)
        } else {
            BuilderView { headers: spec_set(self.headers, spec_name_view(name), values), ..self }
        }
    }

    /// Whether the builder lacks the reason phrase that it needs: its status
    /// code is an extension status code and no custom reason phrase is set.
    pub open spec fn lacks_reason(self) -> bool {
        !spec_is_standard_code(self.status_code) && self.custom_reason_phrase is None
    }

    /// What `build` returns for a body `body`: the first error that a setter
    /// met; else an error for a missing reason phrase; else the response. The
    /// reason phrase of the response is the custom reason phrase for an
    /// extension status code, and the canonical reason phrase of the status
    /// code for any other.
    pub open spec fn build<B>(self, body: B) -> Result<ResponseView<B>, BuilderError> {
        if self.error is Some {
            Err(self.error->Some_0)
        } else if self.lacks_reason() {
            Err(BuilderError::MissingReasonPhrase)
        } else {
            Ok(
                ResponseView {
                    version: self.version,
                    status: self.status_code,
                    reason: if spec_is_standard_code(self.status_code) {
                        spec_canonical_reason_of(self.status_code)
                    } else {
                        self.custom_reason_phrase->Some_0
                    },
                    headers: self.headers,
                    body,
                },
            )
        }
    }

    /// What a builder holds after `build`: a builder that returned an error
    /// stays as it is; else the headers are taken out, and so is the custom
    /// reason phrase where it went into the response.
    pub open spec fn after_build(self) -> BuilderView {
        if self.error is Some || self.lacks_reason() {
            self
        } else {
            BuilderView {
                headers: HeaderMapView::empty(),
                custom_reason_phrase: if spec_is_standard_code(self.status_code) {
                    self.custom_reason_phrase
                } else {
                    None
                },
                ..self
            }
        }
    }

    /// Whether a builder with these contents builds valid responses: what it
    /// holds is valid.
    pub open spec fn wf(self) -> bool {
        &&& self.custom_reason_phrase matches Some(reason) ==> spec_is_reason_phrase(reason)
        &&& 100 <= self.status_code <= 599
        &&& self.version == Version::RTSP20
        &&& spec_map_wf(self.headers)
    }
}

/// An RTSP response builder
///
/// This type can be used to construct a `Response` through a builder-like
/// pattern.
#[derive(Clone, Debug)]
pub struct Builder<H = HeaderMap> where H: Headers {
    /// Specifies a custom reason phrase for the given status code. It goes
    /// into the response where the status code is an extension status code.
    pub(crate) custom_reason_phrase: Option<ReasonPhrase>,
    /// A stored error used when making a `Response`.
    pub(crate) error: Option<BuilderError>,
    /// A header map that will either be `HeaderMap` or `TypedHeaderMap`.
    pub(crate) headers: H,
    /// The status code of the response.
    pub(crate) status_code: StatusCode,
    /// The protocol version that is being used.
    pub(crate) version: Version,
}

impl<H: Headers> View for Builder<H> {
    type V = BuilderView;

    closed spec fn view(&self) -> BuilderView {
        BuilderView {
            custom_reason_phrase: match self.custom_reason_phrase {
                Some(reason) => Some(reason@),
                None => None,
            },
            error: self.error,
            headers: self.headers.raw(),
            status_code: self.status_code@,
            version: self.version,
        }
    }
}

impl<H: Headers> Builder<H> {
    /// Creates a new default instance of a `Builder` to construct a
    /// `Response`.
    pub fn new() -> (res: Builder<H>)
        ensures
            res@ == BuilderView::new(),
    {
        Builder {
            custom_reason_phrase: None,
            error: None,
            headers: H::empty(),
            status_code: StatusCode::OK,
            version: Version::RTSP20,
        }
    }

    /// Records `error`, unless an earlier error is recorded already.
    fn fail(&mut self, error: BuilderError)
        ensures
            final(self)@ == old(self)@.with_error(error),
    {
        if self.error.is_none() {
            self.error = Some(error);
        }
    }

    /// Constructs a `Response` by using the given body. Note that this
    /// function does not consume the builder, allowing you to construct
    /// responses with different bodies with the same builder, but all of the
    /// fields will be reset.
    ///
    /// # Errors
    ///
    /// An error will be returned if part of the response is invalid: the first
    /// error that a setter met, or else an error for an extension status code
    /// without a reason phrase.
    pub fn build<B>(&mut self, body: B) -> (res: Result<Response<B, H>, BuilderError>)
        ensures
            match old(self)@.build(body) {
                Ok(response) => res matches Ok(built) && built@ == response,
                Err(error) => res == Err::<Response<B, H>, BuilderError>(error),
            },
            final(self)@ == old(self)@.after_build(),
            old(self)@.wf() ==> (res matches Ok(built) ==> built.wf()),
    {
        if let Some(error) = self.error {
            return Err(error);
        }
        let reason_phrase = match self.status_code.canonical_reason() {
            Some(reason) => reason,
            None => match self.custom_reason_phrase.take() {
                Some(reason) => reason,
                None => {
                    return Err(BuilderError::MissingReasonPhrase);
                },
            },
        };
        let mut headers = H::empty();
        std::mem::swap(&mut self.headers, &mut headers);
        Ok(
            Response {
                body,
                headers,
                reason_phrase,
                status_code: self.status_code,
                version: self.version,
            },
        )
    }

    /// Set the reason phrase for this response.
    ///
    /// # Errors
    ///
    /// An error will be stored if the given reason phrase is `Some(bytes)`
    /// where `bytes` is an invalid `ReasonPhrase`. Note that if a extension
    /// status code is specified, you *must* specify a reason phrase or an
    /// error will be returned during the `build` function.
    pub fn reason(&mut self, reason_phrase: Option<&[u8]>) -> (res: &mut Self)
        ensures
            res@ == old(self)@.with_reason(
                match reason_phrase {
                    Some(bytes) => Some(bytes@),
                    None => None,
                },
            ),
            *final(self) == *final(res),
    {
        if let Some(custom_reason_phrase) = reason_phrase {
            match ReasonPhrase::try_from(custom_reason_phrase) {
                Ok(custom_reason_phrase) => self.custom_reason_phrase = Some(custom_reason_phrase),
                Err(_) => self.fail(BuilderError::InvalidReasonPhrase),
            }
        } else {
            self.custom_reason_phrase = None;
        }
        self
    }

    /// Set the status code for this response.
    ///
    /// The default value for the status code is 200.
    ///
    /// # Errors
    ///
    /// An error will be stored if the given status code is an invalid
    /// `StatusCode`.
    pub fn status_code(&mut self, status_code: u16) -> (res: &mut Self)
        ensures
            res@ == old(self)@.with_status_code(status_code),
            *final(self) == *final(res),
    {
        match StatusCode::try_from(status_code) {
            Ok(status_code) => self.status_code = status_code,
            Err(_) => self.fail(BuilderError::InvalidStatusCode),
        }
        self
    }

    /// Set the RTSP version for this response.
    ///
    /// The default value for the version is RTSP/2.0.
    ///
    /// # Errors
    ///
    /// An error will be stored if the given version is an invalid or
    /// unsupported `Version`. Currently the only supported version is
    /// RTSP/2.0.
    pub fn version(&mut self, version: &[u8]) -> (res: &mut Self)
        ensures
            res@ == old(self)@.with_version(version@),
            *final(self) == *final(res),
    {
        match Version::try_from(version) {
            Ok(Version::RTSP20) => self.version = Version::RTSP20,
            Ok(_) => self.fail(BuilderError::UnsupportedVersion),
            Err(_) => self.fail(BuilderError::InvalidVersion),
        }
        self
    }
}

impl Builder<HeaderMap> {
    /// Appends a header to this response.
    ///
    /// This function will append the provided key/value as a header to the
    /// internal `HeaderMap` being constructed. Essentially, this is
    /// equivalent to calling `HeaderMap::append`. Because of this, you are
    /// able to add a given header multiple times.
    ///
    /// By default, the response contains no headers.
    ///
    /// # Errors
    ///
    /// An error will be stored if the given name is an invalid `HeaderName`,
    /// or the given value is an invalid `HeaderValue`.
    pub fn header(&mut self, name: &[u8], value: &[u8]) -> (res: &mut Self)
        ensures
            res@ == old(self)@.with_header(name@, value@),
            *final(self) == *final(res),
    {
        let ghost name_bytes = name@;
        match HeaderName::try_from(name) {
            Ok(name) => match HeaderValue::try_from(value) {
                Ok(value) => {
                    proof {
                        lemma_parsed_view(name_bytes, name);
                    }
                    self.headers.append(name, value);
                },
                Err(_) => self.fail(BuilderError::InvalidHeaderValue),
            },
            Err(_) => self.fail(BuilderError::InvalidHeaderName),
        }
        self
    }

    /// Converts this builder into a builder that contains typed headers.
    pub fn into_typed(self) -> (res: Builder<TypedHeaderMap>)
        ensures
            res@ == self@,
    {
        Builder {
            custom_reason_phrase: self.custom_reason_phrase,
            error: self.error,
            headers: TypedHeaderMap::from_untyped(self.headers),
            status_code: self.status_code,
            version: self.version,
        }
    }
}

/// Converts byte strings to header values, unless one of them is not a
/// header value.
fn header_values(values: &Vec<Vec<u8>>) -> (res: Option<Vec<HeaderValue>>)
    ensures
        res is Some <==> forall|i: int|
            0 <= i < values@.len() ==> spec_is_valid_value(#[trigger] spec_bytes_view(values@)[i]),
        res matches Some(converted) ==> spec_values_view(converted@) == spec_bytes_view(values@)
            && forall|k: int| 0 <= k < converted@.len() ==> (#[trigger] converted@[k]).wf(),
{
    let ghost views = spec_bytes_view(values@);
    let mut converted: Vec<HeaderValue> = Vec::with_capacity(values.len());
    let mut i: usize = 0;
    while i < values.len()
        invariant
            i <= values@.len(),
            views == spec_bytes_view(values@),
            converted@.len() == i,
            forall|k: int| 0 <= k < i ==> (#[trigger] converted@[k])@ == views[k],
            forall|k: int| 0 <= k < i ==> (#[trigger] converted@[k]).wf(),
            forall|k: int| 0 <= k < i ==> spec_is_valid_value(#[trigger] views[k]),
        decreases values@.len() - i,
    {
        match HeaderValue::try_from(values[i].as_slice()) {
            Ok(value) => converted.push(value),
            Err(_) => {
                assert(!spec_is_valid_value(views[i as int]));
                return None;
            },
        }
        i += 1;
    }
    assert(spec_values_view(converted@) =~= views);
    Some(converted)
}

impl Builder<TypedHeaderMap> {
    /// Sets a typed header for this response.
    ///
    /// By default, the response contains no headers.
    ///
    /// # Errors
    ///
    /// Since typed headers are used here, this function cannot produce an
    /// error for the builder.
    pub fn header<T: TypedHeader>(&mut self, header: T) -> (res: &mut Self)
        ensures
            res@ == (BuilderView {
                headers: spec_set(
                    old(self)@.headers,
                    T::spec_header_name()@,
                    T::spec_to_header_raw(header@),
                ),
                ..old(self)@
            }),
            *final(self) == *final(res),
    {
        self.headers.set(header);
        self
    }

    /// Sets a raw header for this response. This is slightly different from
    /// the untyped builder's `header` function in that setting the raw value
    /// for a previously set header will end up overwriting it.
    ///
    /// By default, the response contains no headers.
    ///
    /// # Errors
    ///
    /// An error will be stored in the builder if the given name is an invalid
    /// `HeaderName`, or the given values contains an invalid `HeaderValue`.
    pub fn header_raw(&mut self, name: &[u8], values: Vec<Vec<u8>>) -> (res: &mut Self)
        ensures
            res@ == old(self)@.with_header_raw(name@, spec_bytes_view(values@)),
            *final(self) == *final(res),
    {
        let ghost name_bytes = name@;
        match HeaderName::try_from(name) {
            Ok(name) => {
                match header_values(&values) {
                    Some(values) => {
                        proof {
                            lemma_parsed_view(name_bytes, name);
                        }
                        self.headers.set_raw(name, values);
                    },
                    None => self.fail(BuilderError::InvalidHeaderValue),
                }
            },
            Err(_) => self.fail(BuilderError::InvalidHeaderName),
        }
        self
    }

    /// Converts this builder into a builder that contains untyped headers.
    pub fn into_untyped(self) -> (res: Builder<HeaderMap>)
        ensures
            res@ == self@,
    {
        Builder {
            custom_reason_phrase: self.custom_reason_phrase,
            error: self.error,
            headers: self.headers.into_untyped(),
            status_code: self.status_code,
            version: self.version,
        }
    }
}

impl<H: Headers> Default for Builder<H> {
    fn default() -> (res: Builder<H>)
        ensures
            res@ == BuilderView::new(),
    {
        Builder::new()
    }
}

/// An error type for when the response builder encounters an error.
#[derive(Clone, Copy, Debug, PartialEq, Eq, Structural, Hash)]
#[non_exhaustive]
pub enum BuilderError {
    /// This error indicates that a given header name was invalid.
    InvalidHeaderName,
    /// This error indicates that a given header value was invalid.
    InvalidHeaderValue,
    /// This error indicates that the reason phrase was invalid.
    InvalidReasonPhrase,
    /// This error indicates that the status code was invalid.
    InvalidStatusCode,
    /// This error indicates that the version was invalid.
    InvalidVersion,
    /// This error indicates that an extension status code was given, but a
    /// corresponding reason phrase was not given. There is no default reason
    /// phrase to use for extensions, so one must be specified.
    MissingReasonPhrase,
    /// This error indicates that the version was unsupported. The only
    /// supported version is RTSP 2.0.
    UnsupportedVersion,
}

impl BuilderError {
    /// A short description of the error.
    pub fn description(&self) -> (res: &'static str)
        ensures
            res@ == (match self {
                BuilderError::InvalidHeaderName => "invalid RTSP header name"@,
                BuilderError::InvalidHeaderValue => "invalid RTSP header value"@,
                BuilderError::InvalidReasonPhrase => "invalid RTSP reason phrase"@,
                BuilderError::InvalidStatusCode => "invalid RTSP status code"@,
                BuilderError::InvalidVersion => "invalid RTSP version"@,
                BuilderError::MissingReasonPhrase => "missing RTSP reason phrase"@,
                BuilderError::UnsupportedVersion => "unsupported RTSP version"@,
            }),
    {
        match self {
            BuilderError::InvalidHeaderName => "invalid RTSP header name",
            BuilderError::InvalidHeaderValue => "invalid RTSP header value",
            BuilderError::InvalidReasonPhrase => "invalid RTSP reason phrase",
            BuilderError::InvalidStatusCode => "invalid RTSP status code",
            BuilderError::InvalidVersion => "invalid RTSP version",
            BuilderError::MissingReasonPhrase => "missing RTSP reason phrase",
            BuilderError::UnsupportedVersion => "unsupported RTSP version",
        }
    }
}

} // verus!
