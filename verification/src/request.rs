//! RTSP Request Types
//!
//! This module contains structs related to RTSP requests, notably the
//! `Request` type itself as well as a builder to create requests.

use vstd::prelude::*;

use crate::header::map::{spec_append, spec_map_wf, spec_set, spec_values_view, HeaderMapView};
use crate::header::name::{lemma_parsed_view, spec_is_valid_name, spec_name_view, HeaderName};
use crate::header::typed_map::{Headers, TypedHeaderMap};
use crate::header::types::TypedHeader;
use crate::header::value::{spec_is_valid_value, HeaderValue};
use crate::header::HeaderMap;
use crate::method::Method;
use crate::syntax::spec_is_token;
use crate::uri::{spec_is_request_uri, RequestURIField};
use crate::version::Version;

verus! {

/// What a request says: its request line, its headers as raw header values,
/// and its body.
pub struct RequestView<B> {
    /// The name of the method.
    pub method: Seq<u8>,
    /// The request URI as it is written on the wire.
    pub uri: Seq<u8>,
    /// The protocol version.
    pub version: Version,
    /// The headers.
    pub headers: HeaderMapView,
    /// The body.
    pub body: B,
}

/// Represents an RTSP request.
///
/// An RTSP request consists of a header and a, potentially empty, body. The
/// body component is generic, enabling arbitrary types to represent the RTSP
/// body.
///
/// Note that it is not necessary to ever set the `Content-Length` header as
/// it will be forcibly set during encoding even if it is already present.
#[derive(Clone, Debug, PartialEq, Eq)]
pub struct Request<B, H = HeaderMap> where H: Headers {
    /// The body component of the request.
    body: B,
    /// A header map that will either be `HeaderMap` or `TypedHeaderMap`.
    headers: H,
    /// The RTSP method to be applied to the resource.
    method: Method,
    /// The absolute RTSP request URI for the target resource, or `*` where the
    /// request does not apply to a particular resource but to the server
    /// itself.
    uri: RequestURIField,
    /// The protocol version that is being used.
    version: Version,
}

/// Alias for a request using typed headers.
pub type TypedRequest<B> = Request<B, TypedHeaderMap>;

impl<B, H: Headers> View for Request<B, H> {
    type V = RequestView<B>;

    closed spec fn view(&self) -> RequestView<B> {
        RequestView {
            method: self.method@,
            uri: self.uri@,
            version: self.version,
            headers: self.headers.raw(),
            body: self.body,
        }
    }
}

impl<B> RequestView<B> {
    /// Whether this is what a valid request says: the method is a token, the
    /// request URI is one, the version is RTSP 2.0 and the headers are
    /// well-formed.
    pub open spec fn wf(self) -> bool {
        &&& spec_is_token(self.method)
        &&& spec_is_request_uri(self.uri)
        &&& self.version == Version::RTSP20
        &&& spec_map_wf(self.headers)
    }
}

impl Request<()> {
    /// Constructs a new builder that uses untyped headers.
    pub fn builder() -> (res: Builder)
        ensures
            res@ == BuilderView::new(),
    {
        Builder::new()
    }

    /// Constructs a new builder that uses typed headers.
    pub fn typed_builder() -> (res: Builder<TypedHeaderMap>)
        ensures
            res@ == BuilderView::new(),
    {
        Builder::new()
    }

    /// A convenience function for quickly creating a new builder with the
    /// method set to `"DESCRIBE"` and the request URI field set to `uri`.
    pub fn describe(uri: &[u8]) -> (res: Builder)
        ensures
            res@ == BuilderView::new().with_method(Method::Describe@).with_uri(uri@),
    {
        Builder::with(Method::Describe, uri)
    }

    /// A convenience function for quickly creating a new builder with the
    /// method set to `"GET_PARAMETER"` and the request URI field set to `uri`.
    pub fn get_parameter(uri: &[u8]) -> (res: Builder)
        ensures
            res@ == BuilderView::new().with_method(Method::GetParameter@).with_uri(uri@),
    {
        Builder::with(Method::GetParameter, uri)
    }

    /// A convenience function for quickly creating a new builder with the
    /// method set to `"OPTIONS"` and the request URI field set to `uri`.
    pub fn options(uri: &[u8]) -> (res: Builder)
        ensures
            res@ == BuilderView::new().with_method(Method::Options@).with_uri(uri@),
    {
        Builder::with(Method::Options, uri)
    }

    /// A convenience function for quickly creating a new builder with the
    /// method set to `"PAUSE"` and the request URI set to `uri`.
    pub fn pause(uri: &[u8]) -> (res: Builder)
        ensures
            res@ == BuilderView::new().with_method(Method::Pause@).with_uri(uri@),
    {
        Builder::with(Method::Pause, uri)
    }

    /// A convenience function for quickly creating a new builder with the
    /// method set to `"PLAY"` and the request URI set to `uri`.
    pub fn play(uri: &[u8]) -> (res: Builder)
        ensures
            res@ == BuilderView::new().with_method(Method::Play@).with_uri(uri@),
    {
        Builder::with(Method::Play, uri)
    }

    /// A convenience function for quickly creating a new builder with the
    /// method set to `"PLAY_NOTIFY"` and the request URI set to `uri`.
    pub fn play_notify(uri: &[u8]) -> (res: Builder)
        ensures
            res@ == BuilderView::new().with_method(Method::PlayNotify@).with_uri(uri@),
    {
        Builder::with(Method::PlayNotify, uri)
    }

    /// A convenience function for quickly creating a new builder with the
    /// method set to `"REDIRECT"` and the request URI set to `uri`.
    pub fn redirect(uri: &[u8]) -> (res: Builder)
        ensures
            res@ == BuilderView::new().with_method(Method::Redirect@).with_uri(uri@),
    {
        Builder::with(Method::Redirect, uri)
    }

    /// A convenience function for quickly creating a new builder with the
    /// method set to `"SET_PARAMETER"` and the request URI set to `uri`.
    pub fn set_parameter(uri: &[u8]) -> (res: Builder)
        ensures
            res@ == BuilderView::new().with_method(Method::SetParameter@).with_uri(uri@),
    {
        Builder::with(Method::SetParameter, uri)
    }

    /// A convenience function for quickly creating a new builder with the
    /// method set to `"SETUP"` and the request URI set to `uri`.
    pub fn setup(uri: &[u8]) -> (res: Builder)
        ensures
            res@ == BuilderView::new().with_method(Method::Setup@).with_uri(uri@),
    {
        Builder::with(Method::Setup, uri)
    }

    /// A convenience function for quickly creating a new builder with the
    /// method set to `"TEARDOWN"` and the request URI set to `uri`.
    pub fn teardown(uri: &[u8]) -> (res: Builder)
        ensures
            res@ == BuilderView::new().with_method(Method::Teardown@).with_uri(uri@),
    {
        Builder::with(Method::Teardown, uri)
    }
}

impl<B, H: Headers> Request<B, H> {
    /// Well-formedness: the request is a valid one. It holds of every request
    /// that a builder returns.
    pub open spec fn wf(&self) -> bool {
        self@.wf()
    }

    /// Puts a request together from method, request URI, version, headers and
    /// body.
    pub fn from_parts(
        method: Method,
        uri: RequestURIField,
        version: Version,
        headers: H,
        body: B,
    ) -> (res: Request<B, H>)
        ensures
            res@ == (RequestView {
                method: method@,
                uri: uri@,
                version,
                headers: headers.raw(),
                body,
            }),
    {
        Request { body, headers, method, uri, version }
    }

    /// Returns an immutable reference to the request body.
    pub fn body(&self) -> (res: &B)
        ensures
            *res == self@.body,
    {
        &self.body
    }

    /// Returns a mutable reference to the request body. To change the type of
    /// the body, use the `map` function.
    pub fn body_mut(&mut self) -> (res: &mut B)
        ensures
            *res == old(self)@.body,
            final(self)@ == (RequestView { body: *final(res), ..old(self)@ }),
    {
        &mut self.body
    }

    /// Returns an immutable reference to the request header map.
    pub fn headers(&self) -> (res: &H)
        ensures
            res.raw() == self@.headers,
    {
        &self.headers
    }

    /// Returns a mutable reference to the request header map.
    pub fn headers_mut(&mut self) -> (res: &mut H)
        ensures
            res.raw() == old(self)@.headers,
            final(self)@ == (RequestView { headers: final(res).raw(), ..old(self)@ }),
    {
        &mut self.headers
    }

    /// Maps the body of this request to a new type `T` using the provided
    /// function.
    pub fn map<T, F>(self, mut mapper: F) -> (res: Request<T, H>) where F: FnMut(B) -> T
        requires
            mapper.requires((self@.body,)),
        ensures
            mapper.ensures((self@.body,), res@.body),
            res@.method == self@.method,
            res@.uri == self@.uri,
            res@.version == self@.version,
            res@.headers == self@.headers,
    {
        Request {
            body: mapper(self.body),
            headers: self.headers,
            method: self.method,
            uri: self.uri,
            version: self.version,
        }
    }

    /// Returns an immutable reference to the request method.
    pub fn method(&self) -> (res: &Method)
        ensures
            res@ == self@.method,
    {
        &self.method
    }

    /// Returns a mutable reference to the request method.
    pub fn method_mut(&mut self) -> (res: &mut Method)
        ensures
            res@ == old(self)@.method,
            final(self)@ == (RequestView { method: final(res)@, ..old(self)@ }),
    {
        &mut self.method
    }

    /// Returns an immutable reference to the request URI.
    pub fn uri(&self) -> (res: &RequestURIField)
        ensures
            res@ == self@.uri,
    {
        &self.uri
    }

    /// Returns a mutable reference to the request URI.
    pub fn uri_mut(&mut self) -> (res: &mut RequestURIField)
        ensures
            res@ == old(self)@.uri,
            final(self)@ == (RequestView { uri: final(res)@, ..old(self)@ }),
    {
        &mut self.uri
    }

    /// Returns a copy of the request version.
    pub fn version(&self) -> (res: Version)
        ensures
            res == self@.version,
    {
        self.version
    }

    /// Returns a mutable reference to the request version.
    pub fn version_mut(&mut self) -> (res: &mut Version)
        ensures
            *res == old(self)@.version,
            final(self)@ == (RequestView { version: *final(res), ..old(self)@ }),
    {
        &mut self.version
    }

    /// Takes the request apart into method, request URI, version, headers and
    /// body.
    pub fn into_parts(self) -> (res: (Method, RequestURIField, Version, H, B))
        ensures
            res.0@ == self@.method,
            res.1@ == self@.uri,
            res.2 == self@.version,
            res.3.raw() == self@.headers,
            res.4 == self@.body,
    {
        (self.method, self.uri, self.version, self.headers, self.body)
    }
}

impl<B> Request<B, HeaderMap> {
    /// Converts the request from using untyped headers to typed headers.
    pub fn into_typed(self) -> (res: Request<B, TypedHeaderMap>)
        ensures
            res@ == self@,
    {
        Request {
            body: self.body,
            headers: TypedHeaderMap::from_untyped(self.headers),
            method: self.method,
            uri: self.uri,
            version: self.version,
        }
    }
}

impl<B> Request<B, TypedHeaderMap> {
    /// Converts the request from using typed headers to untyped headers.
    pub fn into_untyped(self) -> (res: Request<B, HeaderMap>)
        ensures
            res@ == self@,
    {
        Request {
            body: self.body,
            headers: self.headers.into_untyped(),
            method: self.method,
            uri: self.uri,
            version: self.version,
        }
    }
}

/// What a request builder holds.
pub struct BuilderView {
    /// The first error that a setter met, if any.
    pub error: Option<BuilderError>,
    /// The headers, as raw header values.
    pub headers: HeaderMapView,
    /// The name of the method, once it is set.
    pub method: Option<Seq<u8>>,
    /// The request URI, once it is set.
    pub uri: Option<Seq<u8>>,
    /// The protocol version.
    pub version: Version,
}

impl BuilderView {
    /// What a new builder holds: no error, no header, no method, no request
    /// URI, and the version RTSP 2.0.
    pub open spec fn new() -> BuilderView {
        BuilderView {
            error: None,
            headers: HeaderMapView::empty(),
            method: None,
            uri: None,
            version: Version::RTSP20,
        }
    }

    /// The builder after a setter met the error `error`: the first error
    /// stays.
    pub open spec fn with_error(self, error: BuilderError) -> BuilderView {
        BuilderView { error: Some(self.error.unwrap_or(error)), ..self }
    }

    /// The builder after the method was set to `method`: the method is set if
    /// it is a token; else the builder has met an error.
    pub open spec fn with_method(self, method: Seq<u8>) -> BuilderView {
        if spec_is_token(method) {
            BuilderView { method: Some(method), ..self }
        } else {
            self.with_error(BuilderError::InvalidMethod)
        }
    }

    /// The builder after the request URI was set to `uri`: the request URI is
    /// set if it is one; else the builder has met an error.
    pub open spec fn with_uri(self, uri: Seq<u8>) -> BuilderView {
        if spec_is_request_uri(uri) {
            BuilderView { uri: Some(uri), ..self }
        } else {
            self.with_error(BuilderError::InvalidRequestURI)
        }
    }

    /// The builder after the version was set to `version`: nothing changes if
    /// it is RTSP 2.0; else the builder has met an error, for a version that
    /// is not supported or for bytes that name no version.
    pub open spec fn with_version(self, version: Seq<u8>) -> BuilderView {
        match Version::spec_try_from(version) {
            Ok(Version::RTSP20) => BuilderView { version: Version::RTSP20, ..self },
            Ok(_) => self.with_error(BuilderError::UnsupportedVersion),
            Err(_) => self.with_error(BuilderError::InvalidVersion),
        }
    }

    /// The builder after the header `name` with the value `value` was
    /// appended: the header is appended if the name and the value are valid;
    /// else the builder has met an error.
    pub open spec fn with_header(self, name: Seq<u8>, value: Seq<u8>) -> BuilderView {
        if !spec_is_valid_name(name) {
            self.with_error(BuilderError::InvalidHeaderName)
        } else if !spec_is_valid_value(value) {
            self.with_error(BuilderError::InvalidHeaderValue)
        } else {
            BuilderView { headers: spec_append(self.headers, spec_name_view(name), value), ..self }
        }
    }

    /// What `build` returns for a body `body`: the first error that a setter
    /// met; else an error for a missing method or request URI; else the
    /// request.
    pub open spec fn build<B>(self, body: B) -> Result<RequestView<B>, BuilderError> {
        if self.error is Some {
            Err(self.error->Some_0)
        } else if self.method is None {
            Err(BuilderError::MissingMethod)
        } else if self.uri is None {
            Err(BuilderError::MissingRequestURI)
        } else {
            Ok(
                RequestView {
                    method: self.method->Some_0,
                    uri: self.uri->Some_0,
                    version: self.version,
                    headers: self.headers,
                    body,
                },
            )
        }
    }

    /// What a builder holds after `build`: a builder that has met an error
    /// stays as it is; else the method is taken out; and where there was a
    /// request URI too, so are the request URI and the headers.
    pub open spec fn after_build(self) -> BuilderView {
        if self.error is Some {
            self
        } else if self.method is None || self.uri is None {
            BuilderView { method: None, ..self }
        } else {
            BuilderView { method: None, uri: None, headers: HeaderMapView::empty(), ..self }
        }
    }

    /// Whether a builder with these contents builds valid requests: what it
    /// holds is valid.
    pub open spec fn wf(self) -> bool {
        &&& self.method matches Some(method) ==> spec_is_token(method)
        &&& self.uri matches Some(uri) ==> spec_is_request_uri(uri)
        &&& self.version == Version::RTSP20
        &&& spec_map_wf(self.headers)
    }
}

/// An RTSP request builder
///
/// This type can be used to construct a `Request` through a builder-like
/// pattern.
#[derive(Clone, Debug)]
pub struct Builder<H = HeaderMap> where H: Headers {
    /// A stored error used when making a `Request`.
    pub(crate) error: Option<BuilderError>,
    /// A header map that will either be `HeaderMap` or `TypedHeaderMap`.
    pub(crate) headers: H,
    /// The RTSP method to be applied to the resource.
    pub(crate) method: Option<Method>,
    /// The absolute RTSP URI for the target resource, or `*`.
    pub(crate) uri: Option<RequestURIField>,
    /// The protocol version that is being used.
    pub(crate) version: Version,
}

impl<H: Headers> View for Builder<H> {
    type V = BuilderView;

    closed spec fn view(&self) -> BuilderView {
        BuilderView {
            error: self.error,
            headers: self.headers.raw(),
            method: match self.method {
                Some(method) => Some(method@),
                None => None,
            },
            uri: match self.uri {
                Some(uri) => Some(uri@),
                None => None,
            },
            version: self.version,
        }
    }
}

impl<H: Headers> Builder<H> {
    /// Creates a new default instance of a `Builder` to construct a
    /// `Request`.
    pub fn new() -> (res: Builder<H>)
        ensures
            res@ == BuilderView::new(),
    {
        Builder { error: None, headers: H::empty(), method: None, uri: None, version: Version::RTSP20 }
    }

    /// Creates a builder with the method set to `method` and the request URI
    /// set to `uri`.
    fn with(method: Method, uri: &[u8]) -> (res: Builder<H>)
        requires
            method !is Extension,
        ensures
            res@ == BuilderView::new().with_method(method@).with_uri(uri@),
    {
        proof {
            crate::method::lemma_standard_method(method);
        }
        let mut builder = Builder::new();
        builder.method = Some(method);
        builder.uri(uri);
        builder
    }

    /// Records `error`, unless an earlier error is recorded already.
    fn fail(&mut self, error: BuilderError)
        ensures
            final(self)@ == old(self)@.with_error(error),
    {
        if self.error.is_none() {
            self.error = Some(error);
        }
    }

    /// Constructs a `Request` by using the given body. Note that this function
    /// does not consume the builder, allowing you to construct requests with
    /// different bodies with the same builder, but all of the fields will be
    /// reset.
    ///
    /// # Errors
    ///
    /// An error will be returned if part of the request is invalid: the first
    /// error that a setter met, or else an error for a method or a request URI
    /// that was not set.
    pub fn build<B>(&mut self, body: B) -> (res: Result<Request<B, H>, BuilderError>)
        ensures
            match old(self)@.build(body) {
                Ok(request) => res matches Ok(built) && built@ == request,
                Err(error) => res == Err::<Request<B, H>, BuilderError>(error),
            },
            final(self)@ == old(self)@.after_build(),
            old(self)@.wf() ==> (res matches Ok(built) ==> built.wf()),
    {
        if let Some(error) = self.error {
            return Err(error);
        }
        if let Some(method) = self.method.take() {
            if let Some(uri) = self.uri.take() {
                let mut headers = H::empty();
                std::mem::swap(&mut self.headers, &mut headers);
                Ok(Request { body, headers, method, uri, version: self.version })
            } else {
                Err(BuilderError::MissingRequestURI)
            }
        } else {
            Err(BuilderError::MissingMethod)
        }
    }

    /// Set the method for this request.
    ///
    /// # Errors
    ///
    /// An error will be stored if the given method is an invalid `Method`.
    /// Also, this does not have a default value and, as a result, it must be
    /// specified before `build` is called.
    pub fn method(&mut self, method: &[u8]) -> (res: &mut Self)
        ensures
            res@ == old(self)@.with_method(method@),
            *final(self) == *final(res),
    {
        match Method::try_from(method) {
            Ok(method) => self.method = Some(method),
            Err(_) => self.fail(BuilderError::InvalidMethod),
        }
        self
    }

    /// Set the URI for this request.
    ///
    /// # Errors
    ///
    /// An error will be stored if the given URI is an invalid request URI.
    /// Also, this does not have a default value and, as a result, it must be
    /// specified before `build` is called.
    pub fn uri(&mut self, uri: &[u8]) -> (res: &mut Self)
        ensures
            res@ == old(self)@.with_uri(uri@),
            *final(self) == *final(res),
    {
        match RequestURIField::try_from(uri) {
            Ok(uri) => self.uri = Some(uri),
            Err(_) => self.fail(BuilderError::InvalidRequestURI),
        }
        self
    }

    /// Set the version for this request.
    ///
    /// The default value for the version is RTSP/2.0.
    ///
    /// # Errors
    ///
    /// An error will be stored if the given version is an invalid or
    /// unsupported `Version`. Currently the only supported version is
    /// RTSP/2.0.
    pub fn version(&mut self, version: &[u8]) -> (res: &mut Self)
        ensures
            res@ == old(self)@.with_version(version@),
            *final(self) == *final(res),
    {
        match Version::try_from(version) {
            Ok(Version::RTSP20) => self.version = Version::RTSP20,
            Ok(_) => self.fail(BuilderError::UnsupportedVersion),
            Err(_) => self.fail(BuilderError::InvalidVersion),
        }
        self
    }
}

impl Builder<HeaderMap> {
    /// Appends a header to this request.
    ///
    /// This function will append the provided key/value as a header to the
    /// internal `HeaderMap` being constructed. Essentially, this is
    /// equivalent to calling `HeaderMap::append`. Because of this, you are
    /// able to add a given header multiple times.
    ///
    /// By default, the request contains no headers.
    ///
    /// # Errors
    ///
    /// An error will be stored if the given name is an invalid `HeaderName`,
    /// or the given value is an invalid `HeaderValue`.
    pub fn header(&mut self, key: &[u8], value: &[u8]) -> (res: &mut Self)
        ensures
            res@ == old(self)@.with_header(key@, value@),
            *final(self) == *final(res),
    {
        let ghost key_bytes = key@;
        match HeaderName::try_from(key) {
            Ok(key) => match HeaderValue::try_from(value) {
                Ok(value) => {
                    proof {
                        lemma_parsed_view(key_bytes, key);
                    }
                    self.headers.append(key, value);
                },
                Err(_) => self.fail(BuilderError::InvalidHeaderValue),
            },
            Err(_) => self.fail(BuilderError::InvalidHeaderName),
        }
        self
    }

    /// Converts this builder into a builder that contains typed headers.
    pub fn into_typed(self) -> (res: Builder<TypedHeaderMap>)
        ensures
            res@ == self@,
    {
        Builder {
            error: self.error,
            headers: TypedHeaderMap::from_untyped(self.headers),
            method: self.method,
            uri: self.uri,
            version: self.version,
        }
    }
}

impl Builder<TypedHeaderMap> {
    /// Sets a typed header for this request.
    ///
    /// By default, the request contains no headers.
    ///
    /// # Errors
    ///
    /// Since typed headers are used here, this function cannot produce an
    /// error for the builder.
    pub fn header<T: TypedHeader>(&mut self, header: T) -> (res: &mut Self)
        ensures
            res@ == (BuilderView {
                headers: spec_set(
                    old(self)@.headers,
                    T::spec_header_name()@,
                    T::spec_to_header_raw(header@),
                ),
                ..old(self)@
            }),
            *final(self) == *final(res),
    {
        self.headers.set(header);
        self
    }

    /// Sets a raw header for this request. This is slightly different from
    /// the untyped builder's `header` function in that setting the raw value
    /// for a previously set header will end up overwriting it.
    ///
    /// By default, the request contains no headers.
    pub fn header_raw(&mut self, name: HeaderName, value: Vec<HeaderValue>) -> (res: &mut Self)
        ensures
            res@ == (BuilderView {
                headers: spec_set(old(self)@.headers, name@, spec_values_view(value@)),
                ..old(self)@
            }),
            *final(self) == *final(res),
    {
        self.headers.set_raw(name, value);
        self
    }

    /// Converts this builder into a builder that contains untyped headers.
    pub fn into_untyped(self) -> (res: Builder<HeaderMap>)
        ensures
            res@ == self@,
    {
        Builder {
            error: self.error,
            headers: self.headers.into_untyped(),
            method: self.method,
            uri: self.uri,
            version: self.version,
        }
    }
}

impl<H: Headers> Default for Builder<H> {
    fn default() -> (res: Builder<H>)
        ensures
            res@ == BuilderView::new(),
    {
        Builder::new()
    }
}

/// An error type for when the request builder encounters an error.
#[derive(Clone, Copy, Debug, PartialEq, Eq, Structural, Hash)]
#[non_exhaustive]
pub enum BuilderError {
    /// This error indicates that a given header name was invalid.
    InvalidHeaderName,
    /// This error indicates that a given header value was invalid.
    InvalidHeaderValue,
    /// This error indicates that the given method was invalid.
    InvalidMethod,
    /// This error indicates that the given request URI was invalid.
    InvalidRequestURI,
    /// This error indicates that the version was invalid.
    InvalidVersion,
    /// This error indicates that a method was not specified.
    MissingMethod,
    /// This error indicates that a request URI was not specified.
    MissingRequestURI,
    /// This error indicates that the version was unsupported. The only
    /// supported version is RTSP 2.0.
    UnsupportedVersion,
}

impl BuilderError {
    /// A short description of the error.
    pub fn description(&self) -> (res: &'static str)
        ensures
            res@ == (match self {
                BuilderError::InvalidHeaderName => "invalid RTSP header name"@,
                BuilderError::InvalidHeaderValue => "invalid RTSP header value"@,
                BuilderError::InvalidMethod => "invalid RTSP method"@,
                BuilderError::InvalidRequestURI => "invalid RTSP request URI"@,
                BuilderError::InvalidVersion => "invalid RTSP version"@,
                BuilderError::MissingMethod => "missing RTSP method"@,
                BuilderError::MissingRequestURI => "missing RTSP request URI"@,
                BuilderError::UnsupportedVersion => "unsupported RTSP version"@,
            }),
    {
        match self {
            BuilderError::InvalidHeaderName => "invalid RTSP header name",
            BuilderError::InvalidHeaderValue => "invalid RTSP header value",
            BuilderError::InvalidMethod => "invalid RTSP method",
            BuilderError::InvalidRequestURI => "invalid RTSP request URI",
            BuilderError::InvalidVersion => "invalid RTSP version",
            BuilderError::MissingMethod => "missing RTSP method",
            BuilderError::MissingRequestURI => "missing RTSP request URI",
            BuilderError::UnsupportedVersion => "unsupported RTSP version",
        }
    }
}

} // verus!
