use rtsp::header::HeaderName;

#[test]
fn test_standard_header_as_str() {
    assert_eq!(HeaderName::Accept.as_str(), "accept");
    assert_eq!(HeaderName::AcceptCredentials.as_str(), "accept-credentials");
    assert_eq!(HeaderName::AcceptEncoding.as_str(), "accept-encoding");
    assert_eq!(HeaderName::AcceptLanguage.as_str(), "accept-language");
    assert_eq!(HeaderName::AcceptRanges.as_str(), "accept-ranges");
    assert_eq!(HeaderName::Allow.as_str(), "allow");
    assert_eq!(HeaderName::AuthenticationInfo.as_str(), "authentication-info");
    assert_eq!(HeaderName::Authorization.as_str(), "authorization");
    assert_eq!(HeaderName::Bandwidth.as_str(), "bandwidth");
    assert_eq!(HeaderName::Blocksize.as_str(), "blocksize");
    assert_eq!(HeaderName::CacheControl.as_str(), "cache-control");
    assert_eq!(HeaderName::Connection.as_str(), "connection");
    assert_eq!(HeaderName::ConnectionCredentials.as_str(), "connection-credentials");
    assert_eq!(HeaderName::ContentBase.as_str(), "content-base");
    assert_eq!(HeaderName::ContentEncoding.as_str(), "content-encoding");
    assert_eq!(HeaderName::ContentLanguage.as_str(), "content-language");
    assert_eq!(HeaderName::ContentLength.as_str(), "content-length");
    assert_eq!(HeaderName::ContentLocation.as_str(), "content-location");
    assert_eq!(HeaderName::ContentType.as_str(), "content-type");
    assert_eq!(HeaderName::CSeq.as_str(), "cseq");
    assert_eq!(HeaderName::Date.as_str(), "date");
    assert_eq!(HeaderName::Expires.as_str(), "expires");
    assert_eq!(HeaderName::From.as_str(), "from");
    assert_eq!(HeaderName::IfMatch.as_str(), "if-match");
    assert_eq!(HeaderName::IfModifiedSince.as_str(), "if-modified-since");
    assert_eq!(HeaderName::IfNoneMatch.as_str(), "if-none-match");
    assert_eq!(HeaderName::LastModified.as_str(), "last-modified");
    assert_eq!(HeaderName::Location.as_str(), "location");
    assert_eq!(HeaderName::MediaProperties.as_str(), "media-properties");
    assert_eq!(HeaderName::MediaRange.as_str(), "media-range");
    assert_eq!(HeaderName::MTag.as_str(), "mtag");
    assert_eq!(HeaderName::NotifyReason.as_str(), "notify-reason");
    assert_eq!(HeaderName::PipelinedRequests.as_str(), "pipelined-requests");
    assert_eq!(HeaderName::ProxyAuthenticate.as_str(), "proxy-authenticate");
    assert_eq!(HeaderName::ProxyAuthenticationInfo.as_str(), "proxy-authentication-info");
    assert_eq!(HeaderName::ProxyAuthorization.as_str(), "proxy-authorization");
    assert_eq!(HeaderName::ProxyRequire.as_str(), "proxy-require");
    assert_eq!(HeaderName::ProxySupported.as_str(), "proxy-supported");
    assert_eq!(HeaderName::Public.as_str(), "public");
    assert_eq!(HeaderName::Range.as_str(), "range");
    assert_eq!(HeaderName::Referrer.as_str(), "referrer");
    assert_eq!(HeaderName::RequestStatus.as_str(), "request-status");
    assert_eq!(HeaderName::Require.as_str(), "require");
    assert_eq!(HeaderName::RetryAfter.as_str(), "retry-after");
    assert_eq!(HeaderName::RTPInfo.as_str(), "rtp-info");
    assert_eq!(HeaderName::Scale.as_str(), "scale");
    assert_eq!(HeaderName::SeekStyle.as_str(), "seek-style");
    assert_eq!(HeaderName::Server.as_str(), "server");
    assert_eq!(HeaderName::Session.as_str(), "session");
    assert_eq!(HeaderName::Speed.as_str(), "speed");
    assert_eq!(HeaderName::Supported.as_str(), "supported");
    assert_eq!(HeaderName::TerminateReason.as_str(), "terminate-reason");
    assert_eq!(HeaderName::Timestamp.as_str(), "timestamp");
    assert_eq!(HeaderName::Transport.as_str(), "transport");
    assert_eq!(HeaderName::Unsupported.as_str(), "unsupported");
    assert_eq!(HeaderName::UserAgent.as_str(), "user-agent");
    assert_eq!(HeaderName::Via.as_str(), "via");
    assert_eq!(HeaderName::WWWAuthenticate.as_str(), "www-authenticate");
}

#[test]
fn test_standard_header_canonical_name() {
    assert_eq!(HeaderName::Accept.canonical_name(), "Accept");
    assert_eq!(HeaderName::AcceptCredentials.canonical_name(), "Accept-Credentials");
    assert_eq!(HeaderName::AcceptEncoding.canonical_name(), "Accept-Encoding");
    assert_eq!(HeaderName::AcceptLanguage.canonical_name(), "Accept-Language");
    assert_eq!(HeaderName::AcceptRanges.canonical_name(), "Accept-Ranges");
    assert_eq!(HeaderName::Allow.canonical_name(), "Allow");
    assert_eq!(HeaderName::AuthenticationInfo.canonical_name(), "Authentication-Info");
    assert_eq!(HeaderName::Authorization.canonical_name(), "Authorization");
    assert_eq!(HeaderName::Bandwidth.canonical_name(), "Bandwidth");
    assert_eq!(HeaderName::Blocksize.canonical_name(), "Blocksize");
    assert_eq!(HeaderName::CacheControl.canonical_name(), "Cache-Control");
    assert_eq!(HeaderName::Connection.canonical_name(), "Connection");
    assert_eq!(HeaderName::ConnectionCredentials.canonical_name(), "Connection-Credentials");
    assert_eq!(HeaderName::ContentBase.canonical_name(), "Content-Base");
    assert_eq!(HeaderName::ContentEncoding.canonical_name(), "Content-Encoding");
    assert_eq!(HeaderName::ContentLanguage.canonical_name(), "Content-Language");
    assert_eq!(HeaderName::ContentLength.canonical_name(), "Content-Length");
    assert_eq!(HeaderName::ContentLocation.canonical_name(), "Content-Location");
    assert_eq!(HeaderName::ContentType.canonical_name(), "Content-Type");
    assert_eq!(HeaderName::CSeq.canonical_name(), "CSeq");
    assert_eq!(HeaderName::Date.canonical_name(), "Date");
    assert_eq!(HeaderName::Expires.canonical_name(), "Expires");
    assert_eq!(HeaderName::From.canonical_name(), "From");
    assert_eq!(HeaderName::IfMatch.canonical_name(), "If-Match");
    assert_eq!(HeaderName::IfModifiedSince.canonical_name(), "If-Modified-Since");
    assert_eq!(HeaderName::IfNoneMatch.canonical_name(), "If-None-Match");
    assert_eq!(HeaderName::LastModified.canonical_name(), "Last-Modified");
    assert_eq!(HeaderName::Location.canonical_name(), "Location");
    assert_eq!(HeaderName::MediaProperties.canonical_name(), "Media-Properties");
    assert_eq!(HeaderName::MediaRange.canonical_name(), "Media-Range");
    assert_eq!(HeaderName::MTag.canonical_name(), "MTag");
    assert_eq!(HeaderName::NotifyReason.canonical_name(), "Notify-Reason");
    assert_eq!(HeaderName::PipelinedRequests.canonical_name(), "Pipelined-Requests");
    assert_eq!(HeaderName::ProxyAuthenticate.canonical_name(), "Proxy-Authenticate");
    assert_eq!(HeaderName::ProxyAuthenticationInfo.canonical_name(), "Proxy-Authentication-Info");
    assert_eq!(HeaderName::ProxyAuthorization.canonical_name(), "Proxy-Authorization");
    assert_eq!(HeaderName::ProxyRequire.canonical_name(), "Proxy-Require");
    assert_eq!(HeaderName::ProxySupported.canonical_name(), "Proxy-Supported");
    assert_eq!(HeaderName::Public.canonical_name(), "Public");
    assert_eq!(HeaderName::Range.canonical_name(), "Range");
    assert_eq!(HeaderName::Referrer.canonical_name(), "Referrer");
    assert_eq!(HeaderName::RequestStatus.canonical_name(), "Request-Status");
    assert_eq!(HeaderName::Require.canonical_name(), "Require");
    assert_eq!(HeaderName::RetryAfter.canonical_name(), "Retry-After");
    assert_eq!(HeaderName::RTPInfo.canonical_name(), "RTP-Info");
    assert_eq!(HeaderName::Scale.canonical_name(), "Scale");
    assert_eq!(HeaderName::SeekStyle.canonical_name(), "Seek-Style");
    assert_eq!(HeaderName::Server.canonical_name(), "Server");
    assert_eq!(HeaderName::Session.canonical_name(), "Session");
    assert_eq!(HeaderName::Speed.canonical_name(), "Speed");
    assert_eq!(HeaderName::Supported.canonical_name(), "Supported");
    assert_eq!(HeaderName::TerminateReason.canonical_name(), "Terminate-Reason");
    assert_eq!(HeaderName::Timestamp.canonical_name(), "Timestamp");
    assert_eq!(HeaderName::Transport.canonical_name(), "Transport");
    assert_eq!(HeaderName::Unsupported.canonical_name(), "Unsupported");
    assert_eq!(HeaderName::UserAgent.canonical_name(), "User-Agent");
    assert_eq!(HeaderName::Via.canonical_name(), "Via");
    assert_eq!(HeaderName::WWWAuthenticate.canonical_name(), "WWW-Authenticate");
}

fn standard_header_names() -> Vec<HeaderName> {
    vec![
        HeaderName::Accept,
        HeaderName::AcceptCredentials,
        HeaderName::AcceptEncoding,
        HeaderName::AcceptLanguage,
        HeaderName::AcceptRanges,
        HeaderName::Allow,
        HeaderName::AuthenticationInfo,
        HeaderName::Authorization,
        HeaderName::Bandwidth,
        HeaderName::Blocksize,
        HeaderName::CacheControl,
        HeaderName::Connection,
        HeaderName::ConnectionCredentials,
        HeaderName::ContentBase,
        HeaderName::ContentEncoding,
        HeaderName::ContentLanguage,
        HeaderName::ContentLength,
        HeaderName::ContentLocation,
        HeaderName::ContentType,
        HeaderName::CSeq,
        HeaderName::Date,
        HeaderName::Expires,
        HeaderName::From,
        HeaderName::IfMatch,
        HeaderName::IfModifiedSince,
        HeaderName::IfNoneMatch,
        HeaderName::LastModified,
        HeaderName::Location,
        HeaderName::MediaProperties,
        HeaderName::MediaRange,
        HeaderName::MTag,
        HeaderName::NotifyReason,
        HeaderName::PipelinedRequests,
        HeaderName::ProxyAuthenticate,
        HeaderName::ProxyAuthenticationInfo,
        HeaderName::ProxyAuthorization,
        HeaderName::ProxyRequire,
        HeaderName::ProxySupported,
        HeaderName::Public,
        HeaderName::Range,
        HeaderName::Referrer,
        HeaderName::RequestStatus,
        HeaderName::Require,
        HeaderName::RetryAfter,
        HeaderName::RTPInfo,
        HeaderName::Scale,
        HeaderName::SeekStyle,
        HeaderName::Server,
        HeaderName::Session,
        HeaderName::Speed,
        HeaderName::Supported,
        HeaderName::TerminateReason,
        HeaderName::Timestamp,
        HeaderName::Transport,
        HeaderName::Unsupported,
        HeaderName::UserAgent,
        HeaderName::Via,
        HeaderName::WWWAuthenticate,
    ]
}

#[test]
fn test_standard_header_name_equality() {
    for header_name in standard_header_names() {
        assert_eq!(header_name.as_str(), header_name.canonical_name().to_lowercase().as_str());
    }
}

#[test]
fn standard_header_names_are_found_by_their_spellings() {
    let names = standard_header_names();
    assert_eq!(names.len(), 58);
    for header_name in names.iter() {
        assert_eq!(HeaderName::try_from(header_name.as_bytes()).as_ref(), Ok(header_name));
        assert_eq!(HeaderName::try_from(header_name.canonical_bytes()).as_ref(), Ok(header_name));
        let upper = header_name.as_str().to_ascii_uppercase();
        assert_eq!(HeaderName::try_from(upper.as_bytes()).as_ref(), Ok(header_name));
    }
}

#[test]
fn standard_header_names_differ_from_each_other() {
    let names = standard_header_names();
    for (i, a) in names.iter().enumerate() {
        for (j, b) in names.iter().enumerate() {
            assert_eq!(a == b, i == j);
        }
    }
}

#[test]
fn names_next_to_standard_header_names_are_extensions() {
    for header_name in standard_header_names() {
        let mut longer = header_name.as_bytes().to_vec();
        longer.push(b'x');
        assert!(matches!(HeaderName::try_from(&longer), Ok(HeaderName::Extension(_))));
        let mut changed = header_name.as_bytes().to_vec();
        changed[0] = b'_';
        assert!(matches!(HeaderName::try_from(&changed), Ok(HeaderName::Extension(_))));
    }
}
