use vstd::prelude::*;

verus! {

/// Whether `url::Url::parse` accepts the text.
pub uninterp spec fn url_parses(raw: Seq<char>) -> bool;

/// `url::Url::scheme` of the URL parsed from the text.
pub uninterp spec fn url_scheme(raw: Seq<char>) -> Seq<char>;

/// `url::Url::host_str` of the URL parsed from the text.
pub uninterp spec fn url_host(raw: Seq<char>) -> Option<Seq<char>>;

/// `url::Url::port` of the URL parsed from the text.
pub uninterp spec fn url_port(raw: Seq<char>) -> Option<u16>;

/// `url::Url::as_str` (the normalized serialization) of the URL parsed from the text.
pub uninterp spec fn url_serialization(raw: Seq<char>) -> Seq<char>;

/// The parts of a parsed URL that target parsing reads.
pub struct UrlParts {
    pub scheme: String,
    pub host: Option<String>,
    pub port: Option<u16>,
    pub serialized: String,
}

pub open spec fn opt_text(o: Option<String>) -> Option<Seq<char>> {
    match o {
        Some(s) => Some(s@),
        None => None,
    }
}

/// Relies on `url::Url::parse`, and on `scheme`, `host_str`, `port` and `as_str`
/// of the parsed URL; each result depends on the text alone.
#[verifier::external_body]
fn parse_url(raw: &str) -> (r: Option<UrlParts>)
    ensures
        r is Some <==> url_parses(raw@),
        r matches Some(p) ==> {
            &&& p.scheme@ == url_scheme(raw@)
            &&& opt_text(p.host) == url_host(raw@)
            &&& p.port == url_port(raw@)
            &&& p.serialized@ == url_serialization(raw@)
        },
{
    match url::Url::parse(raw) {
        Ok(url) => Some(
            UrlParts {
                scheme: url.scheme().to_string(),
                host: url.host_str().map(|h| h.to_string()),
                port: url.port(),
                serialized: url.as_str().to_string(),
            },
        ),
        Err(_) => None,
    }
}

/// A probe target. Each case keeps the text it was parsed from, which
/// identifies the target in reports, and the fields its protocol needs.
#[derive(Debug, Clone)]
pub enum ReplicaURL {
    ICMP(String, String),
    TCP(String, String, u16),
    HTTP(String, String),
    HTTPS(String, String),
}

/// A target as plain values.
pub enum ReplicaView {
    Icmp { raw: Seq<char>, host: Seq<char> },
    Tcp { raw: Seq<char>, host: Seq<char>, port: u16 },
    Http { raw: Seq<char>, url: Seq<char> },
    Https { raw: Seq<char>, url: Seq<char> },
}

impl View for ReplicaURL {
    type V = ReplicaView;

    open spec fn view(&self) -> ReplicaView {
        match self {
            ReplicaURL::ICMP(raw, host) => ReplicaView::Icmp { raw: raw@, host: host@ },
            ReplicaURL::TCP(raw, host, port) => ReplicaView::Tcp { raw: raw@, host: host@, port: *port },
            ReplicaURL::HTTP(raw, url) => ReplicaView::Http { raw: raw@, url: url@ },
            ReplicaURL::HTTPS(raw, url) => ReplicaView::Https { raw: raw@, url: url@ },
        }
    }
}

impl ReplicaView {
    pub open spec fn raw(self) -> Seq<char> {
        match self {
            ReplicaView::Icmp { raw, .. } => raw,
            ReplicaView::Tcp { raw, .. } => raw,
            ReplicaView::Http { raw, .. } => raw,
            ReplicaView::Https { raw, .. } => raw,
        }
    }
}

/// A host in the bare form that address resolution takes: an IPv6 literal
/// loses the brackets that URLs put round it.
pub open spec fn bare_host(h: Seq<char>) -> Seq<char> {
    if h.len() >= 2 && h[0] == '[' && h[h.len() - 1] == ']' {
        h.subrange(1, h.len() - 1)
    } else {
        h
    }
}

/// The target that a URL text describes, if any: the scheme picks the case;
/// `icmp` needs a host, `tcp` a host and a port; `http` and `https` keep the
/// normalized URL.
pub open spec fn replica_of(raw: Seq<char>) -> Option<ReplicaView> {
    if !url_parses(raw) {
        None
    } else if url_scheme(raw) == "icmp"@ {
        match url_host(raw) {
            Some(h) => Some(ReplicaView::Icmp { raw, host: bare_host(h) }),
            None => None,
        }
    } else if url_scheme(raw) == "tcp"@ {
        match (url_host(raw), url_port(raw)) {
            (Some(h), Some(p)) => Some(ReplicaView::Tcp { raw, host: bare_host(h), port: p }),
            _ => None,
        }
    } else if url_scheme(raw) == "http"@ {
        Some(ReplicaView::Http { raw, url: url_serialization(raw) })
    } else if url_scheme(raw) == "https"@ {
        Some(ReplicaView::Https { raw, url: url_serialization(raw) })
    } else {
        None
    }
}

impl ReplicaURL {
    /// Parses a target from its URL text; an unknown scheme, a missing host, or
    /// a `tcp` URL without a port is refused.
    pub fn parse_from(raw_url: &str) -> (r: Result<ReplicaURL, ()>)
        ensures
            r matches Ok(u) ==> replica_of(raw_url@) == Some(u@),
            r is Err <==> replica_of(raw_url@) is None,
    {
        let parts = match parse_url(raw_url) {
            Some(p) => p,
            None => return Err(()),
        };
        let raw = raw_url.to_owned();
        if parts.scheme == "icmp".to_owned() {
            match parts.host {
                Some(host) => Ok(ReplicaURL::ICMP(raw, Self::host_string(host.as_str()))),
                None => Err(()),
            }
        } else if parts.scheme == "tcp".to_owned() {
            match (parts.host, parts.port) {
                (Some(host), Some(port)) => Ok(
                    ReplicaURL::TCP(raw, Self::host_string(host.as_str()), port),
                ),
                _ => Err(()),
            }
        } else if parts.scheme == "http".to_owned() {
            Ok(ReplicaURL::HTTP(raw, parts.serialized))
        } else if parts.scheme == "https".to_owned() {
            Ok(ReplicaURL::HTTPS(raw, parts.serialized))
        } else {
            Err(())
        }
    }

    /// The text the target was parsed from.
    pub fn get_raw(&self) -> (r: &str)
        ensures
            r@ == self@.raw(),
    {
        match self {
            ReplicaURL::ICMP(raw_url, _) => raw_url.as_str(),
            ReplicaURL::TCP(raw_url, _, _) => raw_url.as_str(),
            ReplicaURL::HTTP(raw_url, _) => raw_url.as_str(),
            ReplicaURL::HTTPS(raw_url, _) => raw_url.as_str(),
        }
    }

    /// Renders a URL host in bare form.
    pub fn host_string(host: &str) -> (r: String)
        ensures
            r@ == bare_host(host@),
    {
        let n = host.unicode_len();
        if n >= 2 && host.get_char(0) == '[' && host.get_char(n - 1) == ']' {
            host.substring_char(1, n - 1).to_owned()
        } else {
            host.to_owned()
        }
    }
}

} // verus!
