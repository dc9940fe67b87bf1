use crate::error::Error;
use crate::text::{join, with_char};
use url::Url;
use vstd::prelude::*;

verus! {

/// The serialization of the URL that `text` parses to, `None` where it is no
/// absolute URL.
pub uninterp spec fn url_normal_form(text: Seq<char>) -> Option<Seq<char>>;

/// The domain name of the URL that `text` parses to: `None` where `text` is no
/// absolute URL, and where its host is no domain name (an IP address, or none).
pub uninterp spec fn url_domain(text: Seq<char>) -> Option<Seq<char>>;

/// The host of the URL that `text` parses to, as text.
pub uninterp spec fn url_host(text: Seq<char>) -> Option<Seq<char>>;

/// The port that the URL names, unless it is the default port of its scheme.
pub uninterp spec fn url_port(text: Seq<char>) -> Option<u16>;

/// Calls `Url::parse` and `Url::as_str` of the `url` crate.
/// Trusted: whether `text` parses, and the serialization, depend on `text` alone.
#[verifier::external_body]
pub(crate) fn parse_url(text: &str) -> (parsed: Option<String>)
    ensures
        match parsed {
            Some(url) => url_normal_form(text@) == Some(url@),
            None => url_normal_form(text@) is None,
        },
{
    match Url::parse(text) {
        Ok(url) => Some(url.as_str().to_string()),
        Err(_) => None,
    }
}

/// Calls `Url::parse` and `Url::domain` of the `url` crate.
/// Trusted: the outcome depends on `text` alone.
#[verifier::external_body]
pub(crate) fn domain_of(text: &str) -> (domain: Option<String>)
    ensures
        match domain {
            Some(d) => url_domain(text@) == Some(d@),
            None => url_domain(text@) is None,
        },
{
    match Url::parse(text) {
        Ok(url) => url.domain().map(str::to_string),
        Err(_) => None,
    }
}

/// Calls `Url::parse` and `Url::host_str` of the `url` crate.
/// Trusted: the outcome depends on `text` alone.
#[verifier::external_body]
pub(crate) fn host_of(text: &str) -> (host: Option<String>)
    ensures
        match host {
            Some(h) => url_host(text@) == Some(h@),
            None => url_host(text@) is None,
        },
{
    match Url::parse(text) {
        Ok(url) => url.host_str().map(str::to_string),
        Err(_) => None,
    }
}

/// Calls `Url::parse` and `Url::port` of the `url` crate.
/// Trusted: the outcome depends on `text` alone.
#[verifier::external_body]
pub(crate) fn port_of(text: &str) -> (port: Option<u16>)
    ensures
        port == url_port(text@),
{
    match Url::parse(text) {
        Ok(url) => url.port(),
        Err(_) => None,
    }
}

/// The decimal digit for a value below ten.
pub open spec fn digit(n: int) -> char {
    if n == 0 {
        '0'
    } else if n == 1 {
        '1'
    } else if n == 2 {
        '2'
    } else if n == 3 {
        '3'
    } else if n == 4 {
        '4'
    } else if n == 5 {
        '5'
    } else if n == 6 {
        '6'
    } else if n == 7 {
        '7'
    } else if n == 8 {
        '8'
    } else {
        '9'
    }
}

/// The decimal numeral of a natural number, without leading zeros.
pub open spec fn decimal(n: nat) -> Seq<char>
    decreases n,
{
    if n < 10 {
        seq![digit(n as int)]
    } else {
        decimal(n / 10).push(digit((n % 10) as int))
    }
}

/// What `extract_domain` gives for a host and a port: the host, and behind it
/// a colon and the port where there is one.
pub open spec fn host_with_port(host: Seq<char>, port: Option<u16>) -> Seq<char> {
    match port {
        Some(p) => host.push(':') + decimal(p as nat),
        None => host,
    }
}

fn digit_char(n: u16) -> (c: char)
    requires
        n < 10,
    ensures
        c == digit(n as int),
{
    if n == 0 {
        '0'
    } else if n == 1 {
        '1'
    } else if n == 2 {
        '2'
    } else if n == 3 {
        '3'
    } else if n == 4 {
        '4'
    } else if n == 5 {
        '5'
    } else if n == 6 {
        '6'
    } else if n == 7 {
        '7'
    } else if n == 8 {
        '8'
    } else {
        '9'
    }
}

/// The decimal numeral of `n`.
pub fn decimal_text(n: u16) -> (text: String)
    ensures
        text@ == decimal(n as nat),
    decreases n,
{
    if n < 10 {
        let text = with_char("", digit_char(n));
        proof {
            reveal_strlit("");
            assert(text@ =~= seq![digit(n as int)]);
        }
        text
    } else {
        let head = decimal_text(n / 10);
        with_char(head.as_str(), digit_char(n % 10))
    }
}

/// The domain of a URL with its port: the host, and behind it a colon and the
/// port where the URL names one. Fails where `url` has no host.
pub fn extract_domain(url: &str) -> (domain: Result<String, Error>)
    ensures
        match domain {
            Ok(d) => url_host(url@) is Some && d@ == host_with_port(
                url_host(url@)->0,
                url_port(url@),
            ),
            Err(e) => e == Error::InvalidUrl && url_host(url@) is None,
        },
{
    match host_of(url) {
        None => Err(Error::InvalidUrl),
        Some(host) => match port_of(url) {
            None => Ok(host),
            Some(port) => {
                let with_colon = with_char(host.as_str(), ':');
                let digits = decimal_text(port);
                Ok(join(with_colon.as_str(), digits.as_str()))
            },
        },
    }
}

/// How two URLs compare by domain: both must be URLs, and name the same domain
/// (two hosts that are no domain names count as the same).
pub open spec fn domains_match(a: Seq<char>, b: Seq<char>) -> Result<(), Error> {
    if url_normal_form(a) is None || url_normal_form(b) is None {
        Err(Error::InvalidUrl)
    } else if url_domain(a) != url_domain(b) {
        Err(Error::DomainMismatch)
    } else {
        Ok(())
    }
}

/// Checks that two URLs name the same domain.
pub fn verify_domains_match(a: &str, b: &str) -> (checked: Result<(), Error>)
    ensures
        checked == domains_match(a@, b@),
{
    if parse_url(a).is_none() || parse_url(b).is_none() {
        return Err(Error::InvalidUrl);
    }
    let same = match domain_of(a) {
        Some(first) => match domain_of(b) {
            Some(second) => first == second,
            None => false,
        },
        None => domain_of(b).is_none(),
    };
    if same {
        Ok(())
    } else {
        Err(Error::DomainMismatch)
    }
}

/// How two URLs compare as a whole: both must be URLs with the same serialization.
pub open spec fn urls_match(a: Seq<char>, b: Seq<char>) -> Result<(), Error> {
    if url_normal_form(a) is None || url_normal_form(b) is None {
        Err(Error::InvalidUrl)
    } else if url_normal_form(a) != url_normal_form(b) {
        Err(Error::UrlMismatch)
    } else {
        Ok(())
    }
}

/// Checks that two texts are the same URL.
pub fn verify_urls_match(a: &str, b: &str) -> (checked: Result<(), Error>)
    ensures
        checked == urls_match(a@, b@),
{
    match parse_url(a) {
        None => Err(Error::InvalidUrl),
        Some(first) => match parse_url(b) {
            None => Err(Error::InvalidUrl),
            Some(second) => if first == second {
                Ok(())
            } else {
                Err(Error::UrlMismatch)
            },
        },
    }
}

} // verus!
