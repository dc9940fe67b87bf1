use ibis::address::{decimal_text, extract_domain, verify_domains_match, verify_urls_match};
use ibis::error::Error;

#[test]
fn numbers_are_written_in_decimal() {
    assert_eq!("0", decimal_text(0));
    assert_eq!("7", decimal_text(7));
    assert_eq!("10", decimal_text(10));
    assert_eq!("8081", decimal_text(8081));
    assert_eq!("65535", decimal_text(65535));
}

#[test]
fn the_domain_comes_with_its_port() {
    assert_eq!(Ok("127.0.0.1:8081".to_string()), extract_domain("http://127.0.0.1:8081/"));
    assert_eq!(Ok("example.com".to_string()), extract_domain("https://example.com/user/a"));
    assert_eq!(Ok("example.com".to_string()), extract_domain("https://example.com:443/"));
    assert_eq!(Ok("example.com:8443".to_string()), extract_domain("https://example.com:8443/"));
}

#[test]
fn a_text_without_a_host_has_no_domain() {
    assert_eq!(Err(Error::InvalidUrl), extract_domain("not a url"));
    assert_eq!(Err(Error::InvalidUrl), extract_domain("mailto:someone@example.com"));
}

#[test]
fn domains_are_compared() {
    assert_eq!(
        Ok(()),
        verify_domains_match("https://example.com/user/a", "https://example.com/inbox")
    );
    assert_eq!(
        Err(Error::DomainMismatch),
        verify_domains_match("https://example.com/user/a", "https://evil.org/user/a")
    );
    assert_eq!(
        Err(Error::InvalidUrl),
        verify_domains_match("not a url", "https://example.com/")
    );
    assert_eq!(
        Err(Error::InvalidUrl),
        verify_domains_match("https://example.com/", "not a url")
    );
}

#[test]
fn hosts_that_are_no_domain_names_count_as_the_same_domain() {
    assert_eq!(
        Ok(()),
        verify_domains_match("http://127.0.0.1:8081/a", "http://127.0.0.2:8082/b")
    );
    assert_eq!(
        Err(Error::DomainMismatch),
        verify_domains_match("http://127.0.0.1:8081/a", "http://example.com/b")
    );
}

#[test]
fn urls_are_compared_in_their_normal_form() {
    assert_eq!(Ok(()), verify_urls_match("https://example.com", "https://example.com/"));
    assert_eq!(Ok(()), verify_urls_match("https://EXAMPLE.com/", "https://example.com/"));
    assert_eq!(
        Err(Error::UrlMismatch),
        verify_urls_match("https://example.com/a", "https://example.com/b")
    );
    assert_eq!(Err(Error::InvalidUrl), verify_urls_match("nothing", "https://example.com/b"));
}
