use action_radar::error::RadarError;
use action_radar::link::{external_url_target, target_of_parsed};

#[test]
fn non_web_scheme_is_refused() {
    assert_eq!(external_url_target("ftp://x"), Err(RadarError::UnsupportedScheme));
    assert_eq!(external_url_target("mailto:someone@example.com"), Err(RadarError::UnsupportedScheme));
}

#[test]
fn malformed_url_is_refused() {
    assert_eq!(external_url_target("not a url"), Err(RadarError::InvalidUrl));
    assert_eq!(external_url_target(""), Err(RadarError::InvalidUrl));
}

#[test]
fn web_url_passes_normalised() {
    assert_eq!(external_url_target("https://example.com"), Ok("https://example.com/".to_string()));
    assert_eq!(
        external_url_target("HTTP://Example.COM/a?b=c"),
        Ok("http://example.com/a?b=c".to_string())
    );
}

#[test]
fn parse_outcomes_decide_the_target() {
    assert_eq!(target_of_parsed(None), Err(RadarError::InvalidUrl));
    assert_eq!(
        target_of_parsed(Some(("ftp".to_string(), "ftp://x".to_string()))),
        Err(RadarError::UnsupportedScheme)
    );
    assert_eq!(
        target_of_parsed(Some(("https".to_string(), "https://a/".to_string()))),
        Ok("https://a/".to_string())
    );
    assert_eq!(
        target_of_parsed(Some(("http".to_string(), "http://a/".to_string()))),
        Ok("http://a/".to_string())
    );
}
