use deno_server::http::http_stream::{check_request_line, extract_request_parts, RequestLineError};
use deno_server::http::whitespace::is_whitespace;

fn parts(line: &str) -> (String, String, String) {
    assert_eq!(check_request_line(Some(line)), None);
    let p = extract_request_parts(Some(line));
    (p.method, p.uri, p.version)
}

fn err(line: Option<&str>) -> RequestLineError {
    check_request_line(line).expect("a fault")
}

#[test]
fn parses_plain_request_line() {
    assert_eq!(
        parts("GET /index.html HTTP/1.1"),
        ("GET".to_string(), "/index.html".to_string(), "HTTP/1.1".to_string())
    );
}

#[test]
fn ignores_surrounding_and_repeated_whitespace() {
    assert_eq!(
        parts("  POST \t /api/items\t\tHTTP/1.0  "),
        ("POST".to_string(), "/api/items".to_string(), "HTTP/1.0".to_string())
    );
}

#[test]
fn ignores_words_after_the_version() {
    assert_eq!(
        parts("GET / HTTP/1.1 extra words"),
        ("GET".to_string(), "/".to_string(), "HTTP/1.1".to_string())
    );
}

#[test]
fn splits_on_unicode_white_space() {
    assert_eq!(
        parts("PUT\u{3000}/caf\u{e9}\u{2003}HTTP/2"),
        ("PUT".to_string(), "/caf\u{e9}".to_string(), "HTTP/2".to_string())
    );
}

#[test]
fn no_line_is_missing_info() {
    assert_eq!(err(None), RequestLineError::MissingInfo);
    assert_eq!(RequestLineError::MissingInfo.message(), "missing http info");
}

#[test]
fn blank_line_is_missing_method() {
    assert_eq!(err(Some("")), RequestLineError::MissingMethod);
    assert_eq!(err(Some(" \t ")), RequestLineError::MissingMethod);
    assert_eq!(RequestLineError::MissingMethod.message(), "missing http method");
}

#[test]
fn one_word_is_missing_uri() {
    assert_eq!(err(Some("  GET  ")), RequestLineError::MissingUri);
    assert_eq!(RequestLineError::MissingUri.message(), "missing http uri");
}

#[test]
fn two_words_are_missing_version() {
    assert_eq!(err(Some("GET /")), RequestLineError::MissingVersion);
    assert_eq!(RequestLineError::MissingVersion.message(), "missing http version");
}

#[test]
fn agrees_with_split_whitespace() {
    let lines = [
        "GET / HTTP/1.1",
        "\u{85}DELETE\u{a0}/x\u{1680}HTTP/1.1\u{205f}tail",
        "a b c",
        "OPTIONS * HTTP/1.1\r",
        "\u{200b}x y z",
    ];
    for line in lines {
        let w: Vec<&str> = line.split_whitespace().collect();
        let (m, u, v) = parts(line);
        assert_eq!((m.as_str(), u.as_str(), v.as_str()), (w[0], w[1], w[2]));
    }
}

#[test]
fn round_trip_of_written_request_line() {
    for (m, u, v) in [("GET", "/", "HTTP/1.1"), ("HEAD", "/a?b=c", "HTTP/1.0")] {
        let line = format!("{} {} {}", m, u, v);
        assert_eq!(parts(&line), (m.to_string(), u.to_string(), v.to_string()));
    }
}

#[test]
fn whitespace_matches_std_on_every_char() {
    for n in 0u32..=0x10FFFF {
        if let Some(c) = char::from_u32(n) {
            assert_eq!(is_whitespace(c), c.is_whitespace(), "char {:#x}", n);
        }
    }
}
