use aqi::config::{Command, Config};
use aqi::options::{OutputFormat, Scale};
use aqi::request::{escape_path_segment, feed, search, ApiRequest};

fn pair(name: &str, value: &str) -> (String, String) {
    (name.to_string(), value.to_string())
}

#[test]
fn search_request() {
    assert_eq!(
        search("secret", "new york"),
        ApiRequest {
            url: "https://api.waqi.info/search/".to_string(),
            query: vec![pair("token", "secret"), pair("keyword", "new york")],
        }
    );
}

#[test]
fn feed_request() {
    assert_eq!(
        feed("secret", "beijing"),
        ApiRequest {
            url: "https://api.waqi.info/feed/beijing/".to_string(),
            query: vec![pair("token", "secret")],
        }
    );
    assert_eq!(feed("secret", "@1451").url, "https://api.waqi.info/feed/@1451/");
}

#[test]
fn feed_request_takes_the_station_as_it_is() {
    assert_eq!(feed("t", "a/b").url, "https://api.waqi.info/feed/a/b/");
    assert_eq!(feed("t", "").url, "https://api.waqi.info/feed//");
    assert_eq!(feed("t", "a b?c").url, "https://api.waqi.info/feed/a b?c/");
}

#[test]
fn request_of_a_configuration() {
    let s = Config {
        api_token: "secret".to_string(),
        output: OutputFormat::Json,
        command: Command::Search { search_term: "beijing".to_string() },
    };
    assert_eq!(s.request(), search("secret", "beijing"));
    let i = Config {
        api_token: "secret".to_string(),
        output: OutputFormat::Human,
        command: Command::Info { scale: Scale::Celsius, station_name: "shanghai".to_string() },
    };
    assert_eq!(i.request(), feed("secret", "shanghai"));
    assert_eq!(i.request().url, "https://api.waqi.info/feed/shanghai/");
}

#[test]
fn request_of_a_configuration_escapes_the_station() {
    let config = Config {
        api_token: "secret".to_string(),
        output: OutputFormat::Human,
        command: Command::Info { scale: Scale::Fahrenheit, station_name: "a/b?c#d e".to_string() },
    };
    assert_eq!(
        config.request(),
        ApiRequest {
            url: "https://api.waqi.info/feed/a%2Fb%3Fc%23d%20e/".to_string(),
            query: vec![pair("token", "secret")],
        }
    );
    let by_id = Config {
        api_token: "secret".to_string(),
        output: OutputFormat::Human,
        command: Command::Info { scale: Scale::Fahrenheit, station_name: "@1451".to_string() },
    };
    assert_eq!(by_id.request().url, "https://api.waqi.info/feed/@1451/");
}

#[test]
fn plain_segments_are_not_escaped() {
    assert_eq!(escape_path_segment("beijing"), "beijing");
    assert_eq!(escape_path_segment("@1451"), "@1451");
    assert_eq!(escape_path_segment("geo:10.3;20.7"), "geo:10.3;20.7");
    assert_eq!(escape_path_segment("A-Z_a-z.0-9~"), "A-Z_a-z.0-9~");
    assert_eq!(escape_path_segment("!$&'()*+,;=:@"), "!$&'()*+,;=:@");
    assert_eq!(escape_path_segment(""), "");
}

#[test]
fn other_characters_are_escaped() {
    assert_eq!(escape_path_segment("a/b"), "a%2Fb");
    assert_eq!(escape_path_segment("a b"), "a%20b");
    assert_eq!(escape_path_segment("a?b=c#d"), "a%3Fb=c%23d");
    assert_eq!(escape_path_segment("100%"), "100%25");
    assert_eq!(escape_path_segment("../search"), "..%2Fsearch");
    assert_eq!(escape_path_segment("a\\b"), "a%5Cb");
    assert_eq!(escape_path_segment("\"<>[]^`{|}"), "%22%3C%3E%5B%5D%5E%60%7B%7C%7D");
    assert_eq!(escape_path_segment("\n\t\u{0}\u{7f}"), "%0A%09%00%7F");
}

#[test]
fn characters_beyond_ascii_are_escaped_byte_by_byte() {
    assert_eq!(escape_path_segment("é"), "%C3%A9");
    assert_eq!(escape_path_segment("北京"), "%E5%8C%97%E4%BA%AC");
    assert_eq!(escape_path_segment("a😀b"), "a%F0%9F%98%80b");
    assert_eq!(escape_path_segment("\u{80}\u{7ff}\u{800}\u{ffff}"), "%C2%80%DF%BF%E0%A0%80%EF%BF%BF");
}

#[test]
fn an_escaped_station_stays_one_segment() {
    let request = feed("t", &escape_path_segment("a/b?c#d"));
    assert_eq!(request.url, "https://api.waqi.info/feed/a%2Fb%3Fc%23d/");
    let tail = &request.url["https://api.waqi.info/feed/".len()..request.url.len() - 1];
    assert!(!tail.contains('/'));
    assert!(!tail.contains('?'));
    assert!(!tail.contains('#'));
}
