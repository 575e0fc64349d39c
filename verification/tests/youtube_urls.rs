use rand::rngs::StdRng;
use rand::SeedableRng;
use url::ParseError;
use yt_bookmark::generate::{generate_video_id, id_charset_bytes, ID_LEN};
use yt_bookmark::youtube_url::find_last_value;
use yt_bookmark::{DomainError, UrlParts, YoutubeUrl};

fn parse(text: &str) -> Result<YoutubeUrl, DomainError> {
    YoutubeUrl::try_from(text.to_string())
}

fn id_of(text: &str) -> String {
    parse(text).unwrap().video_id().clone()
}

fn pairs(list: &[(&str, &str)]) -> Vec<(String, String)> {
    list.iter().map(|(k, v)| (k.to_string(), v.to_string())).collect()
}

#[test]
fn generate_fake_youtube_url() {
    let mut rng = StdRng::from_os_rng();
    let _ = YoutubeUrl::dummy_with_rng(&mut rng).unwrap();
}

#[test]
fn text_that_is_no_url_is_malformed() {
    assert!(matches!(
        parse("not a url"),
        Err(DomainError::ParseUrlError(ParseError::RelativeUrlWithoutBase))
    ));
}

#[test]
fn the_parser_error_is_passed_on_unchanged() {
    assert!(matches!(
        parse("https://"),
        Err(DomainError::ParseUrlError(ParseError::EmptyHost))
    ));
    assert!(matches!(
        parse("https://www.youtube.com:99999/watch?v=abc"),
        Err(DomainError::ParseUrlError(ParseError::InvalidPort))
    ));
    assert!(matches!(
        parse(""),
        Err(DomainError::ParseUrlError(ParseError::RelativeUrlWithoutBase))
    ));
}

#[test]
fn another_host_is_refused() {
    assert!(matches!(
        parse("https://example.com/watch?v=abc"),
        Err(DomainError::InvalidYoutubeUrlError)
    ));
}

#[test]
fn a_missing_video_parameter_is_refused() {
    assert!(matches!(
        parse("https://www.youtube.com/watch"),
        Err(DomainError::InvalidYoutubeUrlError)
    ));
    assert!(matches!(
        parse("https://www.youtube.com/watch?list=abc&t=10"),
        Err(DomainError::InvalidYoutubeUrlError)
    ));
    assert!(matches!(
        parse("https://www.youtube.com/watch?V=abc"),
        Err(DomainError::InvalidYoutubeUrlError)
    ));
}

#[test]
fn a_url_without_host_is_refused() {
    assert!(matches!(
        parse("mailto:someone@example.com?v=abc"),
        Err(DomainError::InvalidYoutubeUrlError)
    ));
    assert!(matches!(
        parse("data:text/plain,v=abc"),
        Err(DomainError::InvalidYoutubeUrlError)
    ));
}

#[test]
fn other_spellings_of_the_site_are_refused() {
    for text in [
        "https://youtube.com/watch?v=abc",
        "https://m.youtube.com/watch?v=abc",
        "https://youtu.be/abc?v=abc",
        "https://www.youtube.com.example.com/watch?v=abc",
        "https://music.www.youtube.com/watch?v=abc",
    ] {
        assert!(matches!(parse(text), Err(DomainError::InvalidYoutubeUrlError)));
    }
}

#[test]
fn a_watch_url_is_accepted_and_serialised_as_it_was() {
    let text = "https://www.youtube.com/watch?v=5gGha71avA5";
    let url = parse(text).unwrap();
    assert_eq!(url.video_id(), "5gGha71avA5");
    assert_eq!(url.to_string(), text);
}

#[test]
fn the_scheme_does_not_matter() {
    assert_eq!(id_of("http://www.youtube.com/watch?v=5gGha71avA5"), "5gGha71avA5");
    assert_eq!(id_of("https://www.youtube.com/watch?v=5gGha71avA5"), "5gGha71avA5");
    assert_eq!(id_of("ftp://www.youtube.com/watch?v=5gGha71avA5"), "5gGha71avA5");
}

#[test]
fn extraneous_parameters_do_not_matter() {
    assert_eq!(
        id_of("https://www.youtube.com/watch?list=PL1&v=5gGha71avA5&t=42s#top"),
        "5gGha71avA5"
    );
    assert_eq!(
        id_of("https://www.youtube.com/watch?v=5gGha71avA5&feature=share"),
        "5gGha71avA5"
    );
}

#[test]
fn the_path_and_the_port_do_not_matter() {
    assert_eq!(id_of("https://www.youtube.com/?v=abc"), "abc");
    assert_eq!(id_of("https://www.youtube.com/embed/xyz?v=abc"), "abc");
    assert_eq!(id_of("https://www.youtube.com:8080/watch?v=abc"), "abc");
    assert_eq!(id_of("https://user@www.youtube.com/watch?v=abc"), "abc");
}

#[test]
fn serialisation_is_always_the_canonical_form() {
    let url = parse("http://www.youtube.com:8080/embed?list=PL1&v=abc&t=1#frag").unwrap();
    assert_eq!(url.to_string(), "https://www.youtube.com/watch?v=abc");
}

#[test]
fn the_last_video_parameter_wins() {
    assert_eq!(id_of("https://www.youtube.com/watch?v=first&v=second"), "second");
    assert_eq!(id_of("https://www.youtube.com/watch?v=first&x=1&v=second&y=2"), "second");
}

#[test]
fn the_video_id_is_taken_as_decoded_and_not_checked() {
    assert_eq!(id_of("https://www.youtube.com/watch?v="), "");
    assert_eq!(id_of("https://www.youtube.com/watch?v"), "");
    assert_eq!(id_of("https://www.youtube.com/watch?v=a%20b"), "a b");
    assert_eq!(id_of("https://www.youtube.com/watch?v=a+b"), "a b");
    assert_eq!(id_of("https://www.youtube.com/watch?v=x-y.z~"), "x-y.z~");
    assert_eq!(
        id_of("https://www.youtube.com/watch?v=0123456789012345678901234567890123456789"),
        "0123456789012345678901234567890123456789"
    );
}

#[test]
fn the_parser_writes_the_host_in_lower_case() {
    assert_eq!(id_of("https://WWW.YouTube.COM/watch?v=abc"), "abc");
}

#[test]
fn reparsing_the_serialisation_gives_the_same_id() {
    for text in [
        "https://www.youtube.com/watch?v=5gGha71avA5",
        "http://www.youtube.com/watch?t=1&v=IN9jNrGAlJW",
        "https://www.youtube.com/embed?v=a_b-c&v=______",
    ] {
        let first = parse(text).unwrap();
        let second = parse(&first.to_string()).unwrap();
        assert_eq!(first.video_id(), second.video_id());
        assert_eq!(first.to_string(), second.to_string());
    }
}

#[test]
fn an_id_with_a_separator_is_cut_when_reparsed() {
    let first = parse("https://www.youtube.com/watch?v=a%26b").unwrap();
    assert_eq!(first.video_id(), "a&b");
    assert_eq!(first.to_string(), "https://www.youtube.com/watch?v=a&b");
    let second = parse(&first.to_string()).unwrap();
    assert_eq!(second.video_id(), "a");
}

#[test]
fn from_video_id_validates_the_canonical_url() {
    let url = YoutubeUrl::from_video_id("5gGha71avA5").unwrap();
    assert_eq!(url.video_id(), "5gGha71avA5");
    assert_eq!(url.to_string(), "https://www.youtube.com/watch?v=5gGha71avA5");
    assert_eq!(YoutubeUrl::from_video_id("a#b").unwrap().video_id(), "a");
}

#[test]
fn from_parts_reads_host_and_query() {
    let parts = UrlParts {
        host: Some("www.youtube.com".to_string()),
        query: pairs(&[("v", "abc"), ("t", "10"), ("v", "xyz"), ("u", "v")]),
    };
    assert_eq!(YoutubeUrl::from_parts(&parts).unwrap().video_id(), "xyz");

    let other_host = UrlParts {
        host: Some("www.youtube.co".to_string()),
        query: pairs(&[("v", "abc")]),
    };
    assert!(matches!(
        YoutubeUrl::from_parts(&other_host),
        Err(DomainError::InvalidYoutubeUrlError)
    ));

    let upper_case = UrlParts {
        host: Some("WWW.YOUTUBE.COM".to_string()),
        query: pairs(&[("v", "abc")]),
    };
    assert!(matches!(
        YoutubeUrl::from_parts(&upper_case),
        Err(DomainError::InvalidYoutubeUrlError)
    ));

    let no_host = UrlParts { host: None, query: pairs(&[("v", "abc")]) };
    assert!(matches!(
        YoutubeUrl::from_parts(&no_host),
        Err(DomainError::InvalidYoutubeUrlError)
    ));

    let no_video = UrlParts {
        host: Some("www.youtube.com".to_string()),
        query: pairs(&[("w", "abc"), ("vv", "abc"), ("", "v")]),
    };
    assert!(matches!(
        YoutubeUrl::from_parts(&no_video),
        Err(DomainError::InvalidYoutubeUrlError)
    ));

    let no_query = UrlParts { host: Some("www.youtube.com".to_string()), query: Vec::new() };
    assert!(matches!(
        YoutubeUrl::from_parts(&no_query),
        Err(DomainError::InvalidYoutubeUrlError)
    ));
}

#[test]
fn from_parsed_maps_both_outcomes() {
    let parts = UrlParts {
        host: Some("www.youtube.com".to_string()),
        query: pairs(&[("v", "abc")]),
    };
    assert_eq!(YoutubeUrl::from_parsed(Ok(parts)).unwrap().video_id(), "abc");
    assert!(matches!(
        YoutubeUrl::from_parsed(Err(ParseError::InvalidPort)),
        Err(DomainError::ParseUrlError(ParseError::InvalidPort))
    ));
}

#[test]
fn a_parser_error_converts_into_a_domain_error() {
    let err: DomainError = ParseError::EmptyHost.into();
    assert!(matches!(err, DomainError::ParseUrlError(ParseError::EmptyHost)));
    let err = DomainError::from(ParseError::IdnaError);
    assert!(matches!(err, DomainError::ParseUrlError(ParseError::IdnaError)));
}

#[test]
fn try_into_validates_a_string() {
    let url: YoutubeUrl = "https://www.youtube.com/watch?v=abc".to_string().try_into().unwrap();
    assert_eq!(url.video_id(), "abc");
    let refused: Result<YoutubeUrl, DomainError> = "https://example.com/".to_string().try_into();
    assert!(matches!(refused, Err(DomainError::InvalidYoutubeUrlError)));
}

#[test]
fn find_last_value_takes_the_last_pair_of_that_name() {
    let query = pairs(&[("a", "1"), ("b", "2"), ("a", "3"), ("c", "4")]);
    assert_eq!(find_last_value(&query, "a"), Some("3".to_string()));
    assert_eq!(find_last_value(&query, "b"), Some("2".to_string()));
    assert_eq!(find_last_value(&query, "c"), Some("4".to_string()));
    assert_eq!(find_last_value(&query, "d"), None);
    assert_eq!(find_last_value(&query, ""), None);
    assert_eq!(find_last_value(&Vec::new(), "a"), None);
}

#[test]
fn the_charset_is_digits_letters_and_underscore() {
    assert_eq!(
        id_charset_bytes(),
        Vec::from("0123456789abcdefghijklmnopqrstuvwxyzABCDEFGHIJKLMNOPQRSTUVWXYZ_")
    );
}

#[test]
fn a_generated_id_has_eleven_symbols_of_the_charset() {
    assert_eq!(ID_LEN, 11);
    let charset = id_charset_bytes();
    let mut rng = StdRng::seed_from_u64(2024);
    for _ in 0..200 {
        let id = generate_video_id(&mut rng);
        assert_eq!(id.chars().count(), 11);
        assert!(id.bytes().all(|b| charset.contains(&b)));
    }
}

#[test]
fn generated_ids_vary_and_repeat_with_the_seed() {
    let mut rng = StdRng::seed_from_u64(1);
    let first = generate_video_id(&mut rng);
    let second = generate_video_id(&mut rng);
    assert_ne!(first, second);

    let mut again = StdRng::seed_from_u64(1);
    assert_eq!(generate_video_id(&mut again), first);
    assert_eq!(generate_video_id(&mut again), second);
}

#[test]
fn a_generated_reference_round_trips() {
    let mut rng = StdRng::seed_from_u64(99);
    for _ in 0..50 {
        let url = YoutubeUrl::dummy_with_rng(&mut rng).unwrap();
        assert_eq!(url.video_id().chars().count(), 11);
        let again = parse(&url.to_string()).unwrap();
        assert_eq!(again.video_id(), url.video_id());
    }
}
