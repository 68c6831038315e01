use shortener::flow::{
    after_insert, after_lookup, after_lookup_with, after_validation, begin_shorten,
    resolve_outcome, ShortenStep,
};
use shortener::ident::generate_id;
use shortener::link::{ShortenError, ID_LEN};
use shortener::store::ShortenerService;
use shortener::validation::is_valid_url;

fn is_short_id(s: &str) -> bool {
    s.chars().count() == ID_LEN && s.chars().all(|c| c.is_ascii_alphanumeric())
}

#[test]
fn google_scenario() {
    let mut svc = ShortenerService::new();
    let x = svc.shorten("https://google.com/").unwrap();
    assert!(is_short_id(&x));
    assert_eq!(svc.redirect(&x), Ok(Some("https://google.com/".to_string())));
    let again = svc.shorten("https://google.com/").unwrap();
    assert_eq!(again, x);
    assert_eq!(svc.redirect("zzzzzz"), Ok(None));
}

#[test]
fn shorten_twice_returns_same_id() {
    let mut svc = ShortenerService::new();
    let a = svc.shorten("https://example.org/a?b=c").unwrap();
    let b = svc.shorten("https://example.org/a?b=c").unwrap();
    assert_eq!(a, b);
}

#[test]
fn round_trip_several_urls() {
    let mut svc = ShortenerService::new();
    let urls = ["https://a.example/", "http://b.example/x/y", "ftp://c.example/file.txt"];
    let mut ids = Vec::new();
    for u in urls.iter() {
        ids.push(svc.shorten(u).unwrap());
    }
    for (u, id) in urls.iter().zip(ids.iter()) {
        assert_eq!(svc.redirect(id), Ok(Some(u.to_string())));
    }
}

#[test]
fn distinct_urls_get_distinct_ids() {
    let mut svc = ShortenerService::new();
    let a = svc.shorten("https://one.example/").unwrap();
    let b = svc.shorten("https://two.example/").unwrap();
    assert_ne!(a, b);
    assert_eq!(svc.redirect(&a), Ok(Some("https://one.example/".to_string())));
    assert_eq!(svc.redirect(&b), Ok(Some("https://two.example/".to_string())));
}

#[test]
fn invalid_url_is_refused_and_store_unchanged() {
    let mut svc = ShortenerService::new();
    let x = svc.shorten("https://google.com/").unwrap();
    assert_eq!(svc.shorten("not a url"), Err(ShortenError::InvalidUrl));
    assert_eq!(svc.find_by_url("not a url"), None);
    assert_eq!(svc.find_by_url("https://google.com/"), Some(x.clone()));
    assert_eq!(svc.shorten("https://google.com/"), Ok(x));
}

#[test]
fn empty_and_relative_urls_are_invalid() {
    let mut svc = ShortenerService::new();
    assert_eq!(svc.shorten(""), Err(ShortenError::InvalidUrl));
    assert_eq!(svc.shorten("/just/a/path"), Err(ShortenError::InvalidUrl));
}

#[test]
fn unknown_id_is_not_found() {
    let svc = ShortenerService::new();
    assert_eq!(svc.redirect("zzzzzz"), Ok(None));
    assert_eq!(svc.redirect(""), Ok(None));
    assert_eq!(svc.redirect("not an id at all"), Ok(None));
}

#[test]
fn url_validation() {
    assert!(is_valid_url("https://google.com/"));
    assert!(is_valid_url("http://localhost:8000/u/abc"));
    assert!(!is_valid_url("not a url"));
    assert!(!is_valid_url(""));
}

#[test]
fn generated_ids_have_the_right_shape() {
    for _ in 0..200 {
        let id = generate_id();
        assert!(is_short_id(&id), "bad id {:?}", id);
    }
}

#[test]
fn insert_refuses_duplicate_id() {
    let mut svc = ShortenerService::new();
    assert_eq!(svc.insert("abc123".to_string(), "https://a.example/"), Ok(()));
    assert!(svc.insert("abc123".to_string(), "https://b.example/").is_err());
    assert_eq!(svc.find_by_id("abc123"), Some("https://a.example/".to_string()));
    assert_eq!(svc.find_by_url("https://b.example/"), None);
}

#[test]
fn insert_refuses_duplicate_url() {
    let mut svc = ShortenerService::new();
    assert_eq!(svc.insert("AAAAAA".to_string(), "https://a.example/"), Ok(()));
    assert!(svc.insert("BBBBBB".to_string(), "https://a.example/").is_err());
    assert_eq!(svc.find_by_id("BBBBBB"), None);
    assert_eq!(svc.find_by_url("https://a.example/"), Some("AAAAAA".to_string()));
}

#[test]
fn shorten_reuses_inserted_row() {
    let mut svc = ShortenerService::new();
    svc.insert("Zz9Zz9".to_string(), "https://known.example/").unwrap();
    assert_eq!(svc.shorten("https://known.example/"), Ok("Zz9Zz9".to_string()));
    assert_eq!(svc.shorten_checked("https://known.example/", true), Ok("Zz9Zz9".to_string()));
}

#[test]
fn shorten_checked_trusts_the_validity_flag() {
    let mut svc = ShortenerService::new();
    assert_eq!(svc.shorten_checked("https://ok.example/", false), Err(ShortenError::InvalidUrl));
    assert_eq!(svc.find_by_url("https://ok.example/"), None);
    let id = svc.shorten_checked("https://ok.example/", true).unwrap();
    assert!(is_short_id(&id));
}

#[test]
fn validation_step() {
    assert!(matches!(after_validation(true), ShortenStep::FindByUrl));
    assert!(matches!(
        after_validation(false),
        ShortenStep::Finish(Err(ShortenError::InvalidUrl))
    ));
    assert!(matches!(begin_shorten("https://google.com/"), ShortenStep::FindByUrl));
    assert!(matches!(
        begin_shorten("not a url"),
        ShortenStep::Finish(Err(ShortenError::InvalidUrl))
    ));
}

#[test]
fn lookup_step() {
    match after_lookup_with(Ok(Some("abcdef".to_string())), "XXXXXX".to_string()) {
        ShortenStep::Finish(Ok(id)) => assert_eq!(id, "abcdef"),
        other => panic!("unexpected {:?}", other),
    }
    match after_lookup_with(Ok(None), "XXXXXX".to_string()) {
        ShortenStep::Insert(id) => assert_eq!(id, "XXXXXX"),
        other => panic!("unexpected {:?}", other),
    }
    match after_lookup_with(Err("connection reset".to_string()), "XXXXXX".to_string()) {
        ShortenStep::Finish(Err(ShortenError::StoreError(m))) => assert_eq!(m, "connection reset"),
        other => panic!("unexpected {:?}", other),
    }
    match after_lookup(Ok(None)) {
        ShortenStep::Insert(id) => assert!(is_short_id(&id)),
        other => panic!("unexpected {:?}", other),
    }
    match after_lookup(Ok(Some("qwerty".to_string()))) {
        ShortenStep::Finish(Ok(id)) => assert_eq!(id, "qwerty"),
        other => panic!("unexpected {:?}", other),
    }
}

#[test]
fn insert_step() {
    assert_eq!(after_insert("abcdef".to_string(), Ok(())), Ok("abcdef".to_string()));
    assert_eq!(
        after_insert("abcdef".to_string(), Err("duplicate key".to_string())),
        Err(ShortenError::StoreError("duplicate key".to_string()))
    );
}

#[test]
fn resolve_step() {
    assert_eq!(resolve_outcome(Ok(None)), Ok(None));
    assert_eq!(
        resolve_outcome(Ok(Some("https://google.com/".to_string()))),
        Ok(Some("https://google.com/".to_string()))
    );
    assert_eq!(
        resolve_outcome(Err("pool timed out".to_string())),
        Err(ShortenError::StoreError("pool timed out".to_string()))
    );
}

#[test]
fn shorten_with_id_uses_the_given_id() {
    let mut svc = ShortenerService::new();
    assert_eq!(
        svc.shorten_with_id("https://a.example/", true, "AAAAAA".to_string()),
        Ok("AAAAAA".to_string())
    );
    assert_eq!(svc.redirect("AAAAAA"), Ok(Some("https://a.example/".to_string())));
    // A known URL keeps its id whatever id is offered.
    assert_eq!(
        svc.shorten_with_id("https://a.example/", true, "BBBBBB".to_string()),
        Ok("AAAAAA".to_string())
    );
    assert_eq!(svc.redirect("BBBBBB"), Ok(None));
}

#[test]
fn shorten_with_colliding_id_is_a_store_error() {
    let mut svc = ShortenerService::new();
    svc.shorten_with_id("https://a.example/", true, "AAAAAA".to_string()).unwrap();
    match svc.shorten_with_id("https://b.example/", true, "AAAAAA".to_string()) {
        Err(ShortenError::StoreError(m)) => assert!(!m.is_empty()),
        other => panic!("unexpected {:?}", other),
    }
    assert_eq!(svc.find_by_url("https://b.example/"), None);
    assert_eq!(svc.redirect("AAAAAA"), Ok(Some("https://a.example/".to_string())));
}

#[test]
fn shorten_with_id_refuses_invalid_flag() {
    let mut svc = ShortenerService::new();
    assert_eq!(
        svc.shorten_with_id("https://a.example/", false, "AAAAAA".to_string()),
        Err(ShortenError::InvalidUrl)
    );
    assert_eq!(svc.redirect("AAAAAA"), Ok(None));
}
