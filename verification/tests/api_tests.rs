use pastebin::api::{
    hitcount, index, retrieve, retrieve_api, robots, upload, upload_api, HitCount,
};
use pastebin::compose::{build_localized_url, build_share_url, language_switch_link};
use pastebin::ident::{allocate, random_id, validate_id};
use pastebin::locale::Locale;
use pastebin::store::Store;
use pastebin::text::{lookup, TextKey};
use pastebin::{PasteError, ALLOC_ATTEMPTS, ID_LENGTH};

const HOST: &[u8] = b"https://copy.red";

fn is_alphanumeric_ascii(b: u8) -> bool {
    (48..=57).contains(&b) || (65..=90).contains(&b) || (97..=122).contains(&b)
}

#[test]
fn post_hello_answers_share_url_and_get_returns_hello() {
    let mut store = Store::new();
    let created = upload_api(
        &mut store,
        &HOST.to_vec(),
        b"hello".to_vec(),
        ID_LENGTH,
        ALLOC_ATTEMPTS,
    )
    .expect("create on an empty store must find a free identifier eventually");
    assert_eq!(created.id.len(), 3);
    assert!(created.id.iter().all(|b| is_alphanumeric_ascii(*b)));
    let mut expected = HOST.to_vec();
    expected.push(b'/');
    expected.extend_from_slice(&created.id);
    expected.push(b'\n');
    assert_eq!(created.response, expected);
    assert_eq!(
        retrieve_api(&store, &created.id, ID_LENGTH),
        Ok(b"hello".to_vec())
    );
}

#[test]
fn arbitrary_bytes_round_trip_unchanged() {
    let mut store = Store::new();
    let body: Vec<u8> = (0..=255).collect();
    let created = upload_api(&mut store, &HOST.to_vec(), body.clone(), ID_LENGTH, ALLOC_ATTEMPTS)
        .expect("create must succeed");
    assert_eq!(retrieve_api(&store, &created.id, ID_LENGTH), Ok(body));
}

#[test]
fn form_create_redirects_to_retrieval_path() {
    let mut store = Store::new();
    let created = upload(&mut store, b"form text".to_vec(), ID_LENGTH, ALLOC_ATTEMPTS)
        .expect("create must succeed");
    let mut expected = b"/".to_vec();
    expected.extend_from_slice(&created.id);
    assert_eq!(created.location, expected);
    assert_eq!(
        retrieve_api(&store, &created.id, ID_LENGTH),
        Ok(b"form text".to_vec())
    );
}

#[test]
fn unwritten_identifier_shows_empty_page_and_plain_not_found() {
    let store = Store::new();
    let id = b"abc".to_vec();
    let page = retrieve(&store, &HOST.to_vec(), &id, Locale::English, ID_LENGTH);
    assert_eq!(page.share_url, None);
    assert_eq!(page.content, None);
    assert_eq!(page.locale, Locale::English);
    assert_eq!(
        retrieve_api(&store, &id, ID_LENGTH),
        Err(PasteError::NotFound)
    );
}

#[test]
fn written_identifier_shows_content_and_share_banner() {
    let mut store = Store::new();
    let created = upload_api(&mut store, &HOST.to_vec(), b"shown".to_vec(), ID_LENGTH, ALLOC_ATTEMPTS)
        .expect("create must succeed");
    let page = retrieve(&store, &HOST.to_vec(), &created.id, Locale::Japanese, ID_LENGTH);
    assert_eq!(page.content, Some(b"shown".to_vec()));
    let mut expected_url = HOST.to_vec();
    expected_url.push(b'/');
    expected_url.extend_from_slice(&created.id);
    assert_eq!(page.share_url, Some(expected_url));
    assert_eq!(page.locale, Locale::Japanese);
}

#[test]
fn malformed_identifier_is_rejected_before_storage() {
    let mut store = Store::new();
    store.write(&b"../".to_vec(), b"hidden".to_vec());
    assert_eq!(
        retrieve_api(&store, &b"../".to_vec(), ID_LENGTH),
        Err(PasteError::InvalidIdentifier)
    );
    assert_eq!(
        retrieve_api(&store, &b"abcd".to_vec(), ID_LENGTH),
        Err(PasteError::InvalidIdentifier)
    );
    let page = retrieve(&store, &HOST.to_vec(), &b"../".to_vec(), Locale::English, ID_LENGTH);
    assert_eq!(page.share_url, None);
    assert_eq!(page.content, None);
}

#[test]
fn allocated_identifier_is_fresh_and_well_formed() {
    let mut store = Store::new();
    store.write(&b"aaa".to_vec(), b"taken".to_vec());
    let id = allocate(&store, ID_LENGTH, ALLOC_ATTEMPTS).expect("allocation must succeed");
    assert_eq!(id.len(), ID_LENGTH);
    assert!(id.iter().all(|b| is_alphanumeric_ascii(*b)));
    assert!(!store.contains_id(&id));
}

#[test]
fn allocation_in_exhausted_space_fails_with_capacity_error() {
    // Constrain the identifier space to the single zero-length identifier
    // and occupy it: every draw collides, so the bounded allocator must
    // report exhaustion instead of spinning forever.
    let mut store = Store::new();
    store.write(&Vec::new(), b"occupant".to_vec());
    assert_eq!(
        allocate(&store, 0, 100),
        Err(PasteError::CapacityExhausted)
    );
    assert!(matches!(
        upload_api(&mut store, &HOST.to_vec(), b"x".to_vec(), 0, 100),
        Err(PasteError::CapacityExhausted)
    ));
}

#[test]
fn allocation_in_free_singleton_space_succeeds() {
    let store = Store::new();
    assert_eq!(allocate(&store, 0, 1), Ok(Vec::new()));
}

#[test]
fn random_identifiers_stay_in_the_alphabet() {
    for _ in 0..50 {
        let id = random_id(8);
        assert!(validate_id(&id, 8));
        assert!(id.iter().all(|b| is_alphanumeric_ascii(*b)));
    }
}

#[test]
fn switch_link_recomposes_identifier_under_target_locale() {
    let url = Some(b"https://copy.red/abc".to_vec());
    assert_eq!(language_switch_link(&url, &Locale::English), b"/en/abc".to_vec());
    assert_eq!(
        language_switch_link(&url, &Locale::SimplifiedChinese),
        b"/zh/abc".to_vec()
    );
}

#[test]
fn switch_link_without_url_is_bare_locale_root() {
    assert_eq!(language_switch_link(&None, &Locale::Japanese), b"/jp".to_vec());
}

#[test]
fn switch_link_with_no_segment_falls_back_to_locale_root() {
    let no_slash = Some(b"abc".to_vec());
    assert_eq!(language_switch_link(&no_slash, &Locale::English), b"/en".to_vec());
    let trailing_slash = Some(b"https://copy.red/".to_vec());
    assert_eq!(
        language_switch_link(&trailing_slash, &Locale::English),
        b"/en".to_vec()
    );
}

#[test]
fn share_urls_compose_as_the_routes_expect() {
    let host = HOST.to_vec();
    let id = b"abc".to_vec();
    assert_eq!(build_share_url(&host, &id), b"https://copy.red/abc".to_vec());
    assert_eq!(
        build_localized_url(&host, &Locale::Japanese, &id),
        b"https://copy.red/jp/abc".to_vec()
    );
}

#[test]
fn index_counts_the_visit_and_shows_the_empty_state() {
    let mut hits = HitCount { count: 0 };
    let page = index(&mut hits, Locale::SimplifiedChinese);
    assert_eq!(hits.count, 1);
    assert_eq!(page.share_url, None);
    assert_eq!(page.content, None);
    assert_eq!(page.locale, Locale::SimplifiedChinese);
    index(&mut hits, Locale::English);
    assert_eq!(hits.count, 2);
}

#[test]
fn hitcount_renders_decimal() {
    assert_eq!(hitcount(&HitCount { count: 0 }), b"0".to_vec());
    assert_eq!(hitcount(&HitCount { count: 7 }), b"7".to_vec());
    assert_eq!(hitcount(&HitCount { count: 12345 }), b"12345".to_vec());
    assert_eq!(
        hitcount(&HitCount { count: u64::MAX }),
        b"18446744073709551615".to_vec()
    );
}

#[test]
fn saturating_counter_stops_at_capacity() {
    let mut hits = HitCount { count: u64::MAX };
    index(&mut hits, Locale::English);
    assert_eq!(hits.count, u64::MAX);
}

#[test]
fn text_lookup_returns_the_localized_strings() {
    assert_eq!(
        lookup(Locale::English, TextKey::SiteTitle),
        "copy.red - your sharable cloud clipboard"
    );
    assert_eq!(lookup(Locale::SimplifiedChinese, TextKey::PasteButton), "新建粘贴");
    assert_eq!(lookup(Locale::Japanese, TextKey::InfoH1), "自動化");
    assert_eq!(lookup(Locale::English, TextKey::HelpMsg1H1), "GOAL");
}

#[test]
fn text_bundle_is_complete_and_nonempty() {
    let locales = [Locale::SimplifiedChinese, Locale::Japanese, Locale::English];
    let keys = [
        TextKey::LangId,
        TextKey::SiteTitle,
        TextKey::PasteButton,
        TextKey::HelpH1,
        TextKey::HelpH2,
        TextKey::HelpMsg1H1,
        TextKey::HelpMsg1H2,
        TextKey::HelpMsg2H1,
        TextKey::HelpMsg2H2,
        TextKey::InfoH1,
        TextKey::InfoH2,
        TextKey::PostApiDoc,
        TextKey::GetApiDoc,
    ];
    for l in locales {
        for k in keys {
            assert!(!lookup(l, k).is_empty());
        }
    }
}

#[test]
fn robots_policy_is_permissive() {
    let body = robots();
    assert!(body.contains("User-agent: *"));
    assert!(body.contains("Allow: /"));
}
