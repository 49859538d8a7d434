use pastebin::locale::{resolve, Locale};

#[test]
fn explicit_tokens_parse() {
    assert_eq!(Locale::from_param(&b"zh".to_vec()), Locale::SimplifiedChinese);
    assert_eq!(Locale::from_param(&b"jp".to_vec()), Locale::Japanese);
    assert_eq!(Locale::from_param(&b"en".to_vec()), Locale::English);
}

#[test]
fn unrecognized_token_falls_back_to_english() {
    assert_eq!(Locale::from_param(&b"de".to_vec()), Locale::English);
    assert_eq!(Locale::from_param(&b"ZH".to_vec()), Locale::English);
    assert_eq!(Locale::from_param(&b"".to_vec()), Locale::English);
    assert_eq!(Locale::from_param(&b"zh-CN".to_vec()), Locale::English);
}

#[test]
fn header_markers_classify() {
    assert_eq!(
        Locale::from_header(&b"zh-CN,zh;q=0.9".to_vec()),
        Locale::SimplifiedChinese
    );
    assert_eq!(Locale::from_header(&b"jp,en;q=0.8".to_vec()), Locale::Japanese);
    assert_eq!(Locale::from_header(&b"en-US,en;q=0.5".to_vec()), Locale::English);
}

#[test]
fn header_without_markers_falls_back_to_english() {
    assert_eq!(Locale::from_header(&b"fr-FR,fr;q=0.9".to_vec()), Locale::English);
    assert_eq!(Locale::from_header(&b"".to_vec()), Locale::English);
}

#[test]
fn header_chinese_marker_wins_over_japanese() {
    assert_eq!(
        Locale::from_header(&b"jp;q=0.9,zh;q=0.8".to_vec()),
        Locale::SimplifiedChinese
    );
}

#[test]
fn header_matches_marker_inside_longer_code() {
    // Substring containment is deliberate: a longer code containing the
    // marker bytes also matches.
    assert_eq!(Locale::from_header(&b"gzh".to_vec()), Locale::SimplifiedChinese);
}

#[test]
fn resolve_prefers_explicit_token_over_header() {
    let token = b"en".to_vec();
    let header = b"zh-CN".to_vec();
    assert_eq!(resolve(Some(&token), Some(&header)), Locale::English);
}

#[test]
fn resolve_with_bad_token_ignores_header() {
    let token = b"xx".to_vec();
    let header = b"zh-CN".to_vec();
    assert_eq!(resolve(Some(&token), Some(&header)), Locale::English);
}

#[test]
fn resolve_uses_header_without_token() {
    let header = b"jp".to_vec();
    assert_eq!(resolve(None, Some(&header)), Locale::Japanese);
}

#[test]
fn resolve_defaults_to_english_with_no_input() {
    assert_eq!(resolve(None, None), Locale::English);
}

#[test]
fn token_bytes_round() {
    assert_eq!(Locale::SimplifiedChinese.token_bytes(), b"zh".to_vec());
    assert_eq!(Locale::Japanese.token_bytes(), b"jp".to_vec());
    assert_eq!(Locale::English.token_bytes(), b"en".to_vec());
}
