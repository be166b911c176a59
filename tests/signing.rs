use smugmug::error::SmugMugError;
use smugmug::params::normalize_params;
use smugmug::signer::authorization_header;
use smugmug::signer::create_oauth1_header;
use smugmug::signer::sign_request;
use smugmug::signer::signature_base_string;
use smugmug::signer::signing_key;
use smugmug::signer::Creds;
use smugmug::signer::HttpMethod;

const CONSUMER_KEY: &str = "xvz1evFS4wEEPTGEFPHBog";
const CONSUMER_SECRET: &str = "kAcSOqF21Fu85e7zjz7ZN2U4ZRhfV3WpwPAoE3Z7kBw";
const TOKEN: &str = "370773112-GmHxMAgYyLbNEtIKZeRNFsMKPR9EyMZeS9weJAEb";
const TOKEN_SECRET: &str = "LswwdoUaIvS8ltyTt5jkRh4J50vUPVVHtR2YPi5kE";
const NONCE: &str = "kYjzVBB8Y0ZFabxSWbWovY3uYSQ2pTgmZeNu2VS4cg";
const TIMESTAMP: &str = "1318622958";
const URL: &str = "https://api.twitter.com/1.1/statuses/update.json";

fn full_creds() -> Creds {
    Creds::from_tokens(CONSUMER_KEY, Some(CONSUMER_SECRET), Some(TOKEN), Some(TOKEN_SECRET))
}

fn vector_query() -> Vec<(String, String)> {
    vec![
        ("status".to_string(), "Hello Ladies + Gentlemen, a signed OAuth request!".to_string()),
        ("include_entities".to_string(), "true".to_string()),
    ]
}

#[test]
fn base_string_matches_known_vector() {
    let base = signature_base_string(
        HttpMethod::Post,
        URL,
        &vector_query(),
        CONSUMER_KEY,
        NONCE,
        TIMESTAMP,
        TOKEN,
    );
    assert_eq!(
        base,
        "POST&https%3A%2F%2Fapi.twitter.com%2F1.1%2Fstatuses%2Fupdate.json&include_entities%3Dtrue%26oauth_consumer_key%3Dxvz1evFS4wEEPTGEFPHBog%26oauth_nonce%3DkYjzVBB8Y0ZFabxSWbWovY3uYSQ2pTgmZeNu2VS4cg%26oauth_signature_method%3DHMAC-SHA1%26oauth_timestamp%3D1318622958%26oauth_token%3D370773112-GmHxMAgYyLbNEtIKZeRNFsMKPR9EyMZeS9weJAEb%26oauth_version%3D1.0%26status%3DHello%2520Ladies%2520%252B%2520Gentlemen%252C%2520a%2520signed%2520OAuth%2520request%2521"
    );
}

#[test]
fn signing_key_joins_encoded_secrets() {
    assert_eq!(
        signing_key(CONSUMER_SECRET, TOKEN_SECRET),
        "kAcSOqF21Fu85e7zjz7ZN2U4ZRhfV3WpwPAoE3Z7kBw&LswwdoUaIvS8ltyTt5jkRh4J50vUPVVHtR2YPi5kE"
    );
    assert_eq!(signing_key("a b+c", "~x-y._z"), "a%20b%2Bc&~x-y._z");
    assert_eq!(signing_key("é", ""), "%C3%A9&");
}

#[test]
fn signature_matches_known_vector() {
    let header = sign_request(&full_creds(), HttpMethod::Post, URL, &vector_query(), NONCE, TIMESTAMP)
        .unwrap();
    assert!(header.contains("oauth_signature=\"hCtSmYh%2BiHYCEqBWrE7C7hYmtUk%3D\""));
    assert_eq!(
        header,
        "OAuth oauth_consumer_key=\"xvz1evFS4wEEPTGEFPHBog\", oauth_nonce=\"kYjzVBB8Y0ZFabxSWbWovY3uYSQ2pTgmZeNu2VS4cg\", oauth_signature=\"hCtSmYh%2BiHYCEqBWrE7C7hYmtUk%3D\", oauth_signature_method=\"HMAC-SHA1\", oauth_timestamp=\"1318622958\", oauth_token=\"370773112-GmHxMAgYyLbNEtIKZeRNFsMKPR9EyMZeS9weJAEb\", oauth_version=\"1.0\""
    );
}

#[test]
fn signing_is_deterministic_for_fixed_nonce_and_time() {
    let creds = full_creds();
    let a = sign_request(&creds, HttpMethod::Get, URL, &vector_query(), NONCE, TIMESTAMP).unwrap();
    let b = sign_request(&creds, HttpMethod::Get, URL, &vector_query(), NONCE, TIMESTAMP).unwrap();
    assert_eq!(a, b);
    let c = sign_request(&creds, HttpMethod::Get, URL, &vector_query(), NONCE, "1318622959").unwrap();
    assert_ne!(a, c);
}

#[test]
fn authorization_header_encodes_values() {
    let h = authorization_header("k", "n", "1", "t", "a+b/c=");
    assert_eq!(
        h,
        "OAuth oauth_consumer_key=\"k\", oauth_nonce=\"n\", oauth_signature=\"a%2Bb%2Fc%3D\", oauth_signature_method=\"HMAC-SHA1\", oauth_timestamp=\"1\", oauth_token=\"t\", oauth_version=\"1.0\""
    );
}

#[test]
fn missing_secrets_fail_with_auth_in_order() {
    let q: Vec<(String, String)> = Vec::new();
    let no_token = Creds::from_tokens("k", Some("s"), None, Some("ts"));
    assert_eq!(
        sign_request(&no_token, HttpMethod::Get, URL, &q, NONCE, TIMESTAMP),
        Err(SmugMugError::Auth("Access token not found".to_string()))
    );
    let no_secret = Creds::from_tokens("k", None, Some("t"), Some("ts"));
    assert_eq!(
        sign_request(&no_secret, HttpMethod::Get, URL, &q, NONCE, TIMESTAMP),
        Err(SmugMugError::Auth("Consumer secret not found".to_string()))
    );
    let no_token_secret = Creds::from_tokens("k", Some("s"), Some("t"), None);
    assert_eq!(
        sign_request(&no_token_secret, HttpMethod::Get, URL, &q, NONCE, TIMESTAMP),
        Err(SmugMugError::Auth("Token secret not found".to_string()))
    );
}

#[test]
fn fresh_header_lists_seven_parameters() {
    let header = create_oauth1_header(
        &full_creds(),
        HttpMethod::Get,
        "https://api.smugmug.com/api/v2/node/abc?_verbosity=1&count=25",
    )
    .unwrap();
    assert!(header.starts_with("OAuth "));
    let fields: Vec<&str> = header["OAuth ".len()..].split(", ").collect();
    let names: Vec<&str> = fields.iter().map(|f| f.split('=').next().unwrap()).collect();
    assert_eq!(
        names,
        vec![
            "oauth_consumer_key",
            "oauth_nonce",
            "oauth_signature",
            "oauth_signature_method",
            "oauth_timestamp",
            "oauth_token",
            "oauth_version"
        ]
    );
    let nonce = fields[1].trim_start_matches("oauth_nonce=\"").trim_end_matches('"');
    assert_eq!(nonce.len(), 32);
    assert!(nonce.chars().all(|c| c.is_ascii_alphanumeric()));
}

#[test]
fn fresh_header_fails_without_secrets() {
    let creds = Creds::from_tokens("k", None, None, None);
    assert_eq!(
        create_oauth1_header(&creds, HttpMethod::Post, "https://api.smugmug.com/x"),
        Err(SmugMugError::Auth("Access token not found".to_string()))
    );
}

#[test]
fn parameters_sort_by_key_then_value() {
    let v = vec![
        ("b".to_string(), "2".to_string()),
        ("a".to_string(), "3".to_string()),
        ("a".to_string(), "1".to_string()),
        ("c d".to_string(), "x&y".to_string()),
    ];
    assert_eq!(normalize_params(&v), "a=1&a=3&b=2&c%20d=x%26y");
    assert_eq!(normalize_params(&Vec::new()), "");
}

#[test]
fn unreserved_characters_are_never_encoded() {
    let unreserved = "ABCXYZabcxyz0189-._~";
    assert_eq!(signing_key(unreserved, unreserved), format!("{}&{}", unreserved, unreserved));
    assert_eq!(signing_key("%", "/?#[]@!$'()*+,;= "), "%25&%2F%3F%23%5B%5D%40%21%24%27%28%29%2A%2B%2C%3B%3D%20");
}

#[test]
fn fresh_header_signs_url_base_and_decoded_query() {
    let creds = full_creds();
    let url = "https://api.smugmug.com/api/v2/node/abc?Name=a%20b&count=25#frag";
    let header = create_oauth1_header(&creds, HttpMethod::Get, url).unwrap();
    let field = |name: &str| -> String {
        let start = header.find(&format!("{}=\"", name)).unwrap() + name.len() + 2;
        let end = start + header[start..].find('"').unwrap();
        header[start..end].to_string()
    };
    let nonce = field("oauth_nonce");
    let timestamp = field("oauth_timestamp");
    assert!(timestamp.parse::<i64>().unwrap() > 1_600_000_000);
    let query = vec![("Name".to_string(), "a b".to_string()), ("count".to_string(), "25".to_string())];
    let expected = sign_request(
        &creds,
        HttpMethod::Get,
        "https://api.smugmug.com/api/v2/node/abc",
        &query,
        &nonce,
        &timestamp,
    )
    .unwrap();
    assert_eq!(header, expected);
}
