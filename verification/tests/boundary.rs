use url_shortener::allocation::allocate;
use url_shortener::codegen::generate;
use url_shortener::error::AppError;
use url_shortener::models::CreateUrlRequest;
use url_shortener::qr::generate_qr;
use url_shortener::resolve::client_ip;
use url_shortener::service::{allocate_now, resolve_now};
use url_shortener::store::Store;

#[test]
fn client_ip_takes_first_forwarded_entry() {
    let h = "203.0.113.9, 198.51.100.2, 192.0.2.1".to_string();
    assert_eq!(client_ip(Some(&h)), "203.0.113.9");
}

#[test]
fn client_ip_trims_whitespace() {
    let h = " \t 203.0.113.9 \t , 198.51.100.2".to_string();
    assert_eq!(client_ip(Some(&h)), "203.0.113.9");
}

#[test]
fn client_ip_without_comma_takes_whole_value() {
    let h = "198.51.100.7".to_string();
    assert_eq!(client_ip(Some(&h)), "198.51.100.7");
}

#[test]
fn client_ip_absent_header_is_unknown() {
    assert_eq!(client_ip(None), "unknown");
}

#[test]
fn client_ip_empty_or_blank_entry_is_empty() {
    let h = ", 198.51.100.2".to_string();
    assert_eq!(client_ip(Some(&h)), "");
    let blank = " \t ".to_string();
    assert_eq!(client_ip(Some(&blank)), "");
}

#[test]
fn generated_codes_have_length_and_alphabet() {
    for len in [0usize, 1, 6, 20] {
        let code = generate(len);
        assert_eq!(code.chars().count(), len);
        assert!(code.chars().all(|c| c.is_ascii_alphanumeric()));
    }
}

#[test]
fn qr_for_unknown_code_not_found() {
    let store = Store::new();
    let r = generate_qr(&store, &"nosuch".to_string(), &"http://localhost:3000".to_string());
    assert!(matches!(r, Err(AppError::UrlNotFound)));
}

#[test]
fn qr_renders_svg_for_known_code() {
    let mut store = Store::new();
    let req = CreateUrlRequest {
        url: "https://example.com".to_string(),
        custom_code: Some("qrcode".to_string()),
        expires_at: None,
    };
    allocate(&mut store, &req, 1).unwrap();

    let base = "http://localhost:3000".to_string();
    let svg = generate_qr(&store, &"qrcode".to_string(), &base)
        .expect("QR rendering of a short URL must succeed");
    assert!(svg.contains("<svg"));
    assert_ne!(svg, "http://localhost:3000/qrcode");

    let again = generate_qr(&store, &"qrcode".to_string(), &base).unwrap();
    assert_eq!(svg, again, "rendering is a function of the encoded URL alone");
}

#[test]
fn wall_clock_entry_points_round_trip() {
    let mut store = Store::new();
    let req = CreateUrlRequest {
        url: "https://example.com/clock".to_string(),
        custom_code: Some("ticker".to_string()),
        expires_at: None,
    };
    let rec = allocate_now(&mut store, &req).expect("fresh custom code must be allocated");
    assert_eq!(rec.id, "ticker");
    assert!(rec.created_at > 0);

    let target = resolve_now(&mut store, &"ticker".to_string(), None, None)
        .expect("an unexpired code must resolve");
    assert_eq!(target, "https://example.com/clock");
}
