use incli::cert::{
    key_text, timestamp_or_unknown, timestamp_text, Cert, KEY_TEXT_LEN, SECRET_WARNING,
    TIMESTAMP_FORMAT, TIMESTAMP_LEN, UNKNOWN_TIME,
};

const PUBLIC: &str = "Yne@$w-vo<fVvi]a<NY6T1ed:M$fCG*[IaLV{hID";
const SECRET: &str = "D:)Q[IlAW!ahhC2ac:9*A}h:p?([4%wOTJ%JR%cs";
const ZEROS: &str = "0000000000000000000000000000000000000000";
const WHEN: &str = "2017-01-02 03:04:05";

fn is_timestamp(text: &str) -> bool {
    let bytes = text.as_bytes();
    bytes.len() == 19
        && bytes.iter().enumerate().all(|(i, b)| match i {
            4 | 7 => *b == b'-',
            10 => *b == b' ',
            13 | 16 => *b == b':',
            _ => b.is_ascii_digit(),
        })
}

#[test]
fn test_secret() {
    let cert = Cert::new(PUBLIC, SECRET).unwrap();
    let doc = cert.secret();
    assert!(doc.contains(PUBLIC));
    assert!(doc.contains(SECRET));
    assert!(doc.contains(SECRET_WARNING));
}

#[test]
fn test_header() {
    let cert = Cert::new(PUBLIC, SECRET).unwrap();
    let header = cert.header(true);
    assert!(header.starts_with("#   ****  Generated on "));
    assert!(header.ends_with(
        " by incli  ****\n#   Intecture CURVE SECRET Certificate\n#   THIS FILE MUST BE KEPT PRIVATE AT ALL TIMES AND NEVER SHARED!\n\n"
    ));
}

#[test]
fn test_add_metadata() {
    let cert = Cert::new(PUBLIC, SECRET).unwrap();
    let mut header = String::new();
    cert.add_metadata(&mut header);
    assert_eq!(header, "metadata\n");
    let mut longer = String::from("# head\n");
    cert.add_metadata(&mut longer);
    assert_eq!(longer, "# head\nmetadata\n");
}

#[test]
fn header_carries_the_time_of_the_clock() {
    let cert = Cert::new(PUBLIC, SECRET).unwrap();
    let header = cert.header(false);
    let rest = header.strip_prefix("#   ****  Generated on ").unwrap();
    let stamp = rest.strip_suffix(" by incli  ****\n#   Intecture CURVE Public Certificate\n\n").unwrap();
    assert!(is_timestamp(stamp), "unexpected time stamp {:?}", stamp);
}

#[test]
fn key_text_wants_forty_characters_of_the_alphabet() {
    assert_eq!(KEY_TEXT_LEN, 40);
    assert!(key_text(PUBLIC));
    assert!(key_text(SECRET));
    assert!(key_text(ZEROS));
    assert!(key_text(".-:+=^!/*?&<>()[]{}@%$#0189azAZ.-:+=^!/*"));
    assert!(!key_text(""));
    assert!(!key_text(&ZEROS[1..]));
    assert!(!key_text("00000000000000000000000000000000000000000"));
    assert!(!key_text("000000000000000000000000000000000000000 "));
    assert!(!key_text("000000000000000000000000000000000000000\""));
    assert!(!key_text("000000000000000000000000000000000000000_"));
    assert!(!key_text("000000000000000000000000000000000000000é"));
}

#[test]
fn new_refuses_malformed_keys() {
    assert!(Cert::new(PUBLIC, SECRET).is_some());
    assert!(Cert::new("short", SECRET).is_none());
    assert!(Cert::new(PUBLIC, "short").is_none());
    assert!(Cert::new("", "").is_none());
}

#[test]
fn new_keeps_the_keys_and_has_no_metadata() {
    let cert = Cert::new(PUBLIC, SECRET).unwrap();
    assert_eq!(cert.public_txt(), PUBLIC);
    assert_eq!(cert.secret_txt(), SECRET);
    assert!(cert.meta().is_empty());
}

#[test]
fn decode_meta_takes_any_bytes() {
    let mut cert = Cert::new(PUBLIC, SECRET).unwrap();
    cert.decode_meta(vec![0xff, 0x00, 0x7f]);
    assert_eq!(cert.meta(), &vec![0xff, 0x00, 0x7f]);
    assert_eq!(cert.public_txt(), PUBLIC);
    assert_eq!(cert.secret_txt(), SECRET);
}

#[test]
fn secret_document_is_rendered_exactly() {
    let cert = Cert::new(PUBLIC, SECRET).unwrap();
    let expected = format!(
        "#   ****  Generated on {} by incli  ****\n#   Intecture CURVE SECRET Certificate\n#   THIS FILE MUST BE KEPT PRIVATE AT ALL TIMES AND NEVER SHARED!\n\nmetadata\ncurve\n    public-key = \"{}\"\n    secret-key = \"{}\"",
        WHEN, PUBLIC, SECRET
    );
    assert_eq!(cert.render_at(true, WHEN), expected);
}

#[test]
fn public_document_is_rendered_exactly() {
    let cert = Cert::new(PUBLIC, SECRET).unwrap();
    let expected = format!(
        "#   ****  Generated on {} by incli  ****\n#   Intecture CURVE Public Certificate\n\nmetadata\ncurve\n    public-key = \"{}\"",
        WHEN, PUBLIC
    );
    assert_eq!(cert.render_at(false, WHEN), expected);
}

#[test]
fn headers_are_rendered_exactly() {
    assert_eq!(
        Cert::header_at(false, WHEN),
        "#   ****  Generated on 2017-01-02 03:04:05 by incli  ****\n#   Intecture CURVE Public Certificate\n\n"
    );
    assert_eq!(
        Cert::header_at(true, ""),
        "#   ****  Generated on  by incli  ****\n#   Intecture CURVE SECRET Certificate\n#   THIS FILE MUST BE KEPT PRIVATE AT ALL TIMES AND NEVER SHARED!\n\n"
    );
}

#[test]
fn secret_document_holds_both_keys_and_the_warning() {
    let cert = Cert::new(PUBLIC, SECRET).unwrap();
    let doc = cert.render(true);
    assert!(doc.contains(PUBLIC));
    assert!(doc.contains(SECRET));
    assert!(doc.contains("THIS FILE MUST BE KEPT PRIVATE AT ALL TIMES AND NEVER SHARED!"));
}

#[test]
fn public_document_holds_the_public_key_only() {
    let cert = Cert::new(PUBLIC, SECRET).unwrap();
    for doc in [cert.render(false), cert.public(), cert.render_at(false, WHEN)] {
        assert!(doc.contains(PUBLIC));
        assert!(!doc.contains(SECRET));
        assert!(!doc.contains("secret-key"));
        assert!(!doc.contains("KEPT PRIVATE"));
    }
}

#[test]
fn public_document_of_equal_keys_shows_the_shared_text() {
    let cert = Cert::new(ZEROS, ZEROS).unwrap();
    let doc = cert.render_at(false, WHEN);
    assert_eq!(doc.matches(ZEROS).count(), 1);
}

#[test]
fn public_document_repeats_a_time_stamp_that_holds_the_key() {
    let cert = Cert::new(PUBLIC, ZEROS).unwrap();
    let doc = cert.render_at(false, ZEROS);
    assert!(doc.contains(ZEROS));
}

#[test]
fn rendering_leaves_the_certificate_as_it_was() {
    let cert = Cert::new(PUBLIC, SECRET).unwrap();
    let first = cert.render_at(true, WHEN);
    let second = cert.render_at(true, WHEN);
    assert_eq!(first, second);
    assert_eq!(cert.public_txt(), PUBLIC);
    assert_eq!(cert.secret_txt(), SECRET);
}

#[test]
fn timestamp_text_wants_date_blank_and_time() {
    assert_eq!(TIMESTAMP_LEN, 19);
    assert_eq!(TIMESTAMP_FORMAT, "%F %T");
    assert!(timestamp_text(WHEN));
    assert!(timestamp_text("9999-99-99 99:99:99"));
    assert!(timestamp_text(UNKNOWN_TIME));
    assert!(!timestamp_text(""));
    assert!(!timestamp_text("2017-01-02 03:04:0"));
    assert!(!timestamp_text("2017-01-02 03:04:055"));
    assert!(!timestamp_text("2017-01-02T03:04:05"));
    assert!(!timestamp_text("2017/01/02 03:04:05"));
    assert!(!timestamp_text("2017-01-02 03.04.05"));
    assert!(!timestamp_text("2o17-01-02 03:04:05"));
    assert!(!timestamp_text("-017-01-02 03:04:05"));
    assert!(!timestamp_text("2017-01-02 03:04:0٥"));
    assert!(!timestamp_text(ZEROS));
}

#[test]
fn a_text_that_is_no_time_stamp_gives_way_to_the_unknown_time() {
    assert_eq!(UNKNOWN_TIME, "0000-00-00 00:00:00");
    assert_eq!(timestamp_or_unknown(WHEN), WHEN);
    assert_eq!(timestamp_or_unknown(""), UNKNOWN_TIME);
    assert_eq!(timestamp_or_unknown(SECRET), UNKNOWN_TIME);
    assert_eq!(timestamp_or_unknown("12017-01-02 03:04:05"), UNKNOWN_TIME);
}

#[test]
fn public_header_holds_nothing_of_the_secret() {
    for cert in [Cert::new(PUBLIC, SECRET).unwrap(), Cert::new(ZEROS, ZEROS).unwrap()] {
        let header = cert.header(false);
        assert!(!header.contains(cert.secret_txt()));
        assert!(!header.contains("secret-key"));
        assert!(!header.contains("MUST BE KEPT PRIVATE"));
        assert!(!header.contains(SECRET_WARNING));
        assert!(header.contains("Public"));
    }
}

#[test]
fn documents_made_now_carry_a_time_stamp() {
    let cert = Cert::new(PUBLIC, SECRET).unwrap();
    for secret in [false, true] {
        let doc = cert.render(secret);
        let rest = doc.strip_prefix("#   ****  Generated on ").unwrap();
        assert!(timestamp_text(&rest[..19]), "unexpected time stamp in {:?}", &rest[..19]);
        assert_eq!(&rest[19..29], " by incli ");
        assert_eq!(doc, cert.render_at(secret, &rest[..19]));
    }
}
