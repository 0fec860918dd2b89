use incli::auth::Error;
use incli::wire::{
    create_request, delete_request, list_request, parse_create_reply, parse_delete_reply,
    parse_list_reply, status, Status,
};

const ZEROS: &str = "0000000000000000000000000000000000000000";

fn reply(parts: &[&str]) -> Vec<Vec<u8>> {
    parts.iter().map(|p| p.as_bytes().to_vec()).collect()
}

fn is_malformed<T>(r: Result<T, Error>) -> bool {
    matches!(r, Err(Error::MalformedReply))
}

fn refusal<T>(r: Result<T, Error>) -> Option<String> {
    match r {
        Err(Error::AuthorityError(message)) => Some(message),
        _ => None,
    }
}

#[test]
fn requests_open_with_the_verb() {
    assert_eq!(list_request("host"), vec!["cert::list", "host"]);
    assert_eq!(create_request("host", "foobar"), vec!["cert::create", "host", "foobar"]);
    assert_eq!(delete_request("foobar"), vec!["cert::delete", "foobar"]);
    assert_eq!(list_request(""), vec!["cert::list", ""]);
}

#[test]
fn status_is_read_from_the_first_frame() {
    assert_eq!(status(&reply(&["Ok"])), Some(Status::Granted));
    assert_eq!(status(&reply(&["Ok", "more"])), Some(Status::Granted));
    assert_eq!(status(&reply(&["Err", "why"])), Some(Status::Refused));
    assert_eq!(status(&reply(&[])), None);
    assert_eq!(status(&reply(&["Maybe"])), None);
    assert_eq!(status(&reply(&["ok"])), None);
    assert_eq!(status(&reply(&["OK"])), None);
    assert_eq!(status(&reply(&["Ok "])), None);
    assert_eq!(status(&reply(&["", "Ok"])), None);
    assert_eq!(status(&vec![vec![0xff]]), None);
}

#[test]
fn list_reply_keeps_the_order_of_arrival() {
    let names = parse_list_reply(&reply(&["Ok", "Fat", "Yak", "is", "DELICIOUS"])).unwrap();
    assert_eq!(names, vec!["Fat", "Yak", "is", "DELICIOUS"]);
}

#[test]
fn list_reply_may_be_empty_or_repeat_names() {
    assert_eq!(parse_list_reply(&reply(&["Ok"])).unwrap(), Vec::<String>::new());
    assert_eq!(parse_list_reply(&reply(&["Ok", "a", "a", ""])).unwrap(), vec!["a", "a", ""]);
}

#[test]
fn list_reply_with_a_frame_that_is_no_text_is_malformed() {
    let mut frames = reply(&["Ok", "Fat", "Yak"]);
    frames.push(vec![0xc3, 0x28]);
    frames.push(b"is".to_vec());
    assert!(is_malformed(parse_list_reply(&frames)));
}

#[test]
fn refusal_carries_the_message_of_the_authority() {
    assert_eq!(refusal(parse_list_reply(&reply(&["Err", "I'm broke!"]))).unwrap(), "I'm broke!");
    assert_eq!(refusal(parse_create_reply(&reply(&["Err", "I'm broke!"]))).unwrap(), "I'm broke!");
    assert_eq!(refusal(parse_delete_reply(&reply(&["Err", "I'm broke!"]))).unwrap(), "I'm broke!");
    assert_eq!(refusal(parse_delete_reply(&reply(&["Err", ""]))).unwrap(), "");
}

#[test]
fn refusal_wants_exactly_one_message() {
    assert!(is_malformed(parse_list_reply(&reply(&["Err"]))));
    assert!(is_malformed(parse_create_reply(&reply(&["Err"]))));
    assert!(is_malformed(parse_delete_reply(&reply(&["Err"]))));
    assert!(is_malformed(parse_list_reply(&reply(&["Err", "a", "b"]))));
    assert!(is_malformed(parse_create_reply(&reply(&["Err", "a", "b"]))));
    assert!(is_malformed(parse_delete_reply(&reply(&["Err", "a", "b"]))));
    assert!(is_malformed(parse_delete_reply(&vec![b"Err".to_vec(), vec![0xff]])));
}

#[test]
fn unknown_status_is_malformed_for_every_verb() {
    for frames in [reply(&["Maybe"]), reply(&["Maybe", "Fat", "Yak"]), reply(&[]), reply(&[""])] {
        assert!(is_malformed(parse_list_reply(&frames)));
        assert!(is_malformed(parse_create_reply(&frames)));
        assert!(is_malformed(parse_delete_reply(&frames)));
    }
}

#[test]
fn create_reply_yields_the_certificate() {
    let mut frames = reply(&["Ok", "Yne@$w-vo<fVvi]a<NY6T1ed:M$fCG*[IaLV{hID", ZEROS]);
    frames.push(vec![1, 2, 3, 0xff]);
    let cert = parse_create_reply(&frames).unwrap();
    assert_eq!(cert.public_txt(), "Yne@$w-vo<fVvi]a<NY6T1ed:M$fCG*[IaLV{hID");
    assert_eq!(cert.secret_txt(), ZEROS);
    assert_eq!(cert.meta(), &vec![1, 2, 3, 0xff]);
}

#[test]
fn create_reply_wants_exactly_three_frames_after_the_status() {
    assert!(is_malformed(parse_create_reply(&reply(&["Ok"]))));
    assert!(is_malformed(parse_create_reply(&reply(&["Ok", ZEROS]))));
    assert!(is_malformed(parse_create_reply(&reply(&["Ok", ZEROS, ZEROS]))));
    assert!(is_malformed(parse_create_reply(&reply(&["Ok", ZEROS, ZEROS, "", ""]))));
    assert!(parse_create_reply(&reply(&["Ok", ZEROS, ZEROS, ""])).is_ok());
}

#[test]
fn create_reply_wants_well_formed_keys() {
    assert!(is_malformed(parse_create_reply(&reply(&["Ok", "short", ZEROS, ""]))));
    assert!(is_malformed(parse_create_reply(&reply(&["Ok", ZEROS, "short", ""]))));
    assert!(is_malformed(parse_create_reply(&reply(&["Ok", ZEROS, "", ""]))));
    let mut frames = reply(&["Ok", ZEROS]);
    frames.push(vec![0xff; 40]);
    frames.push(Vec::new());
    assert!(is_malformed(parse_create_reply(&frames)));
}

#[test]
fn delete_reply_is_the_status_alone() {
    assert!(parse_delete_reply(&reply(&["Ok"])).is_ok());
    assert!(is_malformed(parse_delete_reply(&reply(&["Ok", "extra"]))));
    assert!(is_malformed(parse_delete_reply(&reply(&["Ok", ""]))));
}
