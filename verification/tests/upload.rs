use cryptify::email::Language;
use cryptify::error::{refusal, Error};
use cryptify::ident::new_session_id;
use cryptify::range::ContentRange;
use cryptify::session::{Attribute, FileState, UploadError};
use cryptify::upload::{
    init_state, upload_chunk, upload_chunk_check, upload_finalize, upload_finalize_check,
    upload_init, FinalizeHeaders, InitBody, UploadHeaders, EXPIRY_SECONDS,
};

const ID: &str = "936da01f-9abd-4d9d-80c7-02af85c822a8";

fn body(recipient: &str) -> InitBody {
    InitBody {
        recipient: recipient.to_string(),
        mail_content: "<p>hi</p>".to_string(),
        mail_lang: Language::Nl,
        confirm: true,
    }
}

fn open_session(token: &str) -> FileState {
    init_state(&body("a@example.com"), Vec::new(), 1_000, &[0u8; 0]).with_token(token)
}

trait WithToken {
    fn with_token(self, token: &str) -> Self;
}

impl WithToken for FileState {
    fn with_token(mut self, token: &str) -> Self {
        self.cryptify_token = token.to_string();
        self
    }
}

fn headers(token: &str, start: Option<u64>, end: Option<u64>, size: Option<u64>) -> UploadHeaders {
    UploadHeaders {
        cryptify_token: token.to_string(),
        content_range: ContentRange { size, start, end },
    }
}

fn total(size: Option<u64>) -> FinalizeHeaders {
    FinalizeHeaders { content_range: ContentRange { size, start: None, end: None } }
}

fn sender() -> Vec<Attribute> {
    vec![Attribute {
        atype: "pbdf.sidn-pbdf.email.email".to_string(),
        value: Some("me@example.com".to_string()),
    }]
}

fn status_and_text(response: Result<Option<String>, Error>) -> (u16, Option<String>) {
    match response {
        Err(e) => (e.status(), e.body()),
        Ok(found) => panic!("unexpected success {:?}", found),
    }
}

#[test]
fn upload_headers_need_token_and_range() {
    assert_eq!(
        UploadHeaders::from_request(None, Some("bytes 0-1/2")).err(),
        Some("Missing Cryptify Token header".to_string())
    );
    assert_eq!(
        UploadHeaders::from_request(None, None).err(),
        Some("Missing Cryptify Token header".to_string())
    );
    assert_eq!(
        UploadHeaders::from_request(Some("t"), None).err(),
        Some("Missing content range".to_string())
    );
    assert_eq!(
        UploadHeaders::from_request(Some("t"), Some("octets 0-1/2")).err(),
        Some("Unknown unit octets".to_string())
    );
    let read = UploadHeaders::from_request(Some("t"), Some("bytes 0-99/250")).unwrap();
    assert_eq!(read.cryptify_token, "t");
    assert_eq!(read.content_range, ContentRange { size: Some(250), start: Some(0), end: Some(99) });
}

#[test]
fn finalize_headers_need_a_range() {
    assert_eq!(FinalizeHeaders::from_request(None).err(), Some("Missing content range".to_string()));
    assert_eq!(
        FinalizeHeaders::from_request(Some("bytes */x")).err(),
        Some("invalid digit found in string".to_string())
    );
    let read = FinalizeHeaders::from_request(Some("bytes */250")).unwrap();
    assert_eq!(read.content_range, ContentRange { size: Some(250), start: None, end: None });
}

#[test]
fn chunk_for_a_text_that_is_no_uuid_finds_nothing() {
    let mut state = open_session("t0");
    let h = headers("t0", Some(0), Some(3), None);
    for id in ["", "abc", "../../etc/passwd", "936da01f-9abd-4d9d-80c7-02af85c822a", "936da01f-9abd-4d9d-80c7-02af85c822ag", "936da01f_9abd-4d9d-80c7-02af85c822a8"] {
        assert_eq!(upload_chunk(&mut state, id, &h, &[1, 2, 3]).unwrap(), None, "for {:?}", id);
        assert_eq!(upload_chunk_check(&state, id, &h).unwrap(), None, "for {:?}", id);
    }
    assert_eq!(state.uploaded, 0);
    for id in [
        ID,
        "936DA01F-9ABD-4D9D-80C7-02AF85C822A8",
        "936da01f9abd4d9d80c702af85c822a8",
        "{936da01f-9abd-4d9d-80c7-02af85c822a8}",
        "urn:uuid:936da01f-9abd-4d9d-80c7-02af85c822a8",
        "URN:UUID:936da01f-9abd-4d9d-80c7-02af85c822a8",
    ] {
        assert_eq!(upload_chunk_check(&state, id, &h).unwrap(), Some((0, 3)), "for {:?}", id);
    }
}

#[test]
fn chunk_request_moves_the_session_on() {
    let mut state = open_session("t0");
    let h = headers("t0", Some(0), Some(3), Some(10));
    assert_eq!(upload_chunk_check(&state, ID, &h).unwrap(), Some((0, 3)));
    let t1 = upload_chunk(&mut state, ID, &h, &[1, 2, 3]).unwrap().unwrap();
    assert_eq!(t1, cryptify::token::rotate_token("t0", &[1, 2, 3]));
    assert_eq!(state.uploaded, 3);
    assert_eq!(state.cryptify_token, t1);
}

#[test]
fn chunk_request_errors_carry_their_text() {
    let mut state = open_session("t0");
    assert_eq!(
        status_and_text(upload_chunk(&mut state, ID, &headers("t0", None, Some(3), None), &[1])),
        (400, Some("Could not read Content-Range start".to_string()))
    );
    assert_eq!(
        status_and_text(upload_chunk(&mut state, ID, &headers("t0", Some(0), None, None), &[1])),
        (400, Some("Could not read Content-Range start".to_string()))
    );
    assert_eq!(
        status_and_text(upload_chunk(&mut state, ID, &headers("t0", Some(3), Some(3), None), &[])),
        (400, Some("Incorrect Content-Range header".to_string()))
    );
    assert_eq!(
        status_and_text(upload_chunk(&mut state, ID, &headers("t0", Some(1), Some(3), None), &[1, 2])),
        (400, Some("Incorrect Content-Range header".to_string()))
    );
    assert_eq!(
        status_and_text(upload_chunk(
            &mut state,
            ID,
            &headers("t0", Some(0), Some(1_048_577), None),
            &[1]
        )),
        (400, Some("File chunk too large; the maximum is 1 MB".to_string()))
    );
    assert_eq!(
        status_and_text(upload_chunk(&mut state, ID, &headers("no", Some(0), Some(3), None), &[1, 2, 3])),
        (400, Some("Cryptify Token header does not match".to_string()))
    );
    assert_eq!(
        status_and_text(upload_chunk(&mut state, ID, &headers("t0", Some(0), Some(3), None), &[1, 2])),
        (400, Some("Data not complete".to_string()))
    );
    assert_eq!(state.uploaded, 0);
    assert_eq!(state.cryptify_token, "t0");
}

#[test]
fn finalize_request_completes_the_session() {
    let mut state = open_session("t0");
    let h = headers("t0", Some(0), Some(3), None);
    upload_chunk(&mut state, ID, &h, &[1, 2, 3]).unwrap().unwrap();

    assert_eq!(upload_finalize_check(&state, &total(Some(2))).err().map(|e| e.status()), Some(422));
    assert_eq!(upload_finalize_check(&state, &total(None)).err().map(|e| e.status()), Some(422));
    assert_eq!(upload_finalize_check(&state, &total(Some(3))).unwrap(), Some(()));

    let wrong = upload_finalize(&mut state, &total(Some(2)), Some(sender())).unwrap_err();
    assert_eq!(wrong.status(), 422);
    assert_eq!(wrong.body(), Some(String::new()));
    let absent = upload_finalize(&mut state, &total(None), Some(sender())).unwrap_err();
    assert_eq!(absent.status(), 422);
    assert!(!state.completed);

    let unread = upload_finalize(&mut state, &total(Some(3)), None).unwrap_err();
    assert_eq!(unread.status(), 500);
    assert_eq!(unread.body(), Some("couldn't read postguard file".to_string()));
    let nameless = upload_finalize(&mut state, &total(Some(3)), Some(Vec::new())).unwrap_err();
    assert_eq!(nameless.status(), 500);
    assert_eq!(nameless.body(), Some("no email attribute".to_string()));
    assert!(!state.completed);

    assert_eq!(upload_finalize(&mut state, &total(Some(3)), Some(sender())).unwrap(), Some(()));
    assert!(state.completed);
    assert_eq!(state.sender, Some("me@example.com".to_string()));

    assert_eq!(upload_finalize(&mut state, &total(Some(3)), Some(sender())).unwrap(), None);
    assert_eq!(upload_finalize_check(&state, &total(Some(3))).unwrap(), None);
    assert_eq!(upload_chunk(&mut state, ID, &headers("t0", Some(3), Some(4), None), &[1]).unwrap(), None);
}

#[test]
fn refusal_maps_each_error() {
    assert!(refusal(UploadError::NotFound).is_none());
    let statuses = [
        (UploadError::BadRange, 400),
        (UploadError::ChunkTooLarge, 400),
        (UploadError::TokenMismatch, 400),
        (UploadError::IncompleteData, 400),
        (UploadError::SizeMismatch, 422),
        (UploadError::SealError, 500),
        (UploadError::NoSender, 500),
    ];
    for (error, status) in statuses {
        assert_eq!(refusal(error).unwrap().status(), status);
    }
    assert_eq!(refusal(UploadError::SizeMismatch).unwrap().body(), Some(String::new()));
}

#[test]
fn error_body_is_absent_only_for_a_bad_request_without_text() {
    assert_eq!(Error::BadRequest(None).body(), None);
    assert_eq!(Error::BadRequest(Some("x".to_string())).body(), Some("x".to_string()));
    assert_eq!(Error::UnprocessableEntity(None).body(), Some(String::new()));
    assert_eq!(Error::UnprocessableEntity(Some("y".to_string())).body(), Some("y".to_string()));
    assert_eq!(Error::InternalServerError(None).body(), Some(String::new()));
    assert_eq!(Error::InternalServerError(Some("z".to_string())).body(), Some("z".to_string()));
    assert_eq!(Error::BadRequest(None).status(), 400);
    assert_eq!(Error::UnprocessableEntity(None).status(), 422);
    assert_eq!(Error::InternalServerError(None).status(), 500);
}

#[test]
fn init_state_starts_an_open_session() {
    let state = init_state(&body("a@example.com"), Vec::new(), 1_700_000_000, &[0xab, 0x01]);
    assert_eq!(state.uploaded, 0);
    assert_eq!(state.cryptify_token, "ab01");
    assert_eq!(state.expires, 1_700_000_000 + 1_209_600);
    assert_eq!(state.mail_content, "<p>hi</p>");
    assert_eq!(state.mail_lang, Language::Nl);
    assert_eq!(state.sender, None);
    assert!(state.confirm);
    assert!(!state.completed);
    assert_eq!(EXPIRY_SECONDS, 14 * 24 * 60 * 60);
}

#[test]
fn upload_init_reads_the_recipients_and_draws_a_token() {
    let state = upload_init(&body("Ann <ann@example.com>, bob@example.org"), 50).unwrap();
    assert_eq!(state.recipients.len(), 2);
    assert_eq!(state.recipients[0].name, Some("Ann".to_string()));
    assert_eq!(state.recipients[0].email, "ann@example.com");
    assert_eq!(state.recipients[0].text, "Ann <ann@example.com>");
    assert_eq!(state.recipients[1].name, None);
    assert_eq!(state.recipients[1].email, "bob@example.org");
    assert_eq!(state.recipients[1].text, "bob@example.org");
    assert_eq!(state.cryptify_token.len(), 64);
    assert!(state.cryptify_token.chars().all(|c| c.is_ascii_digit() || ('a'..='f').contains(&c)));
    assert_eq!(state.expires, 50 + 1_209_600);
    assert_eq!(state.uploaded, 0);
    let other = upload_init(&body("ann@example.com"), 50).unwrap();
    assert_ne!(state.cryptify_token, other.cryptify_token);
}

#[test]
fn upload_init_turns_down_unreadable_recipients() {
    let refused = upload_init(&body("not an address"), 50).unwrap_err();
    assert_eq!(refused.status(), 400);
    let text = refused.body().unwrap();
    assert!(text.starts_with("Could not parse e-mail address: "), "{}", text);
    assert!(text.len() > "Could not parse e-mail address: ".len());
}

#[test]
fn new_session_ids_are_hyphenated_uuids() {
    let id = new_session_id();
    assert_eq!(id.len(), 36);
    for (i, c) in id.chars().enumerate() {
        if i == 8 || i == 13 || i == 18 || i == 23 {
            assert_eq!(c, '-');
        } else {
            assert!(c.is_ascii_digit() || ('a'..='f').contains(&c));
        }
    }
    assert_ne!(id, new_session_id());
    let state = open_session("t0");
    assert_eq!(
        upload_chunk_check(&state, &id, &headers("t0", Some(0), Some(1), None)).unwrap(),
        Some((0, 1))
    );
}
