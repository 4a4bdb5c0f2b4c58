use chrono::TimeZone;
use cryptify::config::{CryptifyConfig, RawCryptifyConfig};
use cryptify::email::{
    confirmation_mail, download_link, email_confirm, email_templates, format_date,
    format_file_size, link_with, mail_strings, mailboxes_text, recipient_mail, Language, MailError,
    Mailbox, LINK_PART_LIMIT, PETA,
};
use cryptify::metadata::Metadata;
use cryptify::session::FileState;

fn mailbox(name: Option<&str>, email: &str, text: &str) -> Mailbox {
    Mailbox { name: name.map(|n| n.to_string()), email: email.to_string(), text: text.to_string() }
}

fn state(lang: Language, confirm: bool, sender: Option<&str>) -> FileState {
    FileState {
        uploaded: 1536,
        cryptify_token: "t".to_string(),
        expires: 1_700_000_000,
        recipients: vec![
            mailbox(Some("Ann"), "ann@example.com", "Ann <ann@example.com>"),
            mailbox(None, "bob@example.org", "bob@example.org"),
        ],
        mail_content: "<p>hi</p>".to_string(),
        mail_lang: lang,
        sender: sender.map(|s| s.to_string()),
        confirm,
        completed: true,
    }
}

fn float_size(size: u64) -> String {
    const UNITS: [&str; 5] = ["B", "kB", "MB", "GB", "TB"];
    let i = ((size as f64).log10() / (1024_f64).log10()).floor();
    format!("{:.1} {}", (size as f64 / (1024_f64).powi(i as i32)), UNITS[i as usize])
}

#[test]
fn file_sizes_are_written_with_one_decimal() {
    assert_eq!(format_file_size(0), "NaN B");
    assert_eq!(format_file_size(1), "1.0 B");
    assert_eq!(format_file_size(999), "999.0 B");
    assert_eq!(format_file_size(1023), "1023.0 B");
    assert_eq!(format_file_size(1024), "1.0 kB");
    assert_eq!(format_file_size(1536), "1.5 kB");
    assert_eq!(format_file_size(1_048_575), "1024.0 kB");
    assert_eq!(format_file_size(1_048_576), "1.0 MB");
    assert_eq!(format_file_size(5 * 1_073_741_824 + 1_073_741_824 / 4), "5.2 GB");
    assert_eq!(format_file_size(1_099_511_627_776), "1.0 TB");
    assert_eq!(format_file_size(PETA - 1_099_511_627_776), "1023.0 TB");
}

#[test]
fn file_sizes_round_to_the_even_tenth_when_halfway() {
    assert_eq!(format_file_size(1024 + 51), "1.0 kB");
    assert_eq!(format_file_size(1024 + 52), "1.1 kB");
    assert_eq!(format_file_size(1280), "1.2 kB");
    assert_eq!(format_file_size(1792), "1.8 kB");
    assert_eq!(format_file_size(1024 + 128 + 256), "1.4 kB");
}

#[test]
fn file_sizes_agree_with_floating_point_below_the_last_unit() {
    let mut size: u64 = 1;
    let mut step: u64 = 1;
    while size < 1 << 49 {
        for probe in [size - 1, size, size + 1, size + size / 3, size + size / 2] {
            if probe > 0 {
                assert_eq!(format_file_size(probe), float_size(probe), "for {}", probe);
            }
        }
        size += step;
        step += step / 2 + 1;
    }
    for size in 1..5000u64 {
        assert_eq!(format_file_size(size), float_size(size), "for {}", size);
    }
}

#[test]
fn dates_are_written_in_the_language_of_the_upload() {
    assert_eq!(format_date(1_700_000_000, &Language::En), Some("14 November 2023".to_string()));
    assert_eq!(format_date(1_700_000_000, &Language::Nl), Some("14 november 2023".to_string()));
    assert_eq!(format_date(0, &Language::En), Some(" 1 January 1970".to_string()));
    assert_eq!(format_date(0, &Language::Nl), Some(" 1 januari 1970".to_string()));
    assert_eq!(format_date(i64::MAX, &Language::En), None);
    assert_eq!(format_date(i64::MIN, &Language::Nl), None);
}

#[test]
fn dates_agree_with_the_calendar_library() {
    for date in [-86_400i64, 1, 951_782_400, 1_709_164_800, 4_102_444_800] {
        let time = chrono::Utc.timestamp_opt(date, 0).unwrap();
        assert_eq!(
            format_date(date, &Language::En),
            Some(time.format_localized("%e %B %Y", chrono::Locale::en_GB).to_string())
        );
        assert_eq!(
            format_date(date, &Language::Nl),
            Some(time.format_localized("%e %B %Y", chrono::Locale::nl_NL).to_string())
        );
    }
}

#[test]
fn download_link_carries_upload_and_recipient() {
    assert_eq!(
        download_link("https://example.com", "abc", "ann@example.com"),
        Ok("https://example.com/?download=abc&recipient=ann%40example.com#filesharing".to_string())
    );
    assert_eq!(
        download_link("https://example.com/app?x=1#old", "a b", "a&b"),
        Ok("https://example.com/app?x=1&download=a+b&recipient=a%26b#filesharing".to_string())
    );
    assert_eq!(download_link("not a url", "abc", "ann@example.com"), Err(MailError::BadServerUrl));
    assert_eq!(download_link("", "abc", "ann@example.com"), Err(MailError::BadServerUrl));
}

#[test]
fn link_parts_have_a_limit() {
    let long = "a".repeat(LINK_PART_LIMIT + 1);
    assert_eq!(download_link("https://example.com", &long, "x"), Err(MailError::LinkTooLong));
    assert_eq!(download_link("https://example.com", "x", &long), Err(MailError::LinkTooLong));
    assert_eq!(download_link(&long, "x", "y"), Err(MailError::LinkTooLong));
    assert_eq!(
        link_with("https://example.com", "k", "v", "l", "w", "f"),
        Ok("https://example.com/?k=v&l=w#f".to_string())
    );
}

#[test]
fn mail_strings_come_in_two_languages() {
    let en = mail_strings(Language::En);
    assert_eq!(en.subject_str, "sent you files via PostGuard");
    assert_eq!(en.sender_str, "sent you files");
    assert_eq!(en.expires_str, "Expires on");
    assert_eq!(en.download_str, "Download your files");
    assert_eq!(en.link_str, "Download link");
    assert_eq!(en.header_confirm, "You sent files to");
    assert_eq!(en.subject_confirm, "Your files have been sent via PostGuard");
    assert_eq!(en.confirm, "You can still access your files");
    let nl = mail_strings(Language::Nl);
    assert_eq!(nl.subject_str, "heeft je een bestand gestuurd via PostGuard");
    assert_eq!(nl.sender_str, "heeft je bestanden gestuurd");
    assert_eq!(nl.expires_str, "Verloopt op");
    assert_eq!(nl.download_str, "Download jouw bestanden");
    assert_eq!(nl.link_str, "Download link");
    assert_eq!(nl.header_confirm, "Je hebt het volgende gestuurd aan");
    assert_eq!(nl.subject_confirm, "Je bestanden zijn verstuurd via PostGuard");
    assert_eq!(nl.confirm, "Je kunt nog steeds bij je bestanden");
}

#[test]
fn notice_is_filled_in_for_a_recipient() {
    let s = state(Language::En, false, Some("me@example.com"));
    let (email, subject) = email_templates(&s, "https://x/").unwrap();
    assert_eq!(email.header, "me@example.com");
    assert_eq!(email.subheader, "sent you files");
    assert_eq!(email.expires_str, "Expires on");
    assert_eq!(email.download_str, "Download your files");
    assert_eq!(email.link_str, "Download link");
    assert_eq!(email.file_size, "1.5 kB");
    assert_eq!(email.expiry_date, "14 November 2023");
    assert_eq!(email.html_content, "<p>hi</p>");
    assert_eq!(email.url, "https://x/");
    assert_eq!(email.confirm, "");
    assert_eq!(subject.subject_str, "sent you files via PostGuard");
    assert_eq!(subject.sender, "me@example.com");

    let anonymous = state(Language::Nl, false, None);
    let (email, subject) = email_templates(&anonymous, "u").unwrap();
    assert_eq!(email.header, "Someone");
    assert_eq!(email.subheader, "heeft je bestanden gestuurd");
    assert_eq!(email.expiry_date, "14 november 2023");
    assert_eq!(subject.sender, "Someone");
}

#[test]
fn confirmation_is_filled_in_for_the_sender() {
    let s = state(Language::En, true, Some("me@example.com"));
    let (email, subject) = email_confirm(&s, "https://x/").unwrap();
    assert_eq!(email.header, "You sent files to");
    assert_eq!(email.subheader, "Ann <ann@example.com>, bob@example.org");
    assert_eq!(email.file_size, "1.5 kB");
    assert_eq!(email.expiry_date, "14 November 2023");
    assert_eq!(email.confirm, "You can still access your files");
    assert_eq!(email.url, "https://x/");
    assert_eq!(subject.subject_str, "Your files have been sent via PostGuard");
    assert_eq!(subject.sender, "");
}

#[test]
fn mails_that_cannot_be_filled_in_say_why() {
    let mut s = state(Language::En, true, Some("me@example.com"));
    s.uploaded = PETA;
    assert_eq!(email_templates(&s, "u").err(), Some(MailError::SizeOutOfRange));
    assert_eq!(email_confirm(&s, "u").err(), Some(MailError::SizeOutOfRange));
    s.expires = i64::MAX;
    assert_eq!(email_templates(&s, "u").err(), Some(MailError::SizeOutOfRange));
    s.uploaded = PETA - 1;
    assert_eq!(email_templates(&s, "u").err(), Some(MailError::DateOutOfRange));
    assert_eq!(email_confirm(&s, "u").err(), Some(MailError::DateOutOfRange));
}

#[test]
fn mailboxes_are_listed_with_commas() {
    assert_eq!(mailboxes_text(&Vec::new()), "");
    assert_eq!(mailboxes_text(&vec![mailbox(None, "a@b.c", "a@b.c")]), "a@b.c");
    assert_eq!(
        mailboxes_text(&vec![
            mailbox(None, "a@b.c", "a@b.c"),
            mailbox(Some("D"), "d@e.f", "D <d@e.f>"),
            mailbox(None, "g@h.i", "g@h.i"),
        ]),
        "a@b.c, D <d@e.f>, g@h.i"
    );
}

#[test]
fn each_recipient_gets_a_mail_with_a_link_of_its_own() {
    let s = state(Language::En, false, Some("me@example.com"));
    let first = recipient_mail("https://example.com", &s, "abc", 0).unwrap();
    assert_eq!(first.to, "Ann <ann@example.com>");
    assert_eq!(
        first.email.url,
        "https://example.com/?download=abc&recipient=ann%40example.com#filesharing"
    );
    assert_eq!(first.email.header, "me@example.com");
    assert_eq!(first.subject.subject_str, "sent you files via PostGuard");
    let second = recipient_mail("https://example.com", &s, "abc", 1).unwrap();
    assert_eq!(second.to, "bob@example.org");
    assert_eq!(
        second.email.url,
        "https://example.com/?download=abc&recipient=bob%40example.org#filesharing"
    );
    assert_eq!(recipient_mail("nowhere", &s, "abc", 0).err(), Some(MailError::BadServerUrl));
    let mut late = state(Language::En, false, None);
    late.expires = i64::MAX;
    assert_eq!(
        recipient_mail("https://example.com", &late, "abc", 0).err(),
        Some(MailError::DateOutOfRange)
    );
    assert_eq!(recipient_mail("nowhere", &late, "abc", 0).err(), Some(MailError::BadServerUrl));
}

#[test]
fn confirmation_goes_to_the_sender_when_asked_for() {
    let quiet = state(Language::En, false, None);
    assert!(confirmation_mail("https://example.com", &quiet, "abc").unwrap().is_none());
    assert!(confirmation_mail("nowhere", &quiet, "abc").unwrap().is_none());

    let s = state(Language::Nl, true, Some("me@example.com"));
    let mail = confirmation_mail("https://example.com", &s, "abc").unwrap().unwrap();
    assert_eq!(mail.to, "me@example.com");
    assert_eq!(
        mail.email.url,
        "https://example.com/?download=abc&recipient=me%40example.com#filesharing"
    );
    assert_eq!(mail.email.header, "Je hebt het volgende gestuurd aan");
    assert_eq!(mail.subject.subject_str, "Je bestanden zijn verstuurd via PostGuard");

    let unknown = state(Language::En, true, None);
    assert_eq!(
        confirmation_mail("https://example.com", &unknown, "abc").err(),
        Some(MailError::NoSender)
    );
    assert_eq!(confirmation_mail("nowhere", &s, "abc").err(), Some(MailError::BadServerUrl));
}

fn raw(email_from: &str, chunk_size: Option<u64>) -> RawCryptifyConfig {
    RawCryptifyConfig {
        server_url: "https://example.com".to_string(),
        data_dir: "/tmp/data".to_string(),
        email_from: email_from.to_string(),
        smtp_url: "localhost".to_string(),
        smtp_port: 1025,
        smtp_credentials: Some(("user".to_string(), "pass".to_string())),
        allowed_origins: "^https://example\\.com$".to_string(),
        pkg_url: "https://pkg.example.com".to_string(),
        chunk_size,
        s3_endpoint: Some("https://s3.example.com".to_string()),
        s3_access_key: None,
        s3_secret_key: Some("k".to_string()),
        s3_bucket: None,
        s3_region: Some("eu".to_string()),
    }
}

#[test]
fn config_reads_the_sender_address_and_sets_the_chunk_size() {
    let config = CryptifyConfig::from_raw(raw("Cryptify <noreply@example.com>", None)).unwrap();
    assert_eq!(config.server_url(), "https://example.com");
    assert_eq!(config.data_dir(), "/tmp/data");
    assert_eq!(config.email_from().name, Some("Cryptify".to_string()));
    assert_eq!(config.email_from().email, "noreply@example.com");
    assert_eq!(config.email_from().text, "Cryptify <noreply@example.com>");
    assert_eq!(config.smtp_url(), "localhost");
    assert_eq!(config.smtp_port(), 1025);
    assert_eq!(config.smtp_credentials(), Some(&("user".to_string(), "pass".to_string())));
    assert_eq!(config.allowed_origins(), "^https://example\\.com$");
    assert_eq!(config.pkg_url(), "https://pkg.example.com");
    assert_eq!(config.chunk_size(), 1024 * 1024);
    assert_eq!(config.s3_endpoint(), Some("https://s3.example.com"));
    assert_eq!(config.s3_access_key(), None);
    assert_eq!(config.s3_secret_key(), Some("k"));
    assert_eq!(config.s3_bucket(), None);
    assert_eq!(config.s3_region(), Some("eu"));

    let sized = CryptifyConfig::from_raw(raw("noreply@example.com", Some(4096))).unwrap();
    assert_eq!(sized.chunk_size(), 4096);
    assert_eq!(sized.email_from().name, None);
}

#[test]
fn config_says_why_the_sender_address_cannot_be_read() {
    let why = CryptifyConfig::from_raw(raw("nobody", None)).unwrap_err();
    assert!(why.starts_with("Could not parse Mailbox from email_form: "), "{}", why);
    assert!(why.len() > "Could not parse Mailbox from email_form: ".len());
    assert!(CryptifyConfig::from_raw(raw("a@example.com, b@example.com", None)).is_err());
}

#[test]
fn metadata_holds_two_times() {
    let metadata = Metadata { date: 10, expires: 20 };
    assert_eq!(metadata, Metadata { date: 10, expires: 20 });
    assert_ne!(metadata, Metadata { date: 10, expires: 21 });
}
