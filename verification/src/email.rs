//! What a notification mail is made of: the words in the language of the
//! upload, the size and the expiry date as a reader sees them, and the link
//! that leads to the download.
//!
//! Nothing is sent here. The functions say what goes into each mail; to
//! render and to send it is the caller's part.

use crate::hex::hex_digit;
use crate::hex::nibble_to_hex;
use crate::session::FileState;
use crate::text::opt_text;
use chrono::TimeZone;
use std::fmt::Write;
use vstd::prelude::*;
use vstd::string::StringExecFns;
use vstd::string::StringSliceAdditionalSpecFns;
use vstd::utf8::encode_utf8;

verus! {

/// The language a notification is written in.
#[derive(Clone, Copy, Debug, PartialEq, Eq, Structural)]
pub enum Language {
    En,
    Nl,
}

/// One mail address: the display name that may stand before it, the
/// address itself, and the two as they are written in the header of a mail.
#[derive(Clone, Debug)]
pub struct Mailbox {
    pub name: Option<String>,
    pub email: String,
    pub text: String,
}

/// A mailbox as sequences of characters.
pub struct MailboxText {
    pub name: Option<Seq<char>>,
    pub email: Seq<char>,
    pub text: Seq<char>,
}

impl View for Mailbox {
    type V = MailboxText;

    open spec fn view(&self) -> MailboxText {
        MailboxText {
            name: match self.name {
                Some(n) => Some(n@),
                None => None,
            },
            email: self.email@,
            text: self.text@,
        }
    }
}

/// The mailboxes of a list, each as sequences of characters.
pub open spec fn mailbox_views(list: Seq<Mailbox>) -> Seq<MailboxText> {
    Seq::new(list.len(), |i: int| list[i]@)
}

/// The mailboxes that a text lists, or the reason why it lists none.
pub uninterp spec fn mailbox_list(text: Seq<char>) -> Result<Seq<MailboxText>, Seq<char>>;

/// `str::parse` for `lettre::message::Mailboxes`: the mailboxes that the
/// text lists, each with its name, its address and its written form, or the
/// text of the error.
#[verifier::external_body]
pub(crate) fn parse_mailbox_list(text: &str) -> (parsed: Result<Vec<Mailbox>, String>)
    ensures
        match parsed {
            Ok(list) => mailbox_list(text@) == Ok::<Seq<MailboxText>, Seq<char>>(
                mailbox_views(list@),
            ),
            Err(why) => mailbox_list(text@) == Err::<Seq<MailboxText>, Seq<char>>(why@),
        },
{
    match text.parse::<lettre::message::Mailboxes>() {
        Ok(list) => Ok(
            list.into_iter().map(
                |m| Mailbox { text: m.to_string(), email: m.email.to_string(), name: m.name },
            ).collect(),
        ),
        Err(e) => Err(e.to_string()),
    }
}

/// The mailbox that a text writes, or the reason why it writes none.
pub uninterp spec fn single_mailbox(text: Seq<char>) -> Result<MailboxText, Seq<char>>;

/// `str::parse` for `lettre::message::Mailbox`: the mailbox that the text
/// writes, with its name, its address and its written form, or the text of
/// the error.
#[verifier::external_body]
pub(crate) fn parse_mailbox(text: &str) -> (parsed: Result<Mailbox, String>)
    ensures
        match parsed {
            Ok(mailbox) => single_mailbox(text@) == Ok::<MailboxText, Seq<char>>(mailbox@),
            Err(why) => single_mailbox(text@) == Err::<MailboxText, Seq<char>>(why@),
        },
{
    match text.parse::<lettre::message::Mailbox>() {
        Ok(m) => Ok(Mailbox { text: m.to_string(), email: m.email.to_string(), name: m.name }),
        Err(e) => Err(e.to_string()),
    }
}

/// Why a mail cannot be made.
#[derive(Clone, Copy, Debug, PartialEq, Eq, Structural)]
pub enum MailError {
    /// The size of the upload is beyond what can be written with a unit.
    SizeOutOfRange,
    /// The expiry time is beyond the calendar.
    DateOutOfRange,
    /// A part of the link is too long.
    LinkTooLong,
    /// The address of the server is not a URL.
    BadServerUrl,
    /// A confirmation is asked for, and the sender is not known.
    NoSender,
}

/// The sizes from which on the next unit is used, and the first size that no
/// unit is left for.
pub const KILO: u64 = 1024;

pub const MEGA: u64 = 1048576;

pub const GIGA: u64 = 1073741824;

pub const TERA: u64 = 1099511627776;

pub const PETA: u64 = 1125899906842624;

/// The number of bytes in one of the unit that `size` is written in.
pub open spec fn unit_size(size: u64) -> int {
    if size < KILO {
        1
    } else if size < MEGA {
        KILO as int
    } else if size < GIGA {
        MEGA as int
    } else if size < TERA {
        GIGA as int
    } else {
        TERA as int
    }
}

/// The name of the unit that `size` is written in.
pub open spec fn unit_name(size: u64) -> Seq<char> {
    if size < KILO {
        "B"@
    } else if size < MEGA {
        "kB"@
    } else if size < GIGA {
        "MB"@
    } else if size < TERA {
        "GB"@
    } else {
        "TB"@
    }
}

/// `size` in tenths of its unit, rounded to the nearest tenth, and to the
/// even tenth where two are equally near.
pub open spec fn tenths(size: u64) -> int {
    let unit = unit_size(size);
    let whole = (size * 10) / unit;
    let rest = (size * 10) % unit;
    if 2 * rest > unit || (2 * rest == unit && whole % 2 == 1) {
        whole + 1
    } else {
        whole
    }
}

/// The decimal digits that write `n`.
pub open spec fn decimal_digits(n: nat) -> Seq<char>
    decreases n,
{
    if n < 10 {
        seq![hex_digit(n as int)]
    } else {
        decimal_digits(n / 10).push(hex_digit((n % 10) as int))
    }
}

/// A size as a reader sees it: the number with one decimal, a space, and
/// the unit. A size of nothing is written `NaN B`.
pub open spec fn file_size_text(size: u64) -> Seq<char> {
    if size == 0 {
        "NaN B"@
    } else {
        decimal_digits((tenths(size) / 10) as nat).push('.').push(
            hex_digit(tenths(size) % 10),
        ).push(' ') + unit_name(size)
    }
}

/// Appends the decimal digits of `n` to `text`.
fn push_decimal(text: &mut String, n: u64)
    ensures
        final(text)@ == old(text)@ + decimal_digits(n as nat),
    decreases n,
{
    if n >= 10 {
        push_decimal(text, n / 10);
    }
    text.push(nibble_to_hex((n % 10) as u8));
}

/// Writes a size with one decimal and its unit, from bytes up to terabytes.
pub fn format_file_size(size: u64) -> (text: String)
    requires
        size < PETA,
    ensures
        text@ == file_size_text(size),
{
    if size == 0 {
        return String::from_str("NaN B");
    }
    let unit: u64 = if size < KILO {
        1
    } else if size < MEGA {
        KILO
    } else if size < GIGA {
        MEGA
    } else if size < TERA {
        GIGA
    } else {
        TERA
    };
    let whole: u64 = (size * 10) / unit;
    let rest: u64 = (size * 10) % unit;
    let rounded: u64 = if 2 * rest > unit || (2 * rest == unit && whole % 2 == 1) {
        whole + 1
    } else {
        whole
    };
    let mut text = String::new();
    push_decimal(&mut text, rounded / 10);
    text.push('.');
    text.push(nibble_to_hex((rounded % 10) as u8));
    text.push(' ');
    if size < KILO {
        text.append("B");
    } else if size < MEGA {
        text.append("kB");
    } else if size < GIGA {
        text.append("MB");
    } else if size < TERA {
        text.append("GB");
    } else {
        text.append("TB");
    }
    text
}

/// The date of the time `date`, in seconds since 1970 in UTC, written after
/// `pattern` with the words of the locale named `locale`; none where the
/// time is beyond the calendar, no locale has that name, or the pattern
/// cannot be followed.
pub uninterp spec fn local_date(date: i64, pattern: Seq<char>, locale: Seq<char>) -> Option<
    Seq<char>,
>;

/// `chrono::TimeZone::timestamp_opt` on `chrono::Utc`, then
/// `chrono::DateTime::format_localized` with the locale that
/// `chrono::Locale::try_from` finds under the name: the date as text, or
/// nothing where chrono has no such time or locale, or fails to write.
#[verifier::external_body]
fn localized_date(date: i64, pattern: &str, locale: &str) -> (text: Option<String>)
    ensures
        opt_text(text) == local_date(date, pattern@, locale@),
{
    let time = chrono::Utc.timestamp_opt(date, 0).single()?;
    let locale = chrono::Locale::try_from(locale).ok()?;
    let mut text = String::new();
    write!(text, "{}", time.format_localized(pattern, locale)).ok()?;
    Some(text)
}

/// The pattern that dates in a mail follow: day, month by name, year.
pub open spec fn date_pattern() -> Seq<char> {
    "%e %B %Y"@
}

/// The name of the locale whose words a language is written with.
pub open spec fn locale_name(lang: Language) -> Seq<char> {
    match lang {
        Language::En => "en_GB"@,
        Language::Nl => "nl_NL"@,
    }
}

/// The date of the time `date`, in seconds, as a mail in the language
/// `lang` shows it, if it can be written.
pub open spec fn date_text(date: i64, lang: Language) -> Option<Seq<char>> {
    local_date(date, date_pattern(), locale_name(lang))
}

/// Writes the date of `date`, a time in seconds, in the language `lang`.
pub fn format_date(date: i64, lang: &Language) -> (text: Option<String>)
    ensures
        opt_text(text) == date_text(date, *lang),
{
    match lang {
        Language::En => localized_date(date, "%e %B %Y", "en_GB"),
        Language::Nl => localized_date(date, "%e %B %Y", "nl_NL"),
    }
}

/// The most bytes that a part of a link may have.
pub const LINK_PART_LIMIT: usize = 16777216;

/// The URL `base` with two pairs added to its query and with `fragment` as
/// its fragment; none where `base` is not a URL.
pub uninterp spec fn link_text(
    base: Seq<char>,
    first_key: Seq<char>,
    first_value: Seq<char>,
    second_key: Seq<char>,
    second_value: Seq<char>,
    fragment: Seq<char>,
) -> Option<Seq<char>>;

/// `url::Url::parse`, then `append_pair` twice on `query_pairs_mut` and
/// `set_fragment`: the URL as text, or nothing where `base` does not parse.
/// The parts are kept short, since a URL that outgrows four gigabytes makes
/// these calls panic.
#[verifier::external_body]
fn extended_url(
    base: &str,
    first_key: &str,
    first_value: &str,
    second_key: &str,
    second_value: &str,
    fragment: &str,
) -> (link: Option<String>)
    requires
        base.spec_bytes().len() <= LINK_PART_LIMIT,
        first_key.spec_bytes().len() <= LINK_PART_LIMIT,
        first_value.spec_bytes().len() <= LINK_PART_LIMIT,
        second_key.spec_bytes().len() <= LINK_PART_LIMIT,
        second_value.spec_bytes().len() <= LINK_PART_LIMIT,
        fragment.spec_bytes().len() <= LINK_PART_LIMIT,
    ensures
        opt_text(link) == link_text(
            base@,
            first_key@,
            first_value@,
            second_key@,
            second_value@,
            fragment@,
        ),
{
    let mut url = url::Url::parse(base).ok()?;
    url.query_pairs_mut().append_pair(first_key, first_value).append_pair(second_key, second_value);
    url.set_fragment(Some(fragment));
    Some(url.as_str().to_string())
}

/// Whether every part of a link is short enough to be put together.
pub open spec fn link_parts_fit(
    base: Seq<char>,
    first_key: Seq<char>,
    first_value: Seq<char>,
    second_key: Seq<char>,
    second_value: Seq<char>,
    fragment: Seq<char>,
) -> bool {
    &&& encode_utf8(base).len() <= LINK_PART_LIMIT
    &&& encode_utf8(first_key).len() <= LINK_PART_LIMIT
    &&& encode_utf8(first_value).len() <= LINK_PART_LIMIT
    &&& encode_utf8(second_key).len() <= LINK_PART_LIMIT
    &&& encode_utf8(second_value).len() <= LINK_PART_LIMIT
    &&& encode_utf8(fragment).len() <= LINK_PART_LIMIT
}

/// Adds two pairs to the query of the URL `base` and sets its fragment.
pub fn link_with(
    base: &str,
    first_key: &str,
    first_value: &str,
    second_key: &str,
    second_value: &str,
    fragment: &str,
) -> (link: Result<String, MailError>)
    ensures
        match link {
            Ok(l) => link_text(
                base@,
                first_key@,
                first_value@,
                second_key@,
                second_value@,
                fragment@,
            ) == Some(l@) && link_parts_fit(
                base@,
                first_key@,
                first_value@,
                second_key@,
                second_value@,
                fragment@,
            ),
            Err(e) => if link_parts_fit(
                base@,
                first_key@,
                first_value@,
                second_key@,
                second_value@,
                fragment@,
            ) {
                e == MailError::BadServerUrl && link_text(
                    base@,
                    first_key@,
                    first_value@,
                    second_key@,
                    second_value@,
                    fragment@,
                ) is None
            } else {
                e == MailError::LinkTooLong
            },
        },
{
    if base.as_bytes().len() > LINK_PART_LIMIT || first_key.as_bytes().len() > LINK_PART_LIMIT
        || first_value.as_bytes().len() > LINK_PART_LIMIT || second_key.as_bytes().len()
        > LINK_PART_LIMIT || second_value.as_bytes().len() > LINK_PART_LIMIT
        || fragment.as_bytes().len() > LINK_PART_LIMIT {
        return Err(MailError::LinkTooLong);
    }
    match extended_url(base, first_key, first_value, second_key, second_value, fragment) {
        Some(l) => Ok(l),
        None => Err(MailError::BadServerUrl),
    }
}

/// The link that leads `recipient` to the download of the upload `uuid`, if
/// there is one.
pub open spec fn download_link_text(server_url: Seq<char>, uuid: Seq<char>, recipient: Seq<char>)
    -> Option<Seq<char>> {
    link_text(server_url, "download"@, uuid, "recipient"@, recipient, "filesharing"@)
}

/// Why no link can be made for `recipient`, if none can.
pub open spec fn link_fault(server_url: Seq<char>, uuid: Seq<char>, recipient: Seq<char>)
    -> Option<MailError> {
    if !link_parts_fit(server_url, "download"@, uuid, "recipient"@, recipient, "filesharing"@) {
        Some(MailError::LinkTooLong)
    } else if download_link_text(server_url, uuid, recipient) is None {
        Some(MailError::BadServerUrl)
    } else {
        None
    }
}

/// The link that leads `recipient` to the download of the upload `uuid`.
pub fn download_link(server_url: &str, uuid: &str, recipient: &str) -> (link: Result<
    String,
    MailError,
>)
    ensures
        match link {
            Ok(l) => link_fault(server_url@, uuid@, recipient@) is None && download_link_text(
                server_url@,
                uuid@,
                recipient@,
            ) == Some(l@),
            Err(e) => link_fault(server_url@, uuid@, recipient@) == Some(e),
        },
{
    link_with(server_url, "download", uuid, "recipient", recipient, "filesharing")
}

/// The words of a mail in one language.
#[derive(Clone, Copy, Debug)]
pub struct MailStrings {
    pub subject_str: &'static str,
    pub sender_str: &'static str,
    pub expires_str: &'static str,
    pub download_str: &'static str,
    pub link_str: &'static str,
    pub header_confirm: &'static str,
    pub subject_confirm: &'static str,
    pub confirm: &'static str,
}

/// The words of a mail as sequences of characters.
pub struct MailTexts {
    pub subject_str: Seq<char>,
    pub sender_str: Seq<char>,
    pub expires_str: Seq<char>,
    pub download_str: Seq<char>,
    pub link_str: Seq<char>,
    pub header_confirm: Seq<char>,
    pub subject_confirm: Seq<char>,
    pub confirm: Seq<char>,
}

impl View for MailStrings {
    type V = MailTexts;

    open spec fn view(&self) -> MailTexts {
        MailTexts {
            subject_str: self.subject_str@,
            sender_str: self.sender_str@,
            expires_str: self.expires_str@,
            download_str: self.download_str@,
            link_str: self.link_str@,
            header_confirm: self.header_confirm@,
            subject_confirm: self.subject_confirm@,
            confirm: self.confirm@,
        }
    }
}

/// The words of a mail in the language `lang`.
pub open spec fn strings_in(lang: Language) -> MailTexts {
    match lang {
        Language::Nl => MailTexts {
            subject_str: "heeft je een bestand gestuurd via PostGuard"@,
            sender_str: "heeft je bestanden gestuurd"@,
            expires_str: "Verloopt op"@,
            download_str: "Download jouw bestanden"@,
            link_str: "Download link"@,
            header_confirm: "Je hebt het volgende gestuurd aan"@,
            subject_confirm: "Je bestanden zijn verstuurd via PostGuard"@,
            confirm: "Je kunt nog steeds bij je bestanden"@,
        },
        Language::En => MailTexts {
            subject_str: "sent you files via PostGuard"@,
            sender_str: "sent you files"@,
            expires_str: "Expires on"@,
            download_str: "Download your files"@,
            link_str: "Download link"@,
            header_confirm: "You sent files to"@,
            subject_confirm: "Your files have been sent via PostGuard"@,
            confirm: "You can still access your files"@,
        },
    }
}

/// The words of a mail in the language `lang`.
pub fn mail_strings(lang: Language) -> (strings: MailStrings)
    ensures
        strings@ == strings_in(lang),
{
    match lang {
        Language::Nl => MailStrings {
            subject_str: "heeft je een bestand gestuurd via PostGuard",
            sender_str: "heeft je bestanden gestuurd",
            expires_str: "Verloopt op",
            download_str: "Download jouw bestanden",
            link_str: "Download link",
            header_confirm: "Je hebt het volgende gestuurd aan",
            subject_confirm: "Je bestanden zijn verstuurd via PostGuard",
            confirm: "Je kunt nog steeds bij je bestanden",
        },
        Language::En => MailStrings {
            subject_str: "sent you files via PostGuard",
            sender_str: "sent you files",
            expires_str: "Expires on",
            download_str: "Download your files",
            link_str: "Download link",
            header_confirm: "You sent files to",
            subject_confirm: "Your files have been sent via PostGuard",
            confirm: "You can still access your files",
        },
    }
}

/// What fills the body of a mail.
#[derive(Clone, Debug)]
pub struct EmailTemplate {
    pub header: String,
    pub subheader: String,
    pub expires_str: String,
    pub download_str: String,
    pub link_str: String,
    pub file_size: String,
    pub expiry_date: String,
    pub html_content: String,
    pub url: String,
    pub confirm: String,
}

/// What fills the subject of a mail.
#[derive(Clone, Debug)]
pub struct SubjectTemplate {
    pub subject_str: String,
    pub sender: String,
}

/// The body of a mail as sequences of characters.
pub struct EmailFields {
    pub header: Seq<char>,
    pub subheader: Seq<char>,
    pub expires_str: Seq<char>,
    pub download_str: Seq<char>,
    pub link_str: Seq<char>,
    pub file_size: Seq<char>,
    pub expiry_date: Seq<char>,
    pub html_content: Seq<char>,
    pub url: Seq<char>,
    pub confirm: Seq<char>,
}

/// The subject of a mail as sequences of characters.
pub struct SubjectFields {
    pub subject_str: Seq<char>,
    pub sender: Seq<char>,
}

impl View for EmailTemplate {
    type V = EmailFields;

    open spec fn view(&self) -> EmailFields {
        EmailFields {
            header: self.header@,
            subheader: self.subheader@,
            expires_str: self.expires_str@,
            download_str: self.download_str@,
            link_str: self.link_str@,
            file_size: self.file_size@,
            expiry_date: self.expiry_date@,
            html_content: self.html_content@,
            url: self.url@,
            confirm: self.confirm@,
        }
    }
}

impl View for SubjectTemplate {
    type V = SubjectFields;

    open spec fn view(&self) -> SubjectFields {
        SubjectFields { subject_str: self.subject_str@, sender: self.sender@ }
    }
}

/// The written forms of the mailboxes, with a comma and a space between one
/// and the next.
pub open spec fn listed(list: Seq<MailboxText>) -> Seq<char>
    decreases list.len(),
{
    if list.len() == 0 {
        Seq::<char>::empty()
    } else if list.len() == 1 {
        list[0].text
    } else {
        listed(list.drop_last()) + ", "@ + list.last().text
    }
}

/// Writes a list of mailboxes as it stands in the header of a mail.
pub fn mailboxes_text(list: &Vec<Mailbox>) -> (text: String)
    ensures
        text@ == listed(mailbox_views(list@)),
{
    let mut text = String::new();
    let mut i: usize = 0;
    while i < list.len()
        invariant
            i <= list.len(),
            text@ == listed(mailbox_views(list@).take(i as int)),
        decreases list.len() - i,
    {
        if i > 0 {
            text.append(", ");
        }
        text.append(list[i].text.as_str());
        proof {
            let views = mailbox_views(list@);
            assert(views.take(i + 1).drop_last() =~= views.take(i as int));
        }
        i += 1;
    }
    assert(mailbox_views(list@).take(i as int) =~= mailbox_views(list@));
    text
}

/// The name that stands for the sender: the sender, where known.
pub open spec fn sender_name(state: &FileState) -> Seq<char> {
    match state.sender {
        Some(sender) => sender@,
        None => "Someone"@,
    }
}

/// Why the mails of an upload cannot be filled in, if they cannot.
pub open spec fn render_fault(state: &FileState) -> Option<MailError> {
    if state.uploaded >= PETA {
        Some(MailError::SizeOutOfRange)
    } else if date_text(state.expires, state.mail_lang) is None {
        Some(MailError::DateOutOfRange)
    } else {
        None
    }
}

/// The body of the mail that tells a recipient of an upload.
pub open spec fn notice_fields(state: &FileState, url: Seq<char>) -> EmailFields {
    EmailFields {
        header: sender_name(state),
        subheader: strings_in(state.mail_lang).sender_str,
        expires_str: strings_in(state.mail_lang).expires_str,
        download_str: strings_in(state.mail_lang).download_str,
        link_str: strings_in(state.mail_lang).link_str,
        file_size: file_size_text(state.uploaded),
        expiry_date: date_text(state.expires, state.mail_lang)->0,
        html_content: state.mail_content@,
        url,
        confirm: Seq::<char>::empty(),
    }
}

/// The subject of the mail that tells a recipient of an upload.
pub open spec fn notice_subject(state: &FileState) -> SubjectFields {
    SubjectFields {
        subject_str: strings_in(state.mail_lang).subject_str,
        sender: sender_name(state),
    }
}

/// The body of the mail that confirms an upload to its sender.
pub open spec fn confirm_fields(state: &FileState, url: Seq<char>) -> EmailFields {
    EmailFields {
        header: strings_in(state.mail_lang).header_confirm,
        subheader: listed(mailbox_views(state.recipients@)),
        expires_str: strings_in(state.mail_lang).expires_str,
        download_str: strings_in(state.mail_lang).download_str,
        link_str: strings_in(state.mail_lang).link_str,
        file_size: file_size_text(state.uploaded),
        expiry_date: date_text(state.expires, state.mail_lang)->0,
        html_content: state.mail_content@,
        url,
        confirm: strings_in(state.mail_lang).confirm,
    }
}

/// The subject of the mail that confirms an upload to its sender.
pub open spec fn confirm_subject(state: &FileState) -> SubjectFields {
    SubjectFields {
        subject_str: strings_in(state.mail_lang).subject_confirm,
        sender: Seq::<char>::empty(),
    }
}

/// Fills in the mail that tells a recipient of an upload: its body, with
/// `url` as the link, and its subject.
pub fn email_templates(state: &FileState, url: &str) -> (filled: Result<
    (EmailTemplate, SubjectTemplate),
    MailError,
>)
    ensures
        match filled {
            Ok(pair) => {
                &&& render_fault(state) is None
                &&& pair.0@ == notice_fields(state, url@)
                &&& pair.1@ == notice_subject(state)
            },
            Err(e) => render_fault(state) == Some(e),
        },
{
    let strings = mail_strings(state.mail_lang);
    let sender_str = match &state.sender {
        Some(sender) => sender.clone(),
        None => String::from_str("Someone"),
    };
    if state.uploaded >= PETA {
        return Err(MailError::SizeOutOfRange);
    }
    let file_size = format_file_size(state.uploaded);
    let expiry_date = match format_date(state.expires, &state.mail_lang) {
        Some(date) => date,
        None => {
            return Err(MailError::DateOutOfRange);
        },
    };
    let email = EmailTemplate {
        header: sender_str.clone(),
        subheader: String::from_str(strings.sender_str),
        expires_str: String::from_str(strings.expires_str),
        download_str: String::from_str(strings.download_str),
        link_str: String::from_str(strings.link_str),
        file_size,
        expiry_date,
        html_content: state.mail_content.clone(),
        url: String::from_str(url),
        confirm: String::new(),
    };
    let subject = SubjectTemplate {
        subject_str: String::from_str(strings.subject_str),
        sender: sender_str,
    };
    Ok((email, subject))
}

/// Fills in the mail that confirms an upload to its sender: its body, with
/// `url` as the link, and its subject.
pub fn email_confirm(state: &FileState, url: &str) -> (filled: Result<
    (EmailTemplate, SubjectTemplate),
    MailError,
>)
    ensures
        match filled {
            Ok(pair) => {
                &&& render_fault(state) is None
                &&& pair.0@ == confirm_fields(state, url@)
                &&& pair.1@ == confirm_subject(state)
            },
            Err(e) => render_fault(state) == Some(e),
        },
{
    let strings = mail_strings(state.mail_lang);
    if state.uploaded >= PETA {
        return Err(MailError::SizeOutOfRange);
    }
    let file_size = format_file_size(state.uploaded);
    let expiry_date = match format_date(state.expires, &state.mail_lang) {
        Some(date) => date,
        None => {
            return Err(MailError::DateOutOfRange);
        },
    };
    let email = EmailTemplate {
        header: String::from_str(strings.header_confirm),
        subheader: mailboxes_text(&state.recipients),
        expires_str: String::from_str(strings.expires_str),
        download_str: String::from_str(strings.download_str),
        link_str: String::from_str(strings.link_str),
        file_size,
        expiry_date,
        html_content: state.mail_content.clone(),
        url: String::from_str(url),
        confirm: String::from_str(strings.confirm),
    };
    let subject = SubjectTemplate {
        subject_str: String::from_str(strings.subject_confirm),
        sender: String::new(),
    };
    Ok((email, subject))
}

/// One mail that is ready to be rendered and sent.
#[derive(Clone, Debug)]
pub struct OutgoingMail {
    pub to: String,
    pub subject: SubjectTemplate,
    pub email: EmailTemplate,
}

/// Why the mail to the recipient at `index` cannot be made, if it cannot:
/// the link is made first, then the mail is filled in.
pub open spec fn recipient_fault(
    server_url: Seq<char>,
    state: &FileState,
    uuid: Seq<char>,
    index: int,
) -> Option<MailError> {
    match link_fault(server_url, uuid, state.recipients@[index].email@) {
        Some(e) => Some(e),
        None => render_fault(state),
    }
}

/// The mail that tells the recipient at `index` of the upload `uuid`.
pub fn recipient_mail(server_url: &str, state: &FileState, uuid: &str, index: usize) -> (mail:
    Result<OutgoingMail, MailError>)
    requires
        index < state.recipients@.len(),
    ensures
        match mail {
            Ok(m) => {
                &&& recipient_fault(server_url@, state, uuid@, index as int) is None
                &&& m.to@ == state.recipients@[index as int].text@
                &&& m.subject@ == notice_subject(state)
                &&& m.email@ == notice_fields(
                    state,
                    download_link_text(server_url@, uuid@, state.recipients@[index as int].email@)->0,
                )
            },
            Err(e) => recipient_fault(server_url@, state, uuid@, index as int) == Some(e),
        },
{
    let recipient = &state.recipients[index];
    let url = match download_link(server_url, uuid, recipient.email.as_str()) {
        Ok(url) => url,
        Err(e) => {
            return Err(e);
        },
    };
    match email_templates(state, url.as_str()) {
        Ok(pair) => Ok(OutgoingMail { to: recipient.text.clone(), subject: pair.1, email: pair.0 }),
        Err(e) => Err(e),
    }
}

/// Why the mail that confirms an upload cannot be made, if it cannot.
pub open spec fn confirmation_fault(server_url: Seq<char>, state: &FileState, uuid: Seq<char>)
    -> Option<MailError> {
    if !state.confirm {
        None
    } else if state.sender is None {
        Some(MailError::NoSender)
    } else {
        match link_fault(server_url, uuid, state.sender->0@) {
            Some(e) => Some(e),
            None => render_fault(state),
        }
    }
}

/// The mail that confirms the upload `uuid` to its sender, where the upload
/// asks for one.
pub fn confirmation_mail(server_url: &str, state: &FileState, uuid: &str) -> (mail: Result<
    Option<OutgoingMail>,
    MailError,
>)
    ensures
        match mail {
            Ok(None) => !state.confirm,
            Ok(Some(m)) => {
                &&& state.confirm
                &&& confirmation_fault(server_url@, state, uuid@) is None
                &&& m.to@ == state.sender->0@
                &&& m.subject@ == confirm_subject(state)
                &&& m.email@ == confirm_fields(
                    state,
                    download_link_text(server_url@, uuid@, state.sender->0@)->0,
                )
            },
            Err(e) => confirmation_fault(server_url@, state, uuid@) == Some(e),
        },
{
    if !state.confirm {
        return Ok(None);
    }
    let sender = match &state.sender {
        Some(sender) => sender,
        None => {
            return Err(MailError::NoSender);
        },
    };
    let url = match download_link(server_url, uuid, sender.as_str()) {
        Ok(url) => url,
        Err(e) => {
            return Err(e);
        },
    };
    match email_confirm(state, url.as_str()) {
        Ok(pair) => Ok(Some(OutgoingMail { to: sender.clone(), subject: pair.1, email: pair.0 })),
        Err(e) => Err(e),
    }
}
} // verus!
