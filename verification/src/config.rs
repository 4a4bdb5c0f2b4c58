//! The configuration of the server.

use crate::email::parse_mailbox;
use crate::email::single_mailbox;
use crate::email::Mailbox;
use crate::email::MailboxText;
use crate::session::CHUNK_SIZE;
use crate::text::opt_str;
use crate::text::opt_text;
use vstd::prelude::*;
use vstd::string::StringExecFns;

verus! {

/// The configuration as it is written down.
#[derive(Clone, Debug)]
pub struct RawCryptifyConfig {
    pub server_url: String,
    pub data_dir: String,
    pub email_from: String,
    pub smtp_url: String,
    pub smtp_port: u16,
    pub smtp_credentials: Option<(String, String)>,
    pub allowed_origins: String,
    pub pkg_url: String,
    pub chunk_size: Option<u64>,
    pub s3_endpoint: Option<String>,
    pub s3_access_key: Option<String>,
    pub s3_secret_key: Option<String>,
    pub s3_bucket: Option<String>,
    pub s3_region: Option<String>,
}

/// The configuration as the server uses it: the address that mail comes
/// from has been read, and the size of a chunk is set.
#[derive(Clone, Debug)]
pub struct CryptifyConfig {
    pub server_url: String,
    pub data_dir: String,
    pub email_from: Mailbox,
    pub smtp_url: String,
    pub smtp_port: u16,
    pub smtp_credentials: Option<(String, String)>,
    pub allowed_origins: String,
    pub pkg_url: String,
    pub chunk_size: u64,
    pub s3_endpoint: Option<String>,
    pub s3_access_key: Option<String>,
    pub s3_secret_key: Option<String>,
    pub s3_bucket: Option<String>,
    pub s3_region: Option<String>,
}

fn lend(text: &Option<String>) -> (lent: Option<&str>)
    ensures
        opt_str(lent) == opt_text(*text),
{
    match text {
        Some(t) => Some(t.as_str()),
        None => None,
    }
}

impl CryptifyConfig {
    /// Makes the configuration from what is written down. A chunk is one
    /// mebibyte where no size is written. Fails where the address that mail
    /// comes from cannot be read, and says why.
    pub fn from_raw(config: RawCryptifyConfig) -> (made: Result<CryptifyConfig, String>)
        ensures
            match made {
                Ok(c) => {
                    &&& single_mailbox(config.email_from@) == Ok::<MailboxText, Seq<char>>(
                        c.email_from@,
                    )
                    &&& c.chunk_size == match config.chunk_size {
                        Some(size) => size,
                        None => CHUNK_SIZE,
                    }
                    &&& c.server_url == config.server_url
                    &&& c.data_dir == config.data_dir
                    &&& c.smtp_url == config.smtp_url
                    &&& c.smtp_port == config.smtp_port
                    &&& c.smtp_credentials == config.smtp_credentials
                    &&& c.allowed_origins == config.allowed_origins
                    &&& c.pkg_url == config.pkg_url
                    &&& c.s3_endpoint == config.s3_endpoint
                    &&& c.s3_access_key == config.s3_access_key
                    &&& c.s3_secret_key == config.s3_secret_key
                    &&& c.s3_bucket == config.s3_bucket
                    &&& c.s3_region == config.s3_region
                },
                Err(why) => {
                    &&& single_mailbox(config.email_from@) is Err
                    &&& why@ == "Could not parse Mailbox from email_form: "@ + single_mailbox(
                        config.email_from@,
                    )->Err_0
                },
            },
    {
        let chunk_size = match config.chunk_size {
            Some(size) => size,
            None => CHUNK_SIZE,
        };
        let email_from = match parse_mailbox(config.email_from.as_str()) {
            Ok(mailbox) => mailbox,
            Err(e) => {
                return Err(
                    String::from_str("Could not parse Mailbox from email_form: ").concat(e.as_str()),
                );
            },
        };
        Ok(
            CryptifyConfig {
                server_url: config.server_url,
                data_dir: config.data_dir,
                email_from,
                smtp_url: config.smtp_url,
                smtp_port: config.smtp_port,
                smtp_credentials: config.smtp_credentials,
                allowed_origins: config.allowed_origins,
                pkg_url: config.pkg_url,
                chunk_size,
                s3_endpoint: config.s3_endpoint,
                s3_access_key: config.s3_access_key,
                s3_secret_key: config.s3_secret_key,
                s3_bucket: config.s3_bucket,
                s3_region: config.s3_region,
            },
        )
    }

    pub fn server_url(&self) -> (url: &str)
        ensures
            url@ == self.server_url@,
    {
        self.server_url.as_str()
    }

    pub fn data_dir(&self) -> (dir: &str)
        ensures
            dir@ == self.data_dir@,
    {
        self.data_dir.as_str()
    }

    pub fn email_from(&self) -> (from: &Mailbox)
        ensures
            *from == self.email_from,
    {
        &self.email_from
    }

    pub fn smtp_url(&self) -> (url: &str)
        ensures
            url@ == self.smtp_url@,
    {
        self.smtp_url.as_str()
    }

    pub fn smtp_port(&self) -> (port: u16)
        ensures
            port == self.smtp_port,
    {
        self.smtp_port
    }

    pub fn smtp_credentials(&self) -> (credentials: Option<&(String, String)>)
        ensures
            match credentials {
                Some(pair) => self.smtp_credentials == Some(*pair),
                None => self.smtp_credentials is None,
            },
    {
        match &self.smtp_credentials {
            Some(pair) => Some(pair),
            None => None,
        }
    }

    pub fn allowed_origins(&self) -> (origins: &str)
        ensures
            origins@ == self.allowed_origins@,
    {
        self.allowed_origins.as_str()
    }

    pub fn pkg_url(&self) -> (url: &str)
        ensures
            url@ == self.pkg_url@,
    {
        self.pkg_url.as_str()
    }

    pub fn chunk_size(&self) -> (size: u64)
        ensures
            size == self.chunk_size,
    {
        self.chunk_size
    }

    pub fn s3_endpoint(&self) -> (endpoint: Option<&str>)
        ensures
            opt_str(endpoint) == opt_text(self.s3_endpoint),
    {
        lend(&self.s3_endpoint)
    }

    pub fn s3_access_key(&self) -> (key: Option<&str>)
        ensures
            opt_str(key) == opt_text(self.s3_access_key),
    {
        lend(&self.s3_access_key)
    }

    pub fn s3_secret_key(&self) -> (key: Option<&str>)
        ensures
            opt_str(key) == opt_text(self.s3_secret_key),
    {
        lend(&self.s3_secret_key)
    }

    pub fn s3_bucket(&self) -> (bucket: Option<&str>)
        ensures
            opt_str(bucket) == opt_text(self.s3_bucket),
    {
        lend(&self.s3_bucket)
    }

    pub fn s3_region(&self) -> (region: Option<&str>)
        ensures
            opt_str(region) == opt_text(self.s3_region),
    {
        lend(&self.s3_region)
    }
}

} // verus!
