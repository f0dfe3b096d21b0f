//! The alert sink: where alerts go, if anywhere.

use vstd::prelude::*;
use crate::jupiter::new_http_client;

verus! {

pub struct Notifier {
    slack_webhook_url: Option<String>,
    http: reqwest::Client,
}

impl Notifier {
    /// The address that alerts are posted to, if one is configured.
    pub closed spec fn spec_webhook(&self) -> Option<Seq<char>> {
        match self.slack_webhook_url {
            Some(url) => Some(url@),
            None => None,
        }
    }

    pub fn new(slack_webhook_url: Option<String>) -> (notifier: Self)
        ensures
            notifier.spec_webhook() == match slack_webhook_url {
                Some(url) => Some(url@),
                None => None,
            },
    {
        Notifier { slack_webhook_url, http: new_http_client() }
    }

    /// Where an alert is posted. With no address configured an alert is
    /// dropped, and that counts as delivered.
    pub fn webhook(&self) -> (url: Option<&String>)
        ensures
            match url {
                Some(url) => self.spec_webhook() == Some(url@),
                None => self.spec_webhook() is None,
            },
    {
        match &self.slack_webhook_url {
            Some(url) => Some(url),
            None => None,
        }
    }

    /// The HTTP client that alerts go out through.
    pub fn http(&self) -> (client: &reqwest::Client)
        ensures
            *client == self.spec_http(),
    {
        &self.http
    }

    /// The HTTP client that this notifier holds: the one that it was made
    /// with, for as long as it lives.
    pub closed spec fn spec_http(&self) -> reqwest::Client {
        self.http
    }
}

} // verus!
