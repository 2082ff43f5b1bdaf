use vstd::prelude::*;
use crate::text::optional_text;

verus! {

/// The names of the four settings, in the order in which they are looked at.
pub const TEE_URL: &'static str = "TEE_URL";

pub const TWITTER_CONSUMER_KEY: &'static str = "TWITTER_CONSUMER_KEY";

pub const TWITTER_CONSUMER_SECRET: &'static str = "TWITTER_CONSUMER_SECRET";

pub const OPENAI_API_KEY: &'static str = "OPENAI_API_KEY";

/// The setting that keeps the process from starting.
#[derive(Clone, Copy, Debug, PartialEq, Eq, Structural)]
pub enum Setting {
    TeeUrl,
    ConsumerKey,
    ConsumerSecret,
    ApiKey,
}

impl Setting {
    /// The name of the environment variable that holds the setting.
    pub open spec fn variable_spec(self) -> Seq<char> {
        match self {
            Setting::TeeUrl => TEE_URL@,
            Setting::ConsumerKey => TWITTER_CONSUMER_KEY@,
            Setting::ConsumerSecret => TWITTER_CONSUMER_SECRET@,
            Setting::ApiKey => OPENAI_API_KEY@,
        }
    }

    pub fn variable(self) -> (name: &'static str)
        ensures
            name@ == self.variable_spec(),
    {
        match self {
            Setting::TeeUrl => TEE_URL,
            Setting::ConsumerKey => TWITTER_CONSUMER_KEY,
            Setting::ConsumerSecret => TWITTER_CONSUMER_SECRET,
            Setting::ApiKey => OPENAI_API_KEY,
        }
    }

    /// What the process says when the setting is absent: the variable's name
    /// and ` not set`.
    pub open spec fn complaint_spec(self) -> Seq<char> {
        self.variable_spec() + " not set"@
    }

    pub fn complaint(self) -> (text: String)
        ensures
            text@ == self.complaint_spec(),
    {
        String::from_str(self.variable()).concat(" not set")
    }
}

/// Everything the process needs from its environment.
#[derive(Debug)]
pub struct Config {
    pub tee_url: String,
    pub consumer_key: String,
    pub consumer_secret: String,
    pub api_key: String,
}

pub struct ConfigView {
    pub tee_url: Seq<char>,
    pub consumer_key: Seq<char>,
    pub consumer_secret: Seq<char>,
    pub api_key: Seq<char>,
}

impl View for Config {
    type V = ConfigView;

    open spec fn view(&self) -> ConfigView {
        ConfigView {
            tee_url: self.tee_url@,
            consumer_key: self.consumer_key@,
            consumer_secret: self.consumer_secret@,
            api_key: self.api_key@,
        }
    }
}

impl Config {
    /// The configuration made of the four values, or the first of them that
    /// is absent.
    pub open spec fn load_spec(
        tee_url: Option<Seq<char>>,
        consumer_key: Option<Seq<char>>,
        consumer_secret: Option<Seq<char>>,
        api_key: Option<Seq<char>>,
    ) -> Result<ConfigView, Setting> {
        if tee_url is None {
            Err(Setting::TeeUrl)
        } else if consumer_key is None {
            Err(Setting::ConsumerKey)
        } else if consumer_secret is None {
            Err(Setting::ConsumerSecret)
        } else if api_key is None {
            Err(Setting::ApiKey)
        } else {
            Ok(
                ConfigView {
                    tee_url: tee_url->0,
                    consumer_key: consumer_key->0,
                    consumer_secret: consumer_secret->0,
                    api_key: api_key->0,
                },
            )
        }
    }

    /// What an outcome of `load` holds, as characters.
    pub open spec fn loaded_view(outcome: Result<Config, Setting>) -> Result<ConfigView, Setting> {
        match outcome {
            Ok(config) => Ok(config@),
            Err(setting) => Err(setting),
        }
    }

    /// Checks that all four settings are present, before anything is started.
    /// An absent one is reported by its name; of several, the first.
    pub fn load(
        tee_url: Option<String>,
        consumer_key: Option<String>,
        consumer_secret: Option<String>,
        api_key: Option<String>,
    ) -> (outcome: Result<Config, Setting>)
        ensures
            Config::loaded_view(outcome) == Config::load_spec(
                optional_text(tee_url),
                optional_text(consumer_key),
                optional_text(consumer_secret),
                optional_text(api_key),
            ),
    {
        match (tee_url, consumer_key, consumer_secret, api_key) {
            (None, _, _, _) => Err(Setting::TeeUrl),
            (Some(_), None, _, _) => Err(Setting::ConsumerKey),
            (Some(_), Some(_), None, _) => Err(Setting::ConsumerSecret),
            (Some(_), Some(_), Some(_), None) => Err(Setting::ApiKey),
            (Some(tee_url), Some(consumer_key), Some(consumer_secret), Some(api_key)) => Ok(
                Config { tee_url, consumer_key, consumer_secret, api_key },
            ),
        }
    }
}

/// A configuration is loaded exactly when no setting is absent.
pub proof fn lemma_load_needs_every_setting(
    tee_url: Option<Seq<char>>,
    consumer_key: Option<Seq<char>>,
    consumer_secret: Option<Seq<char>>,
    api_key: Option<Seq<char>>,
)
    ensures
        Config::load_spec(tee_url, consumer_key, consumer_secret, api_key) is Ok <==> (tee_url is Some
            && consumer_key is Some && consumer_secret is Some && api_key is Some),
{
}

} // verus!
