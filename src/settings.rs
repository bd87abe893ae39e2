use vstd::prelude::*;

use crate::text::{trim_text, trimmed};

verus! {

/// What a settings record holds, as plain values.
pub struct SettingsView {
    pub web_app_url: Option<Seq<char>>,
    pub auto_open: bool,
}

/// The user-facing settings of one installation.
#[derive(Debug, Clone)]
pub struct AppSettings {
    pub web_app_url: Option<String>,
    pub auto_open: bool,
}

impl View for AppSettings {
    type V = SettingsView;

    open spec fn view(&self) -> SettingsView {
        SettingsView {
            web_app_url: match self.web_app_url {
                Some(u) => Some(u@),
                None => None,
            },
            auto_open: self.auto_open,
        }
    }
}

impl Default for AppSettings {
    fn default() -> (r: AppSettings)
        ensures
            r.web_app_url is None,
            !r.auto_open,
    {
        AppSettings { web_app_url: None, auto_open: false }
    }
}

/// A configured URL with surrounding white space removed; one that is blank
/// after trimming counts as not configured.
pub open spec fn normalized_url(url: Option<Seq<char>>) -> Option<Seq<char>> {
    match url {
        Some(u) => if trimmed(u).len() == 0 {
            None
        } else {
            Some(trimmed(u))
        },
        None => None,
    }
}

/// The record that `update` keeps for a submitted one.
pub open spec fn normalized(s: SettingsView) -> SettingsView {
    SettingsView { web_app_url: normalized_url(s.web_app_url), auto_open: s.auto_open }
}

/// The message of `open_web_app` when no URL is configured.
pub open spec fn missing_url_message() -> Seq<char> {
    "no web app URL is configured"@
}

fn copy_url(url: &Option<String>) -> (r: Option<String>)
    ensures
        r is Some <==> url is Some,
        r is Some ==> r->Some_0@ == url->Some_0@,
{
    match url {
        Some(u) => Some(u.clone()),
        None => None,
    }
}

/// The settings file of this application under the platform's config
/// directory `config_dir`.
pub fn settings_file(config_dir: &str) -> (r: String)
    ensures
        r@ == config_dir@ + "/DreamCanvas/ui-settings.json"@,
{
    config_dir.to_owned().concat("/DreamCanvas/ui-settings.json")
}

/// Submitted settings brought to the form in which they are kept.
pub fn normalize_settings(settings: AppSettings) -> (r: AppSettings)
    ensures
        r@ == normalized(settings@),
{
    let url = match settings.web_app_url {
        Some(u) => {
            let t = trim_text(u.as_str());
            if t.as_str().is_empty() {
                None
            } else {
                Some(t)
            }
        },
        None => None,
    };
    AppSettings { web_app_url: url, auto_open: settings.auto_open }
}

/// The settings record in memory, with the path of the file that holds it.
pub struct SettingsManager {
    path: String,
    inner: AppSettings,
}

impl SettingsManager {
    /// The record in memory.
    pub closed spec fn settings(&self) -> SettingsView {
        self.inner@
    }

    /// The file that the record is persisted to.
    pub closed spec fn file(&self) -> Seq<char> {
        self.path@
    }

    /// A manager for the settings file at `path`, holding what was read from
    /// it, or the defaults where nothing could be read.
    pub fn new(path: String, stored: Option<AppSettings>) -> (r: SettingsManager)
        ensures
            r.file() == path@,
            stored is Some ==> r.settings() == stored->Some_0@,
            stored is None ==> r.settings() == (SettingsView { web_app_url: None, auto_open: false }),
    {
        let inner = match stored {
            Some(s) => s,
            None => AppSettings::default(),
        };
        SettingsManager { path, inner }
    }

    /// Path of the settings file.
    pub fn path(&self) -> (r: String)
        ensures
            r@ == self.file(),
    {
        self.path.clone()
    }

    /// A copy of the record in memory.
    pub fn current(&self) -> (r: AppSettings)
        ensures
            r@ == self.settings(),
    {
        AppSettings { web_app_url: copy_url(&self.inner.web_app_url), auto_open: self.inner.auto_open }
    }

    /// Replaces the record in memory by the normalized form of `settings`,
    /// which the caller then persists to `path()`.
    pub fn update(&mut self, settings: AppSettings)
        ensures
            final(self).settings() == normalized(settings@),
            final(self).file() == old(self).file(),
    {
        self.inner = normalize_settings(settings);
    }

    /// The URL that the web app is to be opened at, or an error (and nothing
    /// to launch) when none is configured.
    pub fn open_web_app(&self) -> (r: Result<String, String>)
        ensures
            self.settings().web_app_url is None <==> r is Err,
            r is Err ==> r->Err_0@ == missing_url_message(),
            r is Ok ==> Some(r->Ok_0@) == self.settings().web_app_url,
    {
        match &self.inner.web_app_url {
            Some(u) => Ok(u.clone()),
            None => Err(String::from_str("no web app URL is configured")),
        }
    }
}

} // verus!
