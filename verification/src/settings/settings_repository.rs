//! The settings of a project and what is done about the file that holds
//! them, whatever state it is found in.

use crate::text::{first_chars, is_blank, trimmed, truncate};
use vstd::prelude::*;
use vstd::string::*;

verus! {

/// Most characters kept of the name of a project.
pub const NAME_LIMIT: usize = 100;

/// Most characters kept of an Instagram user name.
pub const INSTAGRAM_LIMIT: usize = 50;

/// Most characters kept of the address of a web site.
pub const WEBSITE_LIMIT: usize = 200;

/// Most characters kept of the name of a YouTube channel.
pub const YOUTUBE_LIMIT: usize = 100;

/// Most characters kept of a phone number.
pub const PHONE_LIMIT: usize = 20;

/// Most characters kept of an e-mail address.
pub const EMAIL_LIMIT: usize = 100;

/// The settings of a project.
#[derive(Debug, PartialEq, Eq)]
pub struct Settings {
    pub name: String,
    pub save_path: String,
    pub instagram_username: String,
    pub website_url: String,
    pub youtube_channel: String,
    pub image_path: String,
    pub pallet: String,
    pub phone_number: String,
    pub email: String,
}

/// Settings as plain values.
pub struct SettingsView {
    pub name: Seq<char>,
    pub save_path: Seq<char>,
    pub instagram_username: Seq<char>,
    pub website_url: Seq<char>,
    pub youtube_channel: Seq<char>,
    pub image_path: Seq<char>,
    pub pallet: Seq<char>,
    pub phone_number: Seq<char>,
    pub email: Seq<char>,
}

impl View for Settings {
    type V = SettingsView;

    open spec fn view(&self) -> SettingsView {
        SettingsView {
            name: self.name@,
            save_path: self.save_path@,
            instagram_username: self.instagram_username@,
            website_url: self.website_url@,
            youtube_channel: self.youtube_channel@,
            image_path: self.image_path@,
            pallet: self.pallet@,
            phone_number: self.phone_number@,
            email: self.email@,
        }
    }
}

/// The settings of a project that has none yet: a name, the classic palette,
/// and nothing else.
pub open spec fn default_settings() -> SettingsView {
    SettingsView {
        name: "Meu Projeto"@,
        save_path: Seq::empty(),
        instagram_username: Seq::empty(),
        website_url: Seq::empty(),
        youtube_channel: Seq::empty(),
        image_path: Seq::empty(),
        pallet: "classic"@,
        phone_number: Seq::empty(),
        email: Seq::empty(),
    }
}

impl Default for Settings {
    fn default() -> (settings: Self)
        ensures
            settings@ == default_settings(),
    {
        Settings {
            name: String::from_str("Meu Projeto"),
            save_path: String::new(),
            instagram_username: String::new(),
            website_url: String::new(),
            youtube_channel: String::new(),
            image_path: String::new(),
            pallet: String::from_str("classic"),
            phone_number: String::new(),
            email: String::new(),
        }
    }
}

impl Clone for Settings {
    fn clone(&self) -> (copy: Self)
        ensures
            copy == *self,
    {
        Settings {
            name: self.name.clone(),
            save_path: self.save_path.clone(),
            instagram_username: self.instagram_username.clone(),
            website_url: self.website_url.clone(),
            youtube_channel: self.youtube_channel.clone(),
            image_path: self.image_path.clone(),
            pallet: self.pallet.clone(),
            phone_number: self.phone_number.clone(),
            email: self.email.clone(),
        }
    }
}

/// The name of a project as it is kept: the standard name where none was
/// given, and no more than a hundred characters.
pub open spec fn kept_name(name: Seq<char>) -> Seq<char> {
    first_chars(
        if trimmed(name).len() == 0 {
            "Meu Projeto"@
        } else {
            name
        },
        NAME_LIMIT as nat,
    )
}

/// A path as it is kept: dropped where it names something that is not
/// there.
pub open spec fn kept_path(path: Seq<char>, exists: bool) -> Seq<char> {
    if path.len() > 0 && !exists {
        Seq::empty()
    } else {
        path
    }
}

/// Settings as they are kept once read from their file: the name made good,
/// the texts cut to their limits, the two paths dropped where nothing is
/// found under them. The palette is kept as it is.
pub open spec fn validated(settings: SettingsView, save_path_exists: bool, image_path_exists: bool)
    -> SettingsView {
    SettingsView {
        name: kept_name(settings.name),
        save_path: kept_path(settings.save_path, save_path_exists),
        instagram_username: first_chars(settings.instagram_username, INSTAGRAM_LIMIT as nat),
        website_url: first_chars(settings.website_url, WEBSITE_LIMIT as nat),
        youtube_channel: first_chars(settings.youtube_channel, YOUTUBE_LIMIT as nat),
        image_path: kept_path(settings.image_path, image_path_exists),
        pallet: settings.pallet,
        phone_number: first_chars(settings.phone_number, PHONE_LIMIT as nat),
        email: first_chars(settings.email, EMAIL_LIMIT as nat),
    }
}

/// A name that holds nothing but white space is replaced by the standard
/// name; every other name is kept, cut to its limit. No kept name is longer
/// than the limit.
pub proof fn law_kept_name(name: Seq<char>)
    ensures
        trimmed(name).len() == 0 ==> kept_name(name) == "Meu Projeto"@,
        trimmed(name).len() > 0 ==> kept_name(name) == first_chars(name, NAME_LIMIT as nat),
        kept_name(name).len() <= NAME_LIMIT,
{
    reveal_strlit("Meu Projeto");
}

/// The name of a project as it is kept.
pub fn keep_name(name: String) -> (kept: String)
    ensures
        kept@ == kept_name(name@),
{
    if is_blank(name.as_str()) {
        truncate(String::from_str("Meu Projeto"), NAME_LIMIT)
    } else {
        truncate(name, NAME_LIMIT)
    }
}

/// A path as it is kept. `exists` says whether the host found anything
/// under it; of an empty path the host asks nothing.
pub fn keep_path(path: String, exists: bool) -> (kept: String)
    ensures
        kept@ == kept_path(path@, exists),
{
    if !path.as_str().is_empty() && !exists {
        String::new()
    } else {
        path
    }
}

/// Makes settings good that were read from their file. `save_path_exists`
/// and `image_path_exists` say whether the host found anything under the
/// two paths.
pub fn validate_settings(settings: Settings, save_path_exists: bool, image_path_exists: bool) -> (kept:
    Settings)
    ensures
        kept@ == validated(settings@, save_path_exists, image_path_exists),
{
    Settings {
        name: keep_name(settings.name),
        save_path: keep_path(settings.save_path, save_path_exists),
        instagram_username: truncate(settings.instagram_username, INSTAGRAM_LIMIT),
        website_url: truncate(settings.website_url, WEBSITE_LIMIT),
        youtube_channel: truncate(settings.youtube_channel, YOUTUBE_LIMIT),
        image_path: keep_path(settings.image_path, image_path_exists),
        pallet: settings.pallet,
        phone_number: truncate(settings.phone_number, PHONE_LIMIT),
        email: truncate(settings.email, EMAIL_LIMIT),
    }
}

/// The state in which the host found the file of settings.
#[derive(Debug, PartialEq, Eq)]
pub enum SettingsFile {
    /// There is no directory for the data of this user.
    NoDataDirectory,
    /// The directory of the application is missing and could not be made.
    NoDirectory,
    /// The directory is there, the file is not.
    Missing,
    /// The file is there and nothing can be learnt of it.
    Hidden,
    /// The file is there and holds nothing.
    Blank,
    /// The file is there and cannot be opened.
    Locked,
    /// The file was read and does not hold settings.
    Garbled,
    /// The file was read and holds these settings.
    Holding(Settings),
}

/// A found file as plain values.
pub enum SettingsFileView {
    NoDataDirectory,
    NoDirectory,
    Missing,
    Hidden,
    Blank,
    Locked,
    Garbled,
    Holding(SettingsView),
}

impl View for SettingsFile {
    type V = SettingsFileView;

    open spec fn view(&self) -> SettingsFileView {
        match self {
            SettingsFile::NoDataDirectory => SettingsFileView::NoDataDirectory,
            SettingsFile::NoDirectory => SettingsFileView::NoDirectory,
            SettingsFile::Missing => SettingsFileView::Missing,
            SettingsFile::Hidden => SettingsFileView::Hidden,
            SettingsFile::Blank => SettingsFileView::Blank,
            SettingsFile::Locked => SettingsFileView::Locked,
            SettingsFile::Garbled => SettingsFileView::Garbled,
            SettingsFile::Holding(settings) => SettingsFileView::Holding(settings@),
        }
    }
}

/// What the host is to do about the file once the settings are had.
#[derive(Clone, Copy, Debug, PartialEq, Eq, Structural)]
pub enum Repair {
    /// Nothing.
    Nothing,
    /// Write the settings returned to the file.
    WriteDefaults,
    /// Copy the file aside, then write the settings returned to it.
    BackUpAndWriteDefaults,
}

/// What is done about a file found in a given state: a file that holds
/// settings is left alone; one that is missing or blank is written anew; one
/// that is garbled is copied aside first; and where the file cannot even be
/// reached, nothing is attempted.
pub open spec fn repair_of(found: SettingsFileView) -> Repair {
    match found {
        SettingsFileView::Missing => Repair::WriteDefaults,
        SettingsFileView::Blank => Repair::WriteDefaults,
        SettingsFileView::Garbled => Repair::BackUpAndWriteDefaults,
        _ => Repair::Nothing,
    }
}

/// The settings had from a file found in a given state: those it holds,
/// made good, or the standard ones.
pub open spec fn settings_of(
    found: SettingsFileView,
    save_path_exists: bool,
    image_path_exists: bool,
) -> SettingsView {
    match found {
        SettingsFileView::Holding(settings) => validated(
            settings,
            save_path_exists,
            image_path_exists,
        ),
        _ => default_settings(),
    }
}

/// The settings of the project, from the state in which the host found
/// their file, and what the host is to do about the file. Never fails:
/// where the file gives nothing, the standard settings are returned.
pub fn get_settings(found: SettingsFile, save_path_exists: bool, image_path_exists: bool) -> (had: (
    Settings,
    Repair,
))
    ensures
        had.0@ == settings_of(found@, save_path_exists, image_path_exists),
        had.1 == repair_of(found@),
{
    match found {
        SettingsFile::Holding(settings) => (
            validate_settings(settings, save_path_exists, image_path_exists),
            Repair::Nothing,
        ),
        SettingsFile::Missing => (Settings::default(), Repair::WriteDefaults),
        SettingsFile::Blank => (Settings::default(), Repair::WriteDefaults),
        SettingsFile::Garbled => (Settings::default(), Repair::BackUpAndWriteDefaults),
        _ => (Settings::default(), Repair::Nothing),
    }
}

} // verus!
