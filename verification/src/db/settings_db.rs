//! The settings of the user as one row of a table: what a fresh row holds,
//! and how a row is made good when it is read and before it is written.

use crate::settings::settings_repository::{
    keep_name, kept_name, EMAIL_LIMIT, INSTAGRAM_LIMIT, PHONE_LIMIT, WEBSITE_LIMIT, YOUTUBE_LIMIT,
};
use crate::text::{first_chars, truncate};
use crate::time::{instant_under, Timestamp, FILE_PATTERN, STAMP_PATTERN};
use vstd::prelude::*;
use vstd::string::*;

verus! {

/// The column that holds the image of the project; older tables lack it.
pub const IMAGE_BLOB_COLUMN: &'static str = "image_blob";

/// The one row of settings that a user has.
#[derive(Debug, PartialEq, Eq)]
pub struct UserSettings {
    pub id: i32,
    pub name: String,
    pub save_path: String,
    pub instagram_username: String,
    pub website_url: String,
    pub youtube_channel: String,
    /// Where the image lay when images were kept as files.
    pub image_path: String,
    /// The image itself.
    pub image_blob: Option<Vec<u8>>,
    pub pallet: String,
    pub phone_number: String,
    pub email: String,
    pub created_at: String,
    pub updated_at: String,
}

/// A row of settings as plain values.
pub struct UserSettingsView {
    pub id: int,
    pub name: Seq<char>,
    pub save_path: Seq<char>,
    pub instagram_username: Seq<char>,
    pub website_url: Seq<char>,
    pub youtube_channel: Seq<char>,
    pub image_path: Seq<char>,
    pub image_blob: Option<Seq<u8>>,
    pub pallet: Seq<char>,
    pub phone_number: Seq<char>,
    pub email: Seq<char>,
    pub created_at: Seq<char>,
    pub updated_at: Seq<char>,
}

impl View for UserSettings {
    type V = UserSettingsView;

    open spec fn view(&self) -> UserSettingsView {
        UserSettingsView {
            id: self.id as int,
            name: self.name@,
            save_path: self.save_path@,
            instagram_username: self.instagram_username@,
            website_url: self.website_url@,
            youtube_channel: self.youtube_channel@,
            image_path: self.image_path@,
            image_blob: match self.image_blob {
                Some(bytes) => Some(bytes@),
                None => None,
            },
            pallet: self.pallet@,
            phone_number: self.phone_number@,
            email: self.email@,
            created_at: self.created_at@,
            updated_at: self.updated_at@,
        }
    }
}

/// The row of a user who has set nothing yet, made at `now`.
pub open spec fn default_user_settings(now: int) -> UserSettingsView {
    UserSettingsView {
        id: 1,
        name: "Meu Projeto"@,
        save_path: Seq::empty(),
        instagram_username: Seq::empty(),
        website_url: Seq::empty(),
        youtube_channel: Seq::empty(),
        image_path: Seq::empty(),
        image_blob: None,
        pallet: "classic"@,
        phone_number: Seq::empty(),
        email: Seq::empty(),
        created_at: instant_under(now, STAMP_PATTERN@),
        updated_at: instant_under(now, STAMP_PATTERN@),
    }
}

/// Whether a word names a palette that the application has.
pub open spec fn valid_palette(word: Seq<char>) -> bool {
    ||| word == "classic"@
    ||| word == "modern"@
    ||| word == "luxury"@
    ||| word == "rose_gold"@
    ||| word == "white_gold"@
    ||| word == "diamond"@
    ||| word == "emerald"@
    ||| word == "ruby"@
    ||| word == "sapphire"@
    ||| word == "vintage"@
}

/// The palette as it is kept: the classic one in place of one that the
/// application does not have.
pub open spec fn kept_palette(word: Seq<char>) -> Seq<char> {
    if valid_palette(word) {
        word
    } else {
        "classic"@
    }
}

/// A row as it is kept: the name made good, the texts cut to their limits,
/// the palette one that exists. Paths, image and dates stay.
pub open spec fn validated_row(settings: UserSettingsView) -> UserSettingsView {
    UserSettingsView {
        name: kept_name(settings.name),
        instagram_username: first_chars(settings.instagram_username, INSTAGRAM_LIMIT as nat),
        website_url: first_chars(settings.website_url, WEBSITE_LIMIT as nat),
        youtube_channel: first_chars(settings.youtube_channel, YOUTUBE_LIMIT as nat),
        phone_number: first_chars(settings.phone_number, PHONE_LIMIT as nat),
        email: first_chars(settings.email, EMAIL_LIMIT as nat),
        pallet: kept_palette(settings.pallet),
        ..settings
    }
}

/// The row that is written when the user saves `settings` at `now`: the row
/// made good, dated `now` as its last change.
pub open spec fn row_to_save(settings: UserSettingsView, now: int) -> UserSettingsView {
    UserSettingsView { updated_at: instant_under(now, STAMP_PATTERN@), ..validated_row(settings) }
}

/// The name of the file to which the settings are copied at `now`.
pub open spec fn backup_name(now: int) -> Seq<char> {
    "settings_backup_"@ + instant_under(now, FILE_PATTERN@) + ".json"@
}

impl UserSettings {
    /// The row of a user who has set nothing yet, made at `now`.
    pub fn default_at(now: &Timestamp) -> (settings: Self)
        ensures
            settings@ == default_user_settings(now@),
    {
        UserSettings {
            id: 1,
            name: String::from_str("Meu Projeto"),
            save_path: String::new(),
            instagram_username: String::new(),
            website_url: String::new(),
            youtube_channel: String::new(),
            image_path: String::new(),
            image_blob: None,
            pallet: String::from_str("classic"),
            phone_number: String::new(),
            email: String::new(),
            created_at: now.stamp(),
            updated_at: now.stamp(),
        }
    }
}

impl Clone for UserSettings {
    fn clone(&self) -> (copy: Self)
        ensures
            copy@ == self@,
    {
        UserSettings {
            id: self.id,
            name: self.name.clone(),
            save_path: self.save_path.clone(),
            instagram_username: self.instagram_username.clone(),
            website_url: self.website_url.clone(),
            youtube_channel: self.youtube_channel.clone(),
            image_path: self.image_path.clone(),
            image_blob: match &self.image_blob {
                Some(bytes) => Some(bytes.clone()),
                None => None,
            },
            pallet: self.pallet.clone(),
            phone_number: self.phone_number.clone(),
            email: self.email.clone(),
            created_at: self.created_at.clone(),
            updated_at: self.updated_at.clone(),
        }
    }
}

/// Whether a word names a palette that the application has.
pub fn is_valid_palette(word: &String) -> (valid: bool)
    ensures
        valid == valid_palette(word@),
{
    *word == String::from_str("classic") || *word == String::from_str("modern") || *word
        == String::from_str("luxury") || *word == String::from_str("rose_gold") || *word
        == String::from_str("white_gold") || *word == String::from_str("diamond") || *word
        == String::from_str("emerald") || *word == String::from_str("ruby") || *word
        == String::from_str("sapphire") || *word == String::from_str("vintage")
}

/// Makes a row good: as it is read, and before it is written.
pub fn validate_user_settings(settings: UserSettings) -> (kept: UserSettings)
    ensures
        kept@ == validated_row(settings@),
{
    let pallet = if is_valid_palette(&settings.pallet) {
        settings.pallet
    } else {
        String::from_str("classic")
    };
    UserSettings {
        id: settings.id,
        name: keep_name(settings.name),
        save_path: settings.save_path,
        instagram_username: truncate(settings.instagram_username, INSTAGRAM_LIMIT),
        website_url: truncate(settings.website_url, WEBSITE_LIMIT),
        youtube_channel: truncate(settings.youtube_channel, YOUTUBE_LIMIT),
        image_path: settings.image_path,
        image_blob: settings.image_blob,
        pallet,
        phone_number: truncate(settings.phone_number, PHONE_LIMIT),
        email: truncate(settings.email, EMAIL_LIMIT),
        created_at: settings.created_at,
        updated_at: settings.updated_at,
    }
}

/// The row that is written when the user saves `settings` at `now`.
pub fn prepare_row(settings: &UserSettings, now: &Timestamp) -> (row: UserSettings)
    ensures
        row@ == row_to_save(settings@, now@),
{
    let mut row = validate_user_settings(settings.clone());
    row.updated_at = now.stamp();
    row
}

/// The name of the file to which the settings are copied at `now`.
pub fn backup_file_name(now: &Timestamp) -> (name: String)
    ensures
        name@ == backup_name(now@),
{
    String::from_str("settings_backup_").concat(now.file_stamp().as_str()).concat(".json")
}

/// Whether the table of settings, of which these are the columns, still
/// lacks the column for the image and has to be given it.
pub fn lacks_image_column(columns: &Vec<String>) -> (lacking: bool)
    ensures
        lacking == !(exists|i: int| 0 <= i < columns.len() && columns[i]@ == IMAGE_BLOB_COLUMN@),
{
    let wanted = String::from_str(IMAGE_BLOB_COLUMN);
    let mut i: usize = 0;
    while i < columns.len()
        invariant
            i <= columns.len(),
            wanted@ == IMAGE_BLOB_COLUMN@,
            forall|j: int| 0 <= j < i ==> columns[j]@ != IMAGE_BLOB_COLUMN@,
        decreases columns.len() - i,
    {
        if columns[i] == wanted {
            return false;
        }
        i = i + 1;
    }
    true
}

} // verus!
