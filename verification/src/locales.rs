//! The languages of the interface and the texts of one language.

use crate::text::followed_by;
use vstd::prelude::*;

verus! {

/// A language that ships with the program.
#[derive(Debug, Clone, Copy, PartialEq, Eq, Structural)]
pub enum LocaleChoice {
    EnUs,
    EsEs,
}

/// The name under which a language's texts are filed.
pub open spec fn choice_name(choice: LocaleChoice) -> Seq<char> {
    match choice {
        LocaleChoice::EnUs => "en-US"@,
        LocaleChoice::EsEs => "es-ES"@,
    }
}

impl LocaleChoice {
    /// The name under which this language's texts are filed.
    pub fn get_name(&self) -> (r: String)
        ensures
            r@ == choice_name(*self),
    {
        let val = match self {
            LocaleChoice::EnUs => "en-US",
            LocaleChoice::EsEs => "es-ES",
        };
        val.to_owned()
    }
}

/// The language of a configuration: one that ships with the program, as
/// a fresh configuration has it, or a name, as a stored one has it.
#[derive(Debug, Clone, PartialEq, Eq)]
pub enum Nester {
    NestedEnum(LocaleChoice),
    Other(String),
}

/// The name that a configuration's language is stored as.
pub open spec fn stored_name(nester: Nester) -> Seq<char> {
    match nester {
        Nester::NestedEnum(choice) => choice_name(choice),
        Nester::Other(name) => name@,
    }
}

impl Nester {
    /// The name of a stored configuration's language.
    pub fn get_choice(&self) -> (r: String)
        requires
            self is Other,
        ensures
            r@ == self->Other_0@,
    {
        match self {
            Nester::NestedEnum(choice) => choice.get_name(),
            Nester::Other(s) => s.clone(),
        }
    }

    /// The name that this language is stored as.
    pub fn name(&self) -> (r: String)
        ensures
            r@ == stored_name(*self),
    {
        match self {
            Nester::NestedEnum(choice) => choice.get_name(),
            Nester::Other(s) => s.clone(),
        }
    }
}

/// The texts of the interface in one language.
#[derive(Debug, Clone, Default, PartialEq, Eq)]
pub struct Locale {
    pub app_title: String,
    pub file_menu_name: String,
    pub reload_database_menu_option: String,
    pub check_installed_menu_option: String,
    pub clear_cache_menu_option: String,
    pub offline_menu_option: String,
    pub quit_menu_option: String,
    pub configuration_menu_name: String,
    pub configuration_menu_option: String,
    pub install_random_map_button: String,
    pub clear_filter_text_button: String,
    pub filter_text_placeholder: String,
    pub id_column_name: String,
    pub title_column_name: String,
    pub author_column_name: String,
    pub released_column_name: String,
    pub rating_column_name: String,
    pub install_button_text: String,
    pub uninstall_button_text: String,
    pub play_button_text: String,
    pub config_dialog_title: String,
    pub config_dialog_header_text: String,
    pub config_dialog_command_line_text: String,
    pub config_dialog_quake_dir_text: String,
    pub config_dialog_quake_exe_text: String,
    pub config_dialog_download_dir_text: String,
    pub config_dialog_expansion_pack_text: String,
    pub config_dialog_expansion_hip_text: String,
    pub config_dialog_expansion_rogue_text: String,
    pub config_dialog_select_button_text: String,
    pub universal_ok_button: String,
    pub universal_cancel_button: String,
    pub clear_dialog_title: String,
    pub clear_dialog_text: String,
    pub output_dialog_title: String,
    pub database_corrupt_error: String,
}

/// The name of the file that holds the texts of the language `name`.
pub fn locale_file_name(name: &str) -> (r: String)
    ensures
        r@ == name@ + ".xml"@,
{
    followed_by(name, ".xml")
}

/// The language to fall back on where the chosen one cannot be read.
pub fn fallback_locale_name() -> (r: String)
    ensures
        r@ == "en-us"@,
{
    "en-us".to_owned()
}

/// The texts to use: those of the chosen language where they could be
/// read, else those of the fallback language; none where neither could.
pub fn init_locale(chosen: Option<Locale>, fallback: Option<Locale>) -> (r: Option<Locale>)
    ensures
        r == match chosen {
            Some(locale) => Some(locale),
            None => fallback,
        },
{
    match chosen {
        Some(locale) => Some(locale),
        None => fallback,
    }
}

} // verus!
