//! The program's settings.

use crate::locales::{Locale, Nester};
use vstd::prelude::*;

verus! {

/// What a `Configuration` stands for.
pub struct ConfigurationView {
    pub quake_dir: Seq<char>,
    pub quake_exe: Seq<char>,
    pub download_dir: Seq<char>,
    pub rogue_installed: bool,
    pub hip_installed: bool,
    pub is_offline: bool,
    pub config_dir: Seq<char>,
    pub image_cache_dir: Seq<char>,
    pub image_resources_dir: Seq<char>,
    pub current_locale_choice: Nester,
    pub current_locale: Locale,
}

/// The program's settings.
#[derive(Debug, PartialEq, Eq)]
pub struct Configuration {
    quake_dir: String,
    quake_exe: String,
    download_dir: String,
    rogue_installed: bool,
    hip_installed: bool,
    is_offline: bool,
    config_dir: String,
    image_cache_dir: String,
    image_resources_dir: String,
    current_locale_choice: Nester,
    current_locale: Locale,
}

impl View for Configuration {
    type V = ConfigurationView;

    closed spec fn view(&self) -> ConfigurationView {
        ConfigurationView {
            quake_dir: self.quake_dir@,
            quake_exe: self.quake_exe@,
            download_dir: self.download_dir@,
            rogue_installed: self.rogue_installed,
            hip_installed: self.hip_installed,
            is_offline: self.is_offline,
            config_dir: self.config_dir@,
            image_cache_dir: self.image_cache_dir@,
            image_resources_dir: self.image_resources_dir@,
            current_locale_choice: self.current_locale_choice,
            current_locale: self.current_locale,
        }
    }
}

impl Configuration {
    /// The settings with every field as given.
    pub fn new(
        quake_dir: String,
        quake_exe: String,
        download_dir: String,
        rogue_installed: bool,
        hip_installed: bool,
        is_offline: bool,
        config_dir: String,
        image_cache_dir: String,
        image_resources_dir: String,
        current_locale_choice: Nester,
        current_locale: Locale,
    ) -> (r: Self)
        ensures
            r@ == (ConfigurationView {
                quake_dir: quake_dir@,
                quake_exe: quake_exe@,
                download_dir: download_dir@,
                rogue_installed,
                hip_installed,
                is_offline,
                config_dir: config_dir@,
                image_cache_dir: image_cache_dir@,
                image_resources_dir: image_resources_dir@,
                current_locale_choice,
                current_locale,
            }),
    {
        Configuration {
            quake_dir,
            quake_exe,
            download_dir,
            rogue_installed,
            hip_installed,
            is_offline,
            config_dir,
            image_cache_dir,
            image_resources_dir,
            current_locale_choice,
            current_locale,
        }
    }

    /// The game's directory.
    pub fn quake_dir(&self) -> (r: &String)
        ensures
            r@ == self@.quake_dir,
    {
        &self.quake_dir
    }

    /// The engine's executable.
    pub fn quake_exe(&self) -> (r: &String)
        ensures
            r@ == self@.quake_exe,
    {
        &self.quake_exe
    }

    /// The directory of cached archives.
    pub fn download_dir(&self) -> (r: &String)
        ensures
            r@ == self@.download_dir,
    {
        &self.download_dir
    }

    /// Whether the second mission pack is installed.
    pub fn rogue_installed(&self) -> (r: &bool)
        ensures
            *r == self@.rogue_installed,
    {
        &self.rogue_installed
    }

    /// Whether the first mission pack is installed.
    pub fn hip_installed(&self) -> (r: &bool)
        ensures
            *r == self@.hip_installed,
    {
        &self.hip_installed
    }

    /// Whether the program works without the network.
    pub fn is_offline(&self) -> (r: &bool)
        ensures
            *r == self@.is_offline,
    {
        &self.is_offline
    }

    /// The directory of the program's own files.
    pub fn config_dir(&self) -> (r: &String)
        ensures
            r@ == self@.config_dir,
    {
        &self.config_dir
    }

    /// The directory of cached preview images.
    pub fn image_cache_dir(&self) -> (r: &String)
        ensures
            r@ == self@.image_cache_dir,
    {
        &self.image_cache_dir
    }

    /// The directory of the images that ship with the program.
    pub fn image_resources_dir(&self) -> (r: &String)
        ensures
            r@ == self@.image_resources_dir,
    {
        &self.image_resources_dir
    }

    /// The language that was chosen.
    pub fn current_locale_choice(&self) -> (r: &Nester)
        ensures
            *r == self@.current_locale_choice,
    {
        &self.current_locale_choice
    }

    /// The texts of the chosen language.
    pub fn current_locale(&self) -> (r: &Locale)
        ensures
            *r == self@.current_locale,
    {
        &self.current_locale
    }

    /// Replaces `quake_dir` and leaves the rest.
    pub fn set_quake_dir(&mut self, value: String)
        ensures
            final(self)@ == (ConfigurationView { quake_dir: value@, ..old(self)@ }),
    {
        self.quake_dir = value;
    }

    /// Replaces `quake_exe` and leaves the rest.
    pub fn set_quake_exe(&mut self, value: String)
        ensures
            final(self)@ == (ConfigurationView { quake_exe: value@, ..old(self)@ }),
    {
        self.quake_exe = value;
    }

    /// Replaces `download_dir` and leaves the rest.
    pub fn set_download_dir(&mut self, value: String)
        ensures
            final(self)@ == (ConfigurationView { download_dir: value@, ..old(self)@ }),
    {
        self.download_dir = value;
    }

    /// Replaces `rogue_installed` and leaves the rest.
    pub fn set_rogue_installed(&mut self, value: bool)
        ensures
            final(self)@ == (ConfigurationView { rogue_installed: value, ..old(self)@ }),
    {
        self.rogue_installed = value;
    }

    /// Replaces `hip_installed` and leaves the rest.
    pub fn set_hip_installed(&mut self, value: bool)
        ensures
            final(self)@ == (ConfigurationView { hip_installed: value, ..old(self)@ }),
    {
        self.hip_installed = value;
    }

    /// Replaces `is_offline` and leaves the rest.
    pub fn set_is_offline(&mut self, value: bool)
        ensures
            final(self)@ == (ConfigurationView { is_offline: value, ..old(self)@ }),
    {
        self.is_offline = value;
    }

    /// Replaces `config_dir` and leaves the rest.
    pub fn set_config_dir(&mut self, value: String)
        ensures
            final(self)@ == (ConfigurationView { config_dir: value@, ..old(self)@ }),
    {
        self.config_dir = value;
    }

    /// Replaces `image_cache_dir` and leaves the rest.
    pub fn set_image_cache_dir(&mut self, value: String)
        ensures
            final(self)@ == (ConfigurationView { image_cache_dir: value@, ..old(self)@ }),
    {
        self.image_cache_dir = value;
    }

    /// Replaces `image_resources_dir` and leaves the rest.
    pub fn set_image_resources_dir(&mut self, value: String)
        ensures
            final(self)@ == (ConfigurationView { image_resources_dir: value@, ..old(self)@ }),
    {
        self.image_resources_dir = value;
    }

    /// Replaces `current_locale_choice` and leaves the rest.
    pub fn set_current_locale_choice(&mut self, value: Nester)
        ensures
            final(self)@ == (ConfigurationView { current_locale_choice: value, ..old(self)@ }),
    {
        self.current_locale_choice = value;
    }

    /// Replaces `current_locale` and leaves the rest.
    pub fn set_current_locale(&mut self, value: Locale)
        ensures
            final(self)@ == (ConfigurationView { current_locale: value, ..old(self)@ }),
    {
        self.current_locale = value;
    }
}

} // verus!
