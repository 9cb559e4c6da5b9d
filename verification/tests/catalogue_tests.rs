use qinjector::configuration::Configuration;
use qinjector::dates::{earlier, get_date, pick_first_date, ReleaseDate};
use qinjector::image_loader::ImageLoader;
use qinjector::locales::{
    fallback_locale_name, init_locale, locale_file_name, Locale, LocaleChoice, Nester,
};
use qinjector::quake_file::{compare_text, find_file, matches_filter, QuakeFile};
use qinjector::remote::{database_file_name, database_url, CHUNK_SIZE, FETCH_TIMEOUT_SECS};

fn date(year: i32, month: u32, day: u32) -> ReleaseDate {
    ReleaseDate { year, month, day }
}

fn listed(id: &str, title: &str, author: &str, released: &str) -> QuakeFile {
    QuakeFile {
        id: id.to_string(),
        title: title.to_string(),
        author: author.to_string(),
        date: released.to_string(),
        ..QuakeFile::default()
    }
}

#[test]
fn shipped_languages_have_their_names() {
    assert_eq!(LocaleChoice::EnUs.get_name(), "en-US");
    assert_eq!(LocaleChoice::EsEs.get_name(), "es-ES");
}

#[test]
fn stored_language_is_its_name() {
    assert_eq!(Nester::Other("es-ES".to_string()).get_choice(), "es-ES");
    assert_eq!(Nester::Other("es-ES".to_string()).name(), "es-ES");
    assert_eq!(Nester::NestedEnum(LocaleChoice::EnUs).name(), "en-US");
    assert_eq!(Nester::NestedEnum(LocaleChoice::EsEs).name(), "es-ES");
}

#[test]
fn chosen_language_wins_over_the_fallback() {
    let spanish = Locale { app_title: "Inyector".to_string(), ..Locale::default() };
    let english = Locale { app_title: "Injector".to_string(), ..Locale::default() };
    assert_eq!(init_locale(Some(spanish.clone()), Some(english.clone())), Some(spanish.clone()));
    assert_eq!(init_locale(Some(spanish.clone()), None), Some(spanish));
    assert_eq!(init_locale(None, Some(english.clone())), Some(english));
    assert_eq!(init_locale(None, None), None);
}

#[test]
fn language_files_are_named_after_the_language() {
    assert_eq!(locale_file_name("es-ES"), "es-ES.xml");
    assert_eq!(locale_file_name(""), ".xml");
    assert_eq!(fallback_locale_name(), "en-us");
}

#[test]
fn catalogue_is_fetched_from_the_reviews() {
    assert_eq!(database_url(), "https://www.quaddicted.com/reviews/quaddicted_database.xml");
    assert_eq!(database_file_name(), "database.xml");
    assert_eq!(FETCH_TIMEOUT_SECS, 60);
    assert_eq!(CHUNK_SIZE, 16384);
}

#[test]
fn cached_preview_is_shown() {
    let mut loader = ImageLoader::new("dopa".to_string(), "3".to_string());
    assert_eq!(loader.path(), "");
    assert_eq!(loader.map_id(), "dopa");
    assert_eq!(loader.path_string(), "3");
    assert_eq!(loader.cached_image_path("/cache"), "/cache/dopa.jpg");
    assert!(!loader.load_map_image(false, "/cache", true));
    assert_eq!(loader.path(), "/cache/dopa.jpg");
    assert!(!loader.load_map_image(true, "/cache", true));
    assert_eq!(loader.path(), "/cache/dopa.jpg");
}

#[test]
fn missing_preview_is_fetched_online() {
    let mut loader = ImageLoader::new("dopa".to_string(), "3".to_string());
    assert!(loader.load_map_image(false, "/cache", false));
    assert_eq!(loader.path(), "/cache/dopa.jpg");
    assert_eq!(loader.image_url(), "https://www.quaddicted.com/reviews/screenshots/dopa.jpg");
}

#[test]
fn missing_preview_is_replaced_offline() {
    let mut loader = ImageLoader::new("dopa".to_string(), "3".to_string());
    assert!(!loader.load_map_image(true, "/cache", false));
    assert_eq!(loader.path(), "/cache/not_found.png");
    assert_eq!(loader.map_id(), "dopa");
}

#[test]
fn dates_are_read_in_the_first_format_that_fits() {
    assert_eq!(get_date("24.12.2005"), Some(date(2005, 12, 24)));
    assert_eq!(get_date("03.04.2005"), Some(date(2005, 4, 3)));
    assert_eq!(get_date("24-12-2005"), Some(date(2005, 12, 24)));
    assert_eq!(get_date("03-04-2005"), Some(date(2005, 4, 3)));
    assert_eq!(get_date("12-24-2005"), Some(date(2005, 12, 24)));
    assert_eq!(get_date("12.24.2005"), Some(date(2005, 12, 24)));
}

#[test]
fn texts_that_are_no_date_give_nothing() {
    assert_eq!(get_date(""), None);
    assert_eq!(get_date("yesterday"), None);
    assert_eq!(get_date("31.02.2005"), None);
    assert_eq!(get_date("2005-12-24"), None);
}

#[test]
fn first_date_of_several_is_picked() {
    assert_eq!(pick_first_date(&vec![None, Some(date(1, 2, 3)), Some(date(4, 5, 6))]), Some(date(1, 2, 3)));
    assert_eq!(pick_first_date(&vec![None, None]), None);
    assert_eq!(pick_first_date(&Vec::new()), None);
}

#[test]
fn dates_are_ordered_by_year_month_day() {
    assert!(earlier(&date(2004, 12, 31), &date(2005, 1, 1)));
    assert!(earlier(&date(2005, 1, 31), &date(2005, 2, 1)));
    assert!(earlier(&date(2005, 2, 1), &date(2005, 2, 2)));
    assert!(!earlier(&date(2005, 2, 2), &date(2005, 2, 2)));
    assert!(!earlier(&date(2005, 2, 2), &date(2005, 2, 1)));
    assert!(!earlier(&date(2005, 1, 1), &date(2004, 12, 31)));
    assert!(earlier(&date(-1, 12, 31), &date(0, 1, 1)));
}

#[test]
fn filter_ignores_ascii_letter_case() {
    assert!(compare_text(&"Dopa by machine".to_string(), &"DOPA".to_string()));
    assert!(compare_text(&"DOPA".to_string(), &"op".to_string()));
    assert!(compare_text(&"dopa".to_string(), &"".to_string()));
    assert!(compare_text(&"".to_string(), &"".to_string()));
    assert!(!compare_text(&"dopa".to_string(), &"dopamine".to_string()));
    assert!(!compare_text(&"dopa".to_string(), &"x".to_string()));
    assert!(!compare_text(&"".to_string(), &"x".to_string()));
    assert!(!compare_text(&"Ärger".to_string(), &"ärger".to_string()));
}

#[test]
fn filter_looks_at_id_title_author_and_date() {
    let file = listed("dopa", "Dimension of the Past", "MachineGames", "24.06.2016");
    assert!(matches_filter(&file, &"DOP".to_string()));
    assert!(matches_filter(&file, &"past".to_string()));
    assert!(matches_filter(&file, &"machine".to_string()));
    assert!(matches_filter(&file, &"2016".to_string()));
    assert!(matches_filter(&file, &"".to_string()));
    assert!(!matches_filter(&file, &"arcane".to_string()));
    let described = QuakeFile { description: "arcane".to_string(), ..file };
    assert!(!matches_filter(&described, &"arcane".to_string()));
}

#[test]
fn catalogue_position_is_the_first_match() {
    let files = vec![listed("a", "", "", ""), listed("b", "", "", ""), listed("b", "x", "", "")];
    assert_eq!(find_file(&files, &"a".to_string()), 0);
    assert_eq!(find_file(&files, &"b".to_string()), 1);
    assert_eq!(find_file(&files, &"c".to_string()), 3);
    assert_eq!(find_file(&Vec::new(), &"a".to_string()), 0);
}

#[test]
fn settings_keep_every_field() {
    let mut s = Configuration::new(
        "qd".to_string(),
        "qe".to_string(),
        "dd".to_string(),
        true,
        false,
        true,
        "cd".to_string(),
        "icd".to_string(),
        "ird".to_string(),
        Nester::Other("es-ES".to_string()),
        Locale::default(),
    );
    assert_eq!(s.quake_dir(), "qd");
    assert_eq!(s.quake_exe(), "qe");
    assert_eq!(s.download_dir(), "dd");
    assert!(*s.rogue_installed());
    assert!(!*s.hip_installed());
    assert!(*s.is_offline());
    assert_eq!(s.config_dir(), "cd");
    assert_eq!(s.image_cache_dir(), "icd");
    assert_eq!(s.image_resources_dir(), "ird");
    assert_eq!(s.current_locale_choice(), &Nester::Other("es-ES".to_string()));
    assert_eq!(s.current_locale(), &Locale::default());
    s.set_quake_dir("1".to_string());
    s.set_quake_exe("2".to_string());
    s.set_download_dir("3".to_string());
    s.set_rogue_installed(false);
    s.set_hip_installed(true);
    s.set_is_offline(false);
    s.set_config_dir("4".to_string());
    s.set_image_cache_dir("5".to_string());
    s.set_image_resources_dir("6".to_string());
    s.set_current_locale_choice(Nester::NestedEnum(LocaleChoice::EsEs));
    s.set_current_locale(Locale { app_title: "t".to_string(), ..Locale::default() });
    assert_eq!(
        s,
        Configuration::new(
            "1".to_string(),
            "2".to_string(),
            "3".to_string(),
            false,
            true,
            false,
            "4".to_string(),
            "5".to_string(),
            "6".to_string(),
            Nester::NestedEnum(LocaleChoice::EsEs),
            Locale { app_title: "t".to_string(), ..Locale::default() },
        )
    );
}
