use uploader::cli::{recognize, select, ParsedArgs, Selection, Subcommand};
use uploader::config::{
    default_api_url, default_log_level, LevelFilter, UploaderConfig, UserInputConfig,
};
use uploader::frontend::{run, run_service, Frontend};
use uploader::upload::Client;

#[test]
fn defaults_of_a_configuration() {
    assert_eq!(default_api_url(), "https://rakaly.com/api/upload");
    assert_eq!(default_log_level(), LevelFilter::Info);
}

#[test]
fn minimal_configuration_holds_the_input_and_the_defaults() {
    let input = UserInputConfig { username: "comagoosie".to_string(), api_key: "abc".to_string() };
    let config = UploaderConfig::minimal(input);
    assert_eq!(
        config,
        UploaderConfig {
            username: "comagoosie".to_string(),
            api_key: "abc".to_string(),
            watch_directory: None,
            api_url: "https://rakaly.com/api/upload".to_string(),
            log_level: LevelFilter::Info,
        }
    );
}

#[test]
fn client_of_a_configuration() {
    let config = UploaderConfig {
        username: "u".to_string(),
        api_key: "k".to_string(),
        watch_directory: Some("/saves".to_string()),
        api_url: "http://localhost:8080/upload".to_string(),
        log_level: LevelFilter::Debug,
    };
    assert_eq!(
        config.client(),
        Client {
            username: "u".to_string(),
            api_key: "k".to_string(),
            api_url: "http://localhost:8080/upload".to_string(),
        }
    );
    assert_eq!(config.watch_target(&"/opt/app".to_string()), "/saves");
    let bare = UploaderConfig { watch_directory: None, ..config };
    assert_eq!(bare.watch_target(&"/opt/app".to_string()), "/opt/app");
}

#[test]
fn subcommands_are_recognized_whatever_their_case() {
    assert_eq!(recognize("gui"), Ok(Subcommand::Gui));
    assert_eq!(recognize("run"), Ok(Subcommand::Run));
    assert_eq!(recognize("install-service"), Ok(Subcommand::InstallService));
    assert_eq!(recognize("run-service"), Ok(Subcommand::RunService));
    assert_eq!(recognize("uninstall-service"), Ok(Subcommand::UninstallService));
    assert_eq!(recognize("GUI"), Ok(Subcommand::Gui));
    assert_eq!(recognize("Run"), Ok(Subcommand::Run));
    assert_eq!(recognize("Install-Service"), Ok(Subcommand::InstallService));
}

#[test]
fn unknown_subcommands_are_named_in_the_error() {
    assert_eq!(recognize("Upload"), Err("unrecognized subcommand: upload".to_string()));
    assert_eq!(recognize(""), Err("unrecognized subcommand: ".to_string()));
    assert_eq!(recognize("runs"), Err("unrecognized subcommand: runs".to_string()));
    assert_eq!(recognize("RÜN"), Err("unrecognized subcommand: rÜn".to_string()));
}

#[test]
fn only_gui_and_run_read_a_configuration() {
    assert!(Subcommand::Gui.needs_config());
    assert!(Subcommand::Run.needs_config());
    assert!(!Subcommand::InstallService.needs_config());
    assert!(!Subcommand::RunService.needs_config());
    assert!(!Subcommand::UninstallService.needs_config());
    let config = "/etc/rakaly/config.toml".to_string();
    assert_eq!(Subcommand::Gui.into_args(config.clone()), ParsedArgs::Gui { config: config.clone() });
    assert_eq!(Subcommand::Run.into_args(config.clone()), ParsedArgs::Run { config: config.clone() });
    assert_eq!(Subcommand::InstallService.into_args(config.clone()), ParsedArgs::InstallService);
    assert_eq!(Subcommand::RunService.into_args(config.clone()), ParsedArgs::RunService);
    assert_eq!(Subcommand::UninstallService.into_args(config), ParsedArgs::UninstallService);
}

#[test]
fn front_ends_that_the_build_holds_are_started() {
    assert_eq!(run(true), Frontend::Gui);
    assert_eq!(run_service(true), Frontend::Service);
}

#[test]
fn help_wins_over_everything() {
    for version in [false, true] {
        for word in [Ok(None), Ok(Some("run".to_string())), Ok(Some("bogus".to_string())), Err("bad".to_string())] {
            assert_eq!(select(true, version, word), Ok(Selection::Help));
        }
    }
}

#[test]
fn version_wins_over_a_subcommand() {
    for word in [Ok(None), Ok(Some("run".to_string())), Ok(Some("bogus".to_string())), Err("bad".to_string())] {
        assert_eq!(select(false, true, word), Ok(Selection::Version));
    }
}

#[test]
fn a_missing_subcommand_means_gui() {
    assert_eq!(select(false, false, Ok(None)), Ok(Selection::Command(Subcommand::Gui)));
}

#[test]
fn the_first_free_word_names_the_subcommand() {
    assert_eq!(
        select(false, false, Ok(Some("RUN".to_string()))),
        Ok(Selection::Command(Subcommand::Run))
    );
    assert_eq!(
        select(false, false, Ok(Some("uninstall-service".to_string()))),
        Ok(Selection::Command(Subcommand::UninstallService))
    );
    assert_eq!(
        select(false, false, Ok(Some("Upload".to_string()))),
        Err("unrecognized subcommand: upload".to_string())
    );
}

#[test]
fn a_word_that_cannot_be_read_is_an_error() {
    assert_eq!(
        select(false, false, Err("argument is not a UTF-8 string".to_string())),
        Err("unable to extract subcommand: argument is not a UTF-8 string".to_string())
    );
}

#[test]
fn selections_become_parsed_arguments() {
    let config = "/etc/rakaly/config.toml".to_string();
    assert!(!Selection::Help.needs_config());
    assert!(!Selection::Version.needs_config());
    assert!(Selection::Command(Subcommand::Gui).needs_config());
    assert!(Selection::Command(Subcommand::Run).needs_config());
    assert!(!Selection::Command(Subcommand::RunService).needs_config());
    assert_eq!(Selection::Help.into_args(config.clone()), ParsedArgs::Help);
    assert_eq!(Selection::Version.into_args(config.clone()), ParsedArgs::Version);
    assert_eq!(
        Selection::Command(Subcommand::Run).into_args(config.clone()),
        ParsedArgs::Run { config: config.clone() }
    );
    assert_eq!(
        Selection::Command(Subcommand::InstallService).into_args(config),
        ParsedArgs::InstallService
    );
}
