use iced_style_config::error::{Error, ErrorKind};
use iced_style_config::reloadable::{ChangeKind, Plan, ReloadEvent};
use iced_style_config::{ReloadableTheme, Theme};

const FIRST: &str = "[text.default]\nsize = 11\n";
const SECOND: &str = "[text.default]\nsize = 22\n";

fn bytes(s: &str) -> Result<Vec<u8>, String> {
    Ok(s.as_bytes().to_vec())
}

fn watching(path: &str, doc: &str) -> ReloadableTheme {
    let mut theme = ReloadableTheme::from_file(path, bytes(doc)).unwrap();
    assert_eq!(theme.commit(Ok(())), Ok(None));
    theme
}

#[test]
fn a_theme_of_text_follows_no_file() {
    let theme = ReloadableTheme::from_str(FIRST).unwrap();
    assert_eq!(theme.path(), None);
    assert_eq!(theme.theme().text().get_default().size, Some(11));
    assert!(ReloadableTheme::from_str("x = ").is_err());
    assert_eq!(ReloadableTheme::default().path(), None);
    assert_eq!(ReloadableTheme::default().theme().text().get_default().size, None);
    let theme = ReloadableTheme::from_theme(Theme::from_str(SECOND).unwrap());
    assert_eq!(theme.path(), None);
    assert_eq!(theme.theme().text().get_default().size, Some(22));
}

#[test]
fn a_theme_of_a_file_follows_it_once_it_is_watched() {
    let mut theme = ReloadableTheme::from_file("themes/a.toml", bytes(FIRST)).unwrap();
    assert_eq!(theme.path(), None);
    assert_eq!(theme.theme().text().get_default().size, None);
    assert_eq!(theme.commit(Ok(())), Ok(None));
    assert_eq!(theme.path(), Some("themes/a.toml"));
    assert_eq!(theme.theme().text().get_default().size, Some(11));
}

#[test]
fn a_file_that_is_unreadable_or_malformed_gives_no_theme() {
    let e = ReloadableTheme::from_file("a.toml", Err("denied".to_string())).unwrap_err();
    assert_eq!(e, Error::Io("denied".to_string()));
    let e = ReloadableTheme::from_file("a.toml", bytes("[text")).unwrap_err();
    assert_eq!(e.kind(), ErrorKind::Format);
}

#[test]
fn the_same_path_is_not_read_again() {
    let mut theme = watching("themes/a.toml", FIRST);
    assert_eq!(theme.plan("themes/a.toml"), Plan::Keep);
    assert_eq!(theme.plan("themes/a.toml"), Plan::Keep);
    assert_eq!(theme.plan("themes/b.toml"), Plan::Load);

    theme.stage("themes/b.toml", bytes(SECOND)).unwrap();
    assert_eq!(theme.commit(Ok(())), Ok(Some("themes/a.toml".to_string())));
    assert_eq!(theme.plan("themes/b.toml"), Plan::Keep);
    assert_eq!(theme.plan("themes/a.toml"), Plan::Load);
}

#[test]
fn two_spellings_of_one_path_are_one_path() {
    let theme = watching("themes/a.toml", FIRST);
    assert_eq!(theme.plan("themes//a.toml"), Plan::Keep);
    assert_eq!(theme.plan("themes/./a.toml"), Plan::Keep);
    assert_eq!(theme.plan("themes/a.toml/"), Plan::Keep);
    assert_eq!(theme.plan("Themes/a.toml"), Plan::Load);
    assert_eq!(theme.plan("./themes/a.toml"), Plan::Load);
    assert_eq!(theme.plan("/themes/a.toml"), Plan::Load);
}

#[test]
fn a_static_theme_reads_any_path() {
    let theme = ReloadableTheme::from_str(FIRST).unwrap();
    assert_eq!(theme.plan("themes/a.toml"), Plan::Load);
    assert_eq!(theme.plan(""), Plan::Load);
}

#[test]
fn a_new_path_takes_over_once_it_is_watched() {
    let mut theme = watching("a.toml", FIRST);
    theme.stage("b.toml", bytes(SECOND)).unwrap();
    assert_eq!(theme.path(), Some("a.toml"));
    assert_eq!(theme.theme().text().get_default().size, Some(11));
    assert_eq!(theme.commit(Ok(())), Ok(Some("a.toml".to_string())));
    assert_eq!(theme.path(), Some("b.toml"));
    assert_eq!(theme.theme().text().get_default().size, Some(22));
    assert_eq!(theme.commit(Ok(())), Ok(None));
    assert_eq!(theme.path(), Some("b.toml"));
}

#[test]
fn a_new_path_that_does_not_parse_changes_nothing() {
    let mut theme = watching("a.toml", FIRST);
    let e = theme.stage("b.toml", bytes("[text.default]\nsize = \"big\"\n")).unwrap_err();
    assert_eq!(e, Error::Shape);
    assert_eq!(theme.commit(Ok(())), Ok(None));
    assert_eq!(theme.path(), Some("a.toml"));
    assert_eq!(theme.theme().text().get_default().size, Some(11));
    let e = theme.stage("c.toml", Err("gone".to_string())).unwrap_err();
    assert_eq!(e.kind(), ErrorKind::Io);
    assert_eq!(theme.path(), Some("a.toml"));
}

#[test]
fn a_new_path_that_cannot_be_watched_changes_nothing() {
    let mut theme = watching("a.toml", FIRST);
    theme.stage("b.toml", bytes(SECOND)).unwrap();
    let e = theme.commit(Err("no such path".to_string())).unwrap_err();
    assert_eq!(e, Error::Watch("no such path".to_string()));
    assert_eq!(e.kind(), ErrorKind::Watch);
    assert_eq!(e.message(), "no such path");
    assert_eq!(theme.path(), Some("a.toml"));
    assert_eq!(theme.theme().text().get_default().size, Some(11));
    assert_eq!(theme.commit(Ok(())), Ok(None));
    assert_eq!(theme.path(), Some("a.toml"));
}

#[test]
fn a_failed_attempt_forgets_what_was_put_by() {
    let mut theme = watching("a.toml", FIRST);
    theme.stage("b.toml", bytes(SECOND)).unwrap();
    assert!(theme.stage("c.toml", bytes("[")).is_err());
    assert_eq!(theme.commit(Ok(())), Ok(None));
    assert_eq!(theme.path(), Some("a.toml"));
}

#[test]
fn reload_takes_the_new_content() {
    let mut theme = watching("a.toml", FIRST);
    assert_eq!(theme.reload(bytes(SECOND)), Ok(()));
    assert_eq!(theme.theme().text().get_default().size, Some(22));
    assert_eq!(theme.path(), Some("a.toml"));
}

#[test]
fn reload_of_invalid_text_keeps_the_theme() {
    let doc = r##"
[color]
ink = ["0x01", "0x02", "0x03"]

[text.default]
size = 11
color = "ink"

[button.wide]
width = "fill"
"##;
    let mut theme = watching("a.toml", doc);
    let before_text = *theme.theme().text().get_default();
    let before_button = *theme.theme().button().get("wide").unwrap();
    let before_ink = *theme.theme().color().get("ink").unwrap();

    let e = theme.reload(bytes("[text.default\nsize = ")).unwrap_err();
    assert_eq!(e.kind(), ErrorKind::Format);
    assert!(matches!(e, Error::Syntax(_)));

    assert_eq!(*theme.theme().text().get_default(), before_text);
    assert_eq!(*theme.theme().button().get("wide").unwrap(), before_button);
    assert_eq!(*theme.theme().color().get("ink").unwrap(), before_ink);
    assert_eq!(theme.path(), Some("a.toml"));
}

#[test]
fn reload_of_an_unreadable_or_unfit_file_keeps_the_theme() {
    let mut theme = watching("a.toml", FIRST);
    let e = theme.reload(Err("gone".to_string())).unwrap_err();
    assert_eq!(e.kind(), ErrorKind::Io);
    assert_eq!(theme.theme().text().get_default().size, Some(11));
    let e = theme.reload(bytes("[text.default]\ncolor = \"nothing\"\n")).unwrap_err();
    assert_eq!(e.kind(), ErrorKind::Color);
    assert_eq!(theme.theme().text().get_default().size, Some(11));
}

#[test]
fn reload_of_a_static_theme_does_nothing() {
    let mut theme = ReloadableTheme::from_str(FIRST).unwrap();
    assert_eq!(theme.reload(bytes(SECOND)), Ok(()));
    assert_eq!(theme.theme().text().get_default().size, Some(11));
    assert_eq!(theme.reload(Err("gone".to_string())), Ok(()));
    assert_eq!(theme.reload(bytes("[")), Ok(()));
}

#[test]
fn only_new_and_changed_files_are_worth_a_reload() {
    assert!(ChangeKind::Create.is_reload());
    assert!(ChangeKind::Modify.is_reload());
    assert!(!ChangeKind::Any.is_reload());
    assert!(!ChangeKind::Access.is_reload());
    assert!(!ChangeKind::Remove.is_reload());
    assert!(!ChangeKind::Other.is_reload());
}

#[test]
fn a_watching_theme_passes_on_what_is_worth_a_reload() {
    let theme = watching("a.toml", FIRST);
    assert!(theme.notice(ChangeKind::Create).is_some());
    assert!(theme.notice(ChangeKind::Modify).is_some());
    assert_eq!(theme.notice(ChangeKind::Remove), None);
    assert_eq!(theme.notice(ChangeKind::Access), None);
    assert_eq!(theme.notice(ChangeKind::Any), None);
    assert_eq!(theme.notice(ChangeKind::Other), None);
}

#[test]
fn a_static_theme_passes_nothing_on() {
    let theme = ReloadableTheme::from_str(FIRST).unwrap();
    for kind in [
        ChangeKind::Any,
        ChangeKind::Access,
        ChangeKind::Create,
        ChangeKind::Modify,
        ChangeKind::Remove,
        ChangeKind::Other,
    ] {
        assert_eq!(theme.notice(kind), None);
    }
    let staged = ReloadableTheme::from_file("a.toml", bytes(FIRST)).unwrap();
    let event: Option<ReloadEvent> = staged.notice(ChangeKind::Modify);
    assert_eq!(event, None);
}

#[test]
fn an_event_is_made_of_a_change_that_is_worth_one() {
    assert!(ReloadEvent::of(ChangeKind::Create).is_some());
    assert!(ReloadEvent::of(ChangeKind::Modify).is_some());
    assert!(ReloadEvent::of(ChangeKind::Remove).is_none());
    assert!(ReloadEvent::of(ChangeKind::Access).is_none());
    assert!(ReloadEvent::of(ChangeKind::Any).is_none());
    assert!(ReloadEvent::of(ChangeKind::Other).is_none());
}

#[test]
fn text_parses_to_a_theme_that_follows_no_file() {
    let theme: ReloadableTheme = FIRST.parse().unwrap();
    assert_eq!(theme.path(), None);
    assert_eq!(theme.theme().text().get_default().size, Some(11));
    assert!("[".parse::<ReloadableTheme>().is_err());
}

#[test]
fn a_theme_turns_into_one_that_follows_no_file() {
    let theme: ReloadableTheme = Theme::from_str(SECOND).unwrap().into();
    assert_eq!(theme.path(), None);
    assert_eq!(theme.plan("a.toml"), Plan::Load);
    assert_eq!(theme.text().get_default().size, Some(22));
    assert_eq!(theme.text().size, Some(22));
}

#[test]
fn a_report_of_a_failed_watcher_is_worth_no_event() {
    assert!(ReloadEvent::of_report(None).is_none());
    assert!(ReloadEvent::of_report(Some(ChangeKind::Modify)).is_some());
    assert!(ReloadEvent::of_report(Some(ChangeKind::Create)).is_some());
    assert!(ReloadEvent::of_report(Some(ChangeKind::Remove)).is_none());
    assert!(ReloadEvent::of_report(Some(ChangeKind::Other)).is_none());
}
