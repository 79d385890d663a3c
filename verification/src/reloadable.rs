//! A theme that follows a file.
//!
//! The library neither reads files nor watches them. It decides: when a file is to be read,
//! what the bytes that came back make of the theme, which path is watched next and which is
//! let go, and which changes of the file are worth a reload. The host carries the decisions
//! out and reports what happened.

use crate::error::{Error, Fault};
use crate::theme::{content_model, loaded, Theme, ThemeModel};
use vstd::prelude::*;
use vstd::string::StringSliceAdditionalSpecFns;

verus! {

/// The signal that the watched file has changed and the theme should be read again.
#[derive(Clone, Copy, Debug, PartialEq, Eq)]
#[non_exhaustive]
pub struct ReloadEvent;

/// What the file system reports of a watched file.
#[derive(Clone, Copy, Debug, PartialEq, Eq)]
pub enum ChangeKind {
    /// Something unknown.
    Any,
    /// The file was opened, read or closed.
    Access,
    /// The file came into being.
    Create,
    /// The file or its metadata changed, or it was renamed.
    Modify,
    /// The file went away.
    Remove,
    /// Anything else.
    Other,
}

impl ChangeKind {
    /// Whether a change of this kind is worth a reload: a new file, or a changed one.
    pub open spec fn reloads(self) -> bool {
        self is Create || self is Modify
    }

    /// Whether a change of this kind is worth a reload.
    pub fn is_reload(&self) -> (r: bool)
        ensures
            r == self.reloads(),
    {
        match self {
            ChangeKind::Create | ChangeKind::Modify => true,
            _ => false,
        }
    }
}

impl ReloadEvent {
    /// The event for a change of a watched file, if the change is worth one.
    pub fn of(kind: ChangeKind) -> (r: Option<ReloadEvent>)
        ensures
            r is Some == kind.reloads(),
    {
        if kind.is_reload() {
            Some(ReloadEvent)
        } else {
            None
        }
    }

    /// The event for a report of the watcher, if the report is worth one: a report of a
    /// change that is, and a report that the watcher itself failed never.
    pub fn of_report(report: Option<ChangeKind>) -> (r: Option<ReloadEvent>)
        ensures
            r is Some == (report matches Some(kind) && kind.reloads()),
    {
        match report {
            Some(kind) => ReloadEvent::of(kind),
            None => None,
        }
    }
}

/// What is to be done when a path is asked for.
#[derive(Clone, Copy, Debug, PartialEq, Eq)]
pub enum Plan {
    /// The path is the one that is watched: nothing is read.
    Keep,
    /// The file at the path is to be read.
    Load,
}

/// Whether `std::path::Path` takes two texts for different spellings of one path.
pub uninterp spec fn same_location(a: Seq<char>, b: Seq<char>) -> bool;

/// Whether two texts are one path: the same text, or two spellings of one path.
pub open spec fn same_file(a: Seq<char>, b: Seq<char>) -> bool {
    a == b || same_location(a, b)
}

/// Compares two paths.
///
/// Trusted: `==` of `std::path::Path`, which compares two paths component by component. The
/// contract names its result, and says of it only that a path equals itself.
#[verifier::external_body]
fn same_path(a: &str, b: &str) -> (r: bool)
    ensures
        r == (a@ == b@ || same_location(a@, b@)),
{
    std::path::Path::new(a) == std::path::Path::new(b)
}

/// A theme that was read from a file and waits for its file to be watched.
#[derive(Debug)]
struct Staged {
    path: String,
    theme: Theme,
}

/// A theme, and the file that it follows if it follows one.
#[derive(Debug)]
pub struct ReloadableTheme {
    theme: Theme,
    path: Option<String>,
    staged: Option<Staged>,
}

/// The mathematical model of a [`ReloadableTheme`].
pub struct ReloadModel {
    /// The theme in force.
    pub theme: ThemeModel,
    /// The path that is watched, if one is.
    pub path: Option<Seq<char>>,
    /// The path and theme that take over once the path is watched.
    pub staged: Option<(Seq<char>, ThemeModel)>,
}

impl ReloadModel {
    /// What is to be done when `new_path` is asked for.
    pub open spec fn plan(self, new_path: Seq<char>) -> Plan {
        match self.path {
            Some(path) if same_file(path, new_path) => Plan::Keep,
            _ => Plan::Load,
        }
    }

    /// Whether a change of the given kind is passed on as a reload event: a watching theme
    /// passes on what is worth a reload, and a static one nothing.
    pub open spec fn notices(self, kind: ChangeKind) -> bool {
        self.path is Some && kind.reloads()
    }
}

impl View for ReloadableTheme {
    type V = ReloadModel;

    closed spec fn view(&self) -> ReloadModel {
        ReloadModel {
            theme: self.theme@,
            path: match self.path {
                Some(path) => Some(path@),
                None => None,
            },
            staged: match self.staged {
                Some(staged) => Some((staged.path@, staged.theme@)),
                None => None,
            },
        }
    }
}

impl ReloadableTheme {
    /// A theme that follows no file.
    pub fn from_theme(theme: Theme) -> (r: ReloadableTheme)
        ensures
            r@ == (ReloadModel { theme: theme@, path: None, staged: None }),
    {
        ReloadableTheme { theme, path: None, staged: None }
    }

    /// The theme of a document in TOML, which follows no file.
    pub fn from_str(s: &str) -> (r: Result<ReloadableTheme, Error>)
        ensures
            match r {
                Ok(this) => this@.path is None && this@.staged is None && loaded(
                    Ok(s.spec_bytes()),
                    Ok(this@.theme),
                ),
                Err(e) => loaded(Ok(s.spec_bytes()), Err(e@)),
            },
    {
        let theme = Theme::from_str(s)?;
        Ok(ReloadableTheme::from_theme(theme))
    }

    /// The theme of what the host read from the file at `path`, put by until the path is
    /// watched: the result follows no file before [`ReloadableTheme::commit`] has taken in
    /// that the host watches the path. Until then the theme of a document that says nothing
    /// is in force.
    pub fn from_file(path: &str, content: Result<Vec<u8>, String>) -> (r: Result<
        ReloadableTheme,
        Error,
    >)
        ensures
            match r {
                Ok(this) => {
                    &&& this@.theme == ThemeModel::plain()
                    &&& this@.path is None
                    &&& this@.staged matches Some((staged_path, theme))
                    &&& staged_path == path@
                    &&& loaded(content_model(content), Ok(theme))
                },
                Err(e) => loaded(content_model(content), Err(e@)),
            },
    {
        let mut this = ReloadableTheme::from_theme(Theme::default());
        this.stage(path, content)?;
        Ok(this)
    }

    /// The theme in force.
    pub fn theme(&self) -> (r: &Theme)
        ensures
            r@ == self@.theme,
    {
        &self.theme
    }

    /// The path that is watched, if one is.
    pub fn path(&self) -> (r: Option<&str>)
        ensures
            match r {
                Some(path) => self@.path == Some(path@),
                None => self@.path is None,
            },
    {
        match &self.path {
            Some(path) => Some(path.as_str()),
            None => None,
        }
    }

    /// What is to be done when `new_path` is asked for: nothing if it is the path that is
    /// watched, and else its file is to be read.
    pub fn plan(&self, new_path: &str) -> (r: Plan)
        ensures
            r == self@.plan(new_path@),
    {
        match &self.path {
            Some(path) => {
                if same_path(path.as_str(), new_path) {
                    Plan::Keep
                } else {
                    Plan::Load
                }
            },
            None => Plan::Load,
        }
    }

    /// Takes in what the host read from the file at `new_path`.
    ///
    /// Where the content writes a theme, the theme and the path are put by until the path
    /// is watched. Where it does not, nothing is put by. The theme in force and the watched
    /// path stay as they are in either case.
    pub fn stage(&mut self, new_path: &str, content: Result<Vec<u8>, String>) -> (r: Result<
        (),
        Error,
    >)
        ensures
            final(self)@.theme == old(self)@.theme,
            final(self)@.path == old(self)@.path,
            match r {
                Ok(()) => final(self)@.staged matches Some((path, theme)) && path == new_path@
                    && loaded(content_model(content), Ok(theme)),
                Err(e) => final(self)@.staged is None && loaded(content_model(content), Err(e@)),
            },
    {
        match Theme::from_file(content) {
            Ok(theme) => {
                self.staged = Some(Staged { path: new_path.to_owned(), theme });
                Ok(())
            },
            Err(e) => {
                self.staged = None;
                Err(e)
            },
        }
    }

    /// Takes in whether the host could watch the path that was put by.
    ///
    /// Where it could, the theme and the path that were put by come into force, and the
    /// result is the path that was watched before, which is now to be let go. Where it
    /// could not, the result is an error of watching and what is in force stays. Nothing is
    /// put by afterwards. Where nothing was put by, nothing happens.
    pub fn commit(&mut self, watching: Result<(), String>) -> (r: Result<Option<String>, Error>)
        ensures
            final(self)@.staged is None,
            match (old(self)@.staged, watching) {
                (Some((path, theme)), Ok(())) => {
                    &&& final(self)@.theme == theme
                    &&& final(self)@.path == Some(path)
                    &&& final(self)@.plan(path) == Plan::Keep
                    &&& r matches Ok(released)
                    &&& match released {
                        Some(p) => old(self)@.path == Some(p@),
                        None => old(self)@.path is None,
                    }
                },
                (Some(_), Err(message)) => {
                    &&& final(self)@.theme == old(self)@.theme
                    &&& final(self)@.path == old(self)@.path
                    &&& r matches Err(e)
                    &&& e@ == Fault::Watch(message@)
                },
                (None, _) => {
                    &&& final(self)@.theme == old(self)@.theme
                    &&& final(self)@.path == old(self)@.path
                    &&& r == Ok::<Option<String>, Error>(None)
                },
            },
    {
        let mut staged: Option<Staged> = None;
        std::mem::swap(&mut self.staged, &mut staged);
        match staged {
            None => Ok(None),
            Some(next) => match watching {
                Err(message) => Err(Error::Watch(message)),
                Ok(()) => {
                    let mut released = Some(next.path);
                    std::mem::swap(&mut self.path, &mut released);
                    self.theme = next.theme;
                    Ok(released)
                },
            },
        }
    }

    /// Takes in what the host read from the watched file when it read it again.
    ///
    /// Where the content writes a theme, that theme comes into force. Where it does not, the
    /// result is the fault and the theme in force stays as it is. A theme that follows no
    /// file stays as it is whatever the content.
    pub fn reload(&mut self, content: Result<Vec<u8>, String>) -> (r: Result<(), Error>)
        ensures
            final(self)@.path == old(self)@.path,
            final(self)@.staged == old(self)@.staged,
            match old(self)@.path {
                None => r is Ok && final(self)@.theme == old(self)@.theme,
                Some(_) => match r {
                    Ok(()) => loaded(content_model(content), Ok(final(self)@.theme)),
                    Err(e) => final(self)@.theme == old(self)@.theme && loaded(
                        content_model(content),
                        Err(e@),
                    ),
                },
            },
    {
        if self.path.is_none() {
            return Ok(());
        }
        match Theme::from_file(content) {
            Ok(theme) => {
                self.theme = theme;
                Ok(())
            },
            Err(e) => Err(e),
        }
    }

    /// The event to pass on for a change of the watched file, if the change is worth one.
    pub fn notice(&self, kind: ChangeKind) -> (r: Option<ReloadEvent>)
        ensures
            r is Some == self@.notices(kind),
    {
        if self.path.is_some() && kind.is_reload() {
            Some(ReloadEvent)
        } else {
            None
        }
    }
}

impl std::str::FromStr for ReloadableTheme {
    type Err = Error;

    /// The theme of a document in TOML, as [`ReloadableTheme::from_str`] makes it.
    fn from_str(s: &str) -> (r: Result<ReloadableTheme, Error>)
        ensures
            match r {
                Ok(this) => this@.path is None && this@.staged is None && loaded(
                    Ok(s.spec_bytes()),
                    Ok(this@.theme),
                ),
                Err(e) => loaded(Ok(s.spec_bytes()), Err(e@)),
            },
    {
        match Theme::from_bytes(s.as_bytes()) {
            Ok(theme) => Ok(ReloadableTheme::from_theme(theme)),
            Err(e) => Err(e),
        }
    }
}

/// The theme `theme` in force, with no file followed and nothing put by.
pub closed spec fn following_no_file(theme: Theme) -> ReloadableTheme {
    ReloadableTheme { theme, path: None, staged: None }
}

impl From<Theme> for ReloadableTheme {
    /// A theme that follows no file.
    fn from(theme: Theme) -> (r: ReloadableTheme) {
        ReloadableTheme { theme, path: None, staged: None }
    }
}

impl vstd::std_specs::convert::FromSpecImpl<Theme> for ReloadableTheme {
    open spec fn obeys_from_spec() -> bool {
        true
    }

    open spec fn from_spec(theme: Theme) -> ReloadableTheme {
        following_no_file(theme)
    }
}

/// A theme made of a theme follows no file and has that theme in force.
pub proof fn lemma_following_no_file(theme: Theme)
    ensures
        following_no_file(theme)@ == (ReloadModel { theme: theme@, path: None, staged: None }),
{
}

impl std::ops::Deref for ReloadableTheme {
    type Target = Theme;

    /// The theme in force.
    fn deref(&self) -> (r: &Theme)
        ensures
            r@ == self@.theme,
    {
        &self.theme
    }
}

impl Default for ReloadableTheme {
    /// The theme of a document that says nothing, which follows no file.
    fn default() -> (r: ReloadableTheme)
        ensures
            r@ == (ReloadModel { theme: ThemeModel::plain(), path: None, staged: None }),
    {
        ReloadableTheme::from_theme(Theme::default())
    }
}

/// Asking twice for one path reads its file once: once a path has come into force, the plan
/// for the same path is to keep what is there.
pub proof fn lemma_same_path_is_kept(model: ReloadModel, path: Seq<char>)
    requires
        model.path == Some(path),
    ensures
        model.plan(path) == Plan::Keep,
{
}

/// A theme that follows no file passes no change on.
pub proof fn lemma_static_never_notices(model: ReloadModel, kind: ChangeKind)
    requires
        model.path is None,
    ensures
        !model.notices(kind),
{
}

/// Of the changes of a watched file, exactly the new and the changed file are passed on.
pub proof fn lemma_watching_notices(model: ReloadModel, kind: ChangeKind)
    requires
        model.path is Some,
    ensures
        model.notices(kind) <==> (kind == ChangeKind::Create || kind == ChangeKind::Modify),
{
}

} // verus!
