//! The refresh of the two lists, as a machine that is told what happened
//! and answers with what to do next. It fetches nothing and writes
//! nothing itself: its caller does, and reports back.
//!
//! The lists are refreshed one after the other, domains first. Each is
//! fetched, held to its grammar, written to its temporary file and
//! renamed onto its installed file. The first failure ends the refresh.

use crate::kind::{
    final_path_of, lemma_temp_is_not_final, temp_path_of, url_of, FileType, InstallTarget,
};
use crate::text::lines;
use crate::validate::{first_rejected, validate, NoTrackingError};
use vstd::prelude::*;
use vstd::string::StringExecFns;

verus! {

/// What the refresh waits for.
#[derive(Clone, Copy, Debug, PartialEq, Eq, Structural)]
pub enum Stage {
    /// The text of the list, from its address.
    Fetching(FileType),
    /// The temporary file of the list, written and flushed.
    Writing(FileType),
    /// The rename of the temporary file onto the installed file.
    Renaming(FileType),
    /// Nothing: both lists are installed.
    Finished,
    /// Nothing: the refresh has failed.
    Failed,
}

/// What the caller reports.
#[derive(Debug)]
pub enum RefreshEvent {
    /// The list was fetched; this is its text.
    Fetched(String),
    /// The temporary file holds the text and is flushed.
    Written,
    /// The temporary file was renamed onto the installed file.
    Renamed,
    /// What was asked for could not be done; this says why.
    Failed(String),
}

/// Why a refresh ended early.
#[derive(Debug)]
pub enum RefreshError {
    /// The list could not be fetched from `url`.
    Network { url: String, detail: String },
    /// The fetched list holds a line that it may not hold.
    Validation(NoTrackingError),
    /// The file at `path` could not be written, or not be renamed to.
    Install { path: String, detail: String },
    /// The caller reported what the refresh did not wait for.
    OutOfTurn,
}

/// What the caller is to do next.
#[derive(Debug)]
pub enum RefreshAction {
    /// Log `notice`, then fetch the text at `url`.
    Fetch { url: String, notice: String },
    /// Create or empty the file at `path`, write `content` to it, flush.
    Write { path: String, content: String },
    /// Rename the file at `from` to `to`, and log `notice` when that is
    /// done.
    Rename { from: String, to: String, notice: String },
    /// Nothing more: both lists are installed.
    Finish,
    /// Nothing more: the refresh has failed.
    Abort(RefreshError),
}

/// A `RefreshEvent` as the contracts see it.
pub enum EventView {
    Fetched(Seq<char>),
    Written,
    Renamed,
    Failed(Seq<char>),
}

/// A `RefreshError` as the contracts see it.
pub enum ErrorView {
    Network { url: Seq<char>, detail: Seq<char> },
    Validation { kind: FileType, line: Seq<char> },
    Install { path: Seq<char>, detail: Seq<char> },
    OutOfTurn,
}

/// A `RefreshAction` as the contracts see it.
pub enum ActionView {
    Fetch { url: Seq<char>, notice: Seq<char> },
    Write { path: Seq<char>, content: Seq<char> },
    Rename { from: Seq<char>, to: Seq<char>, notice: Seq<char> },
    Finish,
    Abort(ErrorView),
}

impl View for RefreshEvent {
    type V = EventView;

    open spec fn view(&self) -> EventView {
        match self {
            RefreshEvent::Fetched(text) => EventView::Fetched(text@),
            RefreshEvent::Written => EventView::Written,
            RefreshEvent::Renamed => EventView::Renamed,
            RefreshEvent::Failed(detail) => EventView::Failed(detail@),
        }
    }
}

impl View for RefreshError {
    type V = ErrorView;

    open spec fn view(&self) -> ErrorView {
        match self {
            RefreshError::Network { url, detail } => ErrorView::Network {
                url: url@,
                detail: detail@,
            },
            RefreshError::Validation(e) => ErrorView::Validation { kind: e.kind(), line: e.line() },
            RefreshError::Install { path, detail } => ErrorView::Install {
                path: path@,
                detail: detail@,
            },
            RefreshError::OutOfTurn => ErrorView::OutOfTurn,
        }
    }
}

impl ErrorView {
    /// The error in words.
    pub open spec fn message_text(self) -> Seq<char> {
        match self {
            ErrorView::Network { url, detail } => "failed to get "@ + url + ": "@ + detail,
            ErrorView::Validation { kind, line } => match kind {
                FileType::Domains => "invalid domain line: `"@ + line + "`"@,
                FileType::Hostnames => "invalid hostname line: `"@ + line + "`"@,
            },
            ErrorView::Install { path, detail } => "failed to install "@ + path + ": "@ + detail,
            ErrorView::OutOfTurn => "refresh was told of a step it did not ask for"@,
        }
    }
}

impl RefreshError {
    /// The error in words.
    pub fn message(&self) -> (m: String)
        ensures
            m@ == self@.message_text(),
    {
        match self {
            RefreshError::Network { url, detail } => {
                let mut m = String::from_str("failed to get ");
                m.append(url.as_str());
                m.append(": ");
                m.append(detail.as_str());
                m
            },
            RefreshError::Validation(e) => e.message(),
            RefreshError::Install { path, detail } => {
                let mut m = String::from_str("failed to install ");
                m.append(path.as_str());
                m.append(": ");
                m.append(detail.as_str());
                m
            },
            RefreshError::OutOfTurn => String::from_str(
                "refresh was told of a step it did not ask for",
            ),
        }
    }
}

/// The line logged before a list is fetched: its name and its address.
pub open spec fn fetch_notice_text(ftype: FileType) -> Seq<char> {
    "getting "@ + ftype.name() + " at "@ + url_of(ftype)
}

/// The line logged when a list is installed in `dir`: its name and its
/// installed file.
pub open spec fn installed_notice_text(dir: Seq<char>, ftype: FileType) -> Seq<char> {
    "installed "@ + ftype.name() + " to "@ + final_path_of(dir, ftype)
}

/// The line logged before a list is fetched.
pub fn fetch_notice(ftype: FileType) -> (m: String)
    ensures
        m@ == fetch_notice_text(ftype),
{
    let mut m = String::from_str("getting ");
    m.append(ftype.as_str());
    m.append(" at ");
    m.append(ftype.url().as_str());
    m
}

/// The line logged when a list is installed in `dir`.
pub fn installed_notice(dir: &str, ftype: FileType) -> (m: String)
    ensures
        m@ == installed_notice_text(dir@, ftype),
{
    let mut m = String::from_str("installed ");
    m.append(ftype.as_str());
    m.append(" to ");
    m.append(InstallTarget::new(dir, ftype).final_path.as_str());
    m
}

impl View for RefreshAction {
    type V = ActionView;

    open spec fn view(&self) -> ActionView {
        match self {
            RefreshAction::Fetch { url, notice } => ActionView::Fetch {
                url: url@,
                notice: notice@,
            },
            RefreshAction::Write { path, content } => ActionView::Write {
                path: path@,
                content: content@,
            },
            RefreshAction::Rename { from, to, notice } => ActionView::Rename {
                from: from@,
                to: to@,
                notice: notice@,
            },
            RefreshAction::Finish => ActionView::Finish,
            RefreshAction::Abort(e) => ActionView::Abort(e@),
        }
    }
}

/// The request to fetch a list.
pub open spec fn fetch_of(ftype: FileType) -> ActionView {
    ActionView::Fetch { url: url_of(ftype), notice: fetch_notice_text(ftype) }
}

/// The request to move the temporary file of a list onto its installed
/// file.
pub open spec fn rename_of(dir: Seq<char>, ftype: FileType) -> ActionView {
    ActionView::Rename {
        from: temp_path_of(dir, ftype),
        to: final_path_of(dir, ftype),
        notice: installed_notice_text(dir, ftype),
    }
}

/// What follows the installation of a list: the fetch of the next one,
/// or the end.
pub open spec fn after_install(ftype: FileType) -> (Stage, ActionView) {
    match ftype {
        FileType::Domains => (Stage::Fetching(FileType::Hostnames), fetch_of(FileType::Hostnames)),
        FileType::Hostnames => (Stage::Finished, ActionView::Finish),
    }
}

/// The stage that follows `stage` when `event` is reported, and what is
/// asked of the caller then. `dir` is the directory of the lists.
pub open spec fn next(dir: Seq<char>, stage: Stage, event: EventView) -> (Stage, ActionView) {
    match (stage, event) {
        (Stage::Fetching(k), EventView::Fetched(text)) => match first_rejected(k, lines(text)) {
            None => (
                Stage::Writing(k),
                ActionView::Write { path: temp_path_of(dir, k), content: text },
            ),
            Some(line) => (
                Stage::Failed,
                ActionView::Abort(ErrorView::Validation { kind: k, line }),
            ),
        },
        (Stage::Fetching(k), EventView::Failed(detail)) => (
            Stage::Failed,
            ActionView::Abort(ErrorView::Network { url: url_of(k), detail }),
        ),
        (Stage::Writing(k), EventView::Written) => (Stage::Renaming(k), rename_of(dir, k)),
        (Stage::Writing(k), EventView::Failed(detail)) => (
            Stage::Failed,
            ActionView::Abort(ErrorView::Install { path: temp_path_of(dir, k), detail }),
        ),
        (Stage::Renaming(k), EventView::Renamed) => after_install(k),
        (Stage::Renaming(k), EventView::Failed(detail)) => (
            Stage::Failed,
            ActionView::Abort(ErrorView::Install { path: final_path_of(dir, k), detail }),
        ),
        (Stage::Finished, _) => (Stage::Finished, ActionView::Abort(ErrorView::OutOfTurn)),
        _ => (Stage::Failed, ActionView::Abort(ErrorView::OutOfTurn)),
    }
}

/// A refresh of the lists in one directory.
#[derive(Debug)]
pub struct Refresh {
    dir: String,
    stage: Stage,
}

impl Refresh {
    /// The directory of the lists.
    pub closed spec fn dir(&self) -> Seq<char> {
        self.dir@
    }

    /// What the refresh waits for.
    pub closed spec fn spec_stage(&self) -> Stage {
        self.stage
    }

    /// What the refresh waits for.
    #[verifier::when_used_as_spec(spec_stage)]
    pub fn stage(&self) -> (stage: Stage)
        ensures
            stage == self.spec_stage(),
    {
        self.stage
    }

    /// A refresh of the lists in `dir`, and its first request: to fetch
    /// the domains list.
    pub fn new(dir: &str) -> (r: (Refresh, RefreshAction))
        ensures
            r.0.dir() == dir@,
            r.0.stage() == Stage::Fetching(FileType::Domains),
            r.1@ == fetch_of(FileType::Domains),
    {
        let refresh = Refresh { dir: dir.to_owned(), stage: Stage::Fetching(FileType::Domains) };
        (refresh, fetch(FileType::Domains))
    }

    /// Takes the report of what was asked for last, and asks for the next
    /// thing.
    pub fn step(&mut self, event: RefreshEvent) -> (action: RefreshAction)
        ensures
            final(self).dir() == old(self).dir(),
            (final(self).stage(), action@) == next(old(self).dir(), old(self).stage(), event@),
    {
        let (stage, action) = match (self.stage, event) {
            (Stage::Fetching(k), RefreshEvent::Fetched(text)) => match validate(k, text.as_str()) {
                Ok(()) => {
                    let target = InstallTarget::new(self.dir.as_str(), k);
                    (Stage::Writing(k), RefreshAction::Write { path: target.temp_path, content: text })
                },
                Err(e) => (Stage::Failed, RefreshAction::Abort(RefreshError::Validation(e))),
            },
            (Stage::Fetching(k), RefreshEvent::Failed(detail)) => (
                Stage::Failed,
                RefreshAction::Abort(RefreshError::Network { url: k.url(), detail }),
            ),
            (Stage::Writing(k), RefreshEvent::Written) => {
                let target = InstallTarget::new(self.dir.as_str(), k);
                (
                    Stage::Renaming(k),
                    RefreshAction::Rename {
                        from: target.temp_path,
                        to: target.final_path,
                        notice: installed_notice(self.dir.as_str(), k),
                    },
                )
            },
            (Stage::Writing(k), RefreshEvent::Failed(detail)) => {
                let target = InstallTarget::new(self.dir.as_str(), k);
                (
                    Stage::Failed,
                    RefreshAction::Abort(RefreshError::Install { path: target.temp_path, detail }),
                )
            },
            (Stage::Renaming(k), RefreshEvent::Renamed) => match k {
                FileType::Domains => (
                    Stage::Fetching(FileType::Hostnames),
                    fetch(FileType::Hostnames),
                ),
                FileType::Hostnames => (Stage::Finished, RefreshAction::Finish),
            },
            (Stage::Renaming(k), RefreshEvent::Failed(detail)) => {
                let target = InstallTarget::new(self.dir.as_str(), k);
                (
                    Stage::Failed,
                    RefreshAction::Abort(RefreshError::Install { path: target.final_path, detail }),
                )
            },
            (Stage::Finished, _) => (Stage::Finished, RefreshAction::Abort(RefreshError::OutOfTurn)),
            _ => (Stage::Failed, RefreshAction::Abort(RefreshError::OutOfTurn)),
        };
        self.stage = stage;
        action
    }
}

fn fetch(ftype: FileType) -> (action: RefreshAction)
    ensures
        action@ == fetch_of(ftype),
{
    RefreshAction::Fetch { url: ftype.url(), notice: fetch_notice(ftype) }
}

/// What a request does to the files of a file system, once carried out:
/// a write puts the content at its path, a rename moves the content of
/// one path to another, and nothing else touches a file.
pub open spec fn effect(action: ActionView, files: Map<Seq<char>, Seq<char>>) -> Map<
    Seq<char>,
    Seq<char>,
> {
    match action {
        ActionView::Write { path, content } => files.insert(path, content),
        ActionView::Rename { from, to, .. } => if files.dom().contains(from) {
            files.remove(from).insert(to, files[from])
        } else {
            files
        },
        _ => files,
    }
}

/// Only a list that was fetched and accepted is ever written, and it is
/// written to the temporary file of its kind.
pub proof fn lemma_only_accepted_lists_are_written(dir: Seq<char>, stage: Stage, event: EventView)
    ensures
        next(dir, stage, event).1 matches ActionView::Write { path, content } ==> exists|
            k: FileType,
        |
            stage == Stage::Fetching(k) && event == EventView::Fetched(content)
                && first_rejected(k, lines(content)) is None && path == temp_path_of(dir, k)
                && next(dir, stage, event).0 == Stage::Writing(k),
{
    if next(dir, stage, event).1 is Write {
        let k = stage->Fetching_0;
        assert(stage == Stage::Fetching(k));
    }
}

/// A rename is asked for only when the temporary file has been written,
/// and moves that file onto the installed file of the same list.
pub proof fn lemma_rename_follows_write(dir: Seq<char>, stage: Stage, event: EventView)
    ensures
        next(dir, stage, event).1 is Rename ==> exists|k: FileType|
            stage == Stage::Writing(k) && event == EventView::Written && next(dir, stage, event)
                == (Stage::Renaming(k), rename_of(dir, k)),
        next(dir, stage, event).0 matches Stage::Writing(k) ==> next(dir, stage, event).1 is Write,
{
    if next(dir, stage, event).1 is Rename {
        let k = stage->Writing_0;
        assert(stage == Stage::Writing(k));
    }
}

/// The first failure ends the refresh: it is answered with `Abort`, and
/// after it nothing is fetched, written or renamed, whatever is reported.
pub proof fn lemma_failure_ends_refresh(dir: Seq<char>, stage: Stage, event: EventView)
    ensures
        event is Failed ==> next(dir, stage, event).1 is Abort,
        next(dir, stage, event).1 is Abort ==> next(dir, stage, event).0 == Stage::Failed || stage
            == Stage::Finished,
        stage == Stage::Failed ==> next(dir, stage, event) == (
            Stage::Failed,
            ActionView::Abort(ErrorView::OutOfTurn),
        ),
        next(dir, stage, event).1 is Abort ==> forall|files: Map<Seq<char>, Seq<char>>|
            effect(next(dir, stage, event).1, files) == files,
{
}

/// The lists are installed in order: when the domains list is in place
/// the hostnames list is fetched, and when that is in place the refresh
/// is finished. `Finish` is reached in no other way.
pub proof fn lemma_lists_in_order(dir: Seq<char>, stage: Stage, event: EventView)
    ensures
        next(dir, Stage::Renaming(FileType::Domains), EventView::Renamed) == (
            Stage::Fetching(FileType::Hostnames),
            fetch_of(FileType::Hostnames),
        ),
        next(dir, Stage::Renaming(FileType::Hostnames), EventView::Renamed) == (
            Stage::Finished,
            ActionView::Finish,
        ),
        next(dir, stage, event).1 is Finish ==> stage == Stage::Renaming(FileType::Hostnames)
            && event == EventView::Renamed,
{
}

/// Installing an accepted list: once the write and the rename that the
/// refresh asks for are carried out, the installed file holds the text as
/// it was fetched, the temporary file is gone, and every other file is as
/// it was.
pub proof fn lemma_install_is_whole(
    dir: Seq<char>,
    ftype: FileType,
    text: Seq<char>,
    files: Map<Seq<char>, Seq<char>>,
)
    requires
        first_rejected(ftype, lines(text)) is None,
    ensures
        ({
            let (writing, write) = next(dir, Stage::Fetching(ftype), EventView::Fetched(text));
            let (renaming, rename) = next(dir, writing, EventView::Written);
            let after = effect(rename, effect(write, files));
            let final_path = final_path_of(dir, ftype);
            let temp_path = temp_path_of(dir, ftype);
            &&& write == (ActionView::Write { path: temp_path, content: text })
            &&& rename == rename_of(dir, ftype)
            &&& renaming == Stage::Renaming(ftype)
            &&& after.dom().contains(final_path)
            &&& after[final_path] == text
            &&& !after.dom().contains(temp_path)
            &&& forall|path: Seq<char>|
                path != final_path && path != temp_path ==> after.dom().contains(path)
                    == files.dom().contains(path) && after[path] == files[path]
        }),
{
    lemma_temp_is_not_final(dir, ftype);
}

/// A list that is refused is never written: the refresh fails with the
/// refused line, and no file is touched then or later, so that what was
/// installed before stays as it was.
pub proof fn lemma_refused_list_changes_nothing(
    dir: Seq<char>,
    ftype: FileType,
    text: Seq<char>,
    files: Map<Seq<char>, Seq<char>>,
)
    requires
        first_rejected(ftype, lines(text)) is Some,
    ensures
        ({
            let (stage, action) = next(dir, Stage::Fetching(ftype), EventView::Fetched(text));
            &&& stage == Stage::Failed
            &&& action == ActionView::Abort(
                ErrorView::Validation {
                    kind: ftype,
                    line: first_rejected(ftype, lines(text))->0,
                },
            )
            &&& effect(action, files) == files
            &&& forall|event: EventView| #[trigger]
                effect(next(dir, stage, event).1, files) == files
        }),
{
}

} // verus!
