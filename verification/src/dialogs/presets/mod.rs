//! Importing and exporting presets.
//!
//! Three windows and one prompt: the import chooser, the import summary, the export list and the
//! overwrite question. There is no embedded file browser — the owner runs a folder picker and
//! hands the answer back in [`ImportState::folder`] — and the overwrite prompt is asked **once**
//! for every colliding file, with dismissal cancelling the export outright.

pub mod export;
pub mod import;
pub mod summary;

use vstd::prelude::*;
use std::collections::BTreeSet;
use crate::dialogs::DialogResponse;
use crate::dialogs::message::ConfirmChoice;
use crate::text::{
    chars_of, decimal, decimal_chars, find_two, find_two_in, lemma_find_two_bounds, lemma_find_two_first,
    push_char, string_of,
};

verus! {

broadcast use {vstd::std_specs::btree::group_btree_axioms, vstd::laws_cmp::group_laws_cmp};

/// Something the user did in one of these windows.
#[derive(Debug, Clone, Copy, PartialEq, Eq, Structural)]
pub enum PresetsAction {
    /// Run a folder picker.
    ChooseImportFolder,
    /// Import every `.fac` in [`ImportState::folder`].
    Import,
    /// The notice box was acknowledged.
    DismissNotice,
    /// Close the import window — the ✕, Escape, or OK on the summary.
    CloseImport,
    /// Tick or untick one row of the export list.
    ToggleExport(usize),
    /// Export every ticked preset.
    Export,
    /// Answer the overwrite prompt.
    Overwrite(OverwriteChoice),
    /// Open the export folder in the user's file manager.
    RevealExportFolder,
    /// Close the export window.
    CloseExport,
}

/// How to resolve every colliding file at once.
#[derive(Debug, Clone, Copy, PartialEq, Eq, Hash, Structural)]
pub enum OverwriteChoice {
    /// Yes: overwrite each existing `.fac`.
    OverwriteAll,
    /// No: keep the existing files and export only the presets that do not collide.
    SkipAll,
    /// Dismissed: export nothing.
    Cancel,
}

/// `"Select the folder which contains the presets..."`.
pub const SELECT_FOLDER_LABEL: &'static str = "Select the folder which contains the presets...";
/// `"Preset files not found in the selected folder."`.
pub const NO_PRESETS_FOUND: &'static str = "Preset files not found in the selected folder.";
/// `"Presets successfully imported"`.
pub const IMPORTED_LABEL: &'static str = "Presets successfully imported";
/// `"Duplicate presets not imported"`.
pub const SKIPPED_LABEL: &'static str = "Duplicate presets not imported";
/// The extension the import looks for.
pub const PRESET_EXTENSION: &'static str = "fac";
/// `"Select the presets to export..."`.
pub const SELECT_PRESETS_LABEL: &'static str = "Select the presets to export...";
/// `"Presets are exported successfully!"`.
pub const EXPORT_SUCCEEDED: &'static str = "Presets are exported successfully!";
/// The per-file prompt. `%s` is the preset name.
pub const OVERWRITE_MESSAGE: &'static str =
    "Preset file %s already exists in the export path, do you want to overwrite the preset file?";
/// The batch form, asked once. `%s` is the number of colliding files.
pub const OVERWRITE_MESSAGE_PLURAL: &'static str =
    "%s preset files already exist in the export path, do you want to overwrite them?";

/// The names joined one per line, with no line ending after the last.
pub open spec fn join_lines(names: Seq<Seq<char>>) -> Seq<char>
    decreases names.len(),
{
    if names.len() == 0 {
        seq![]
    } else if names.len() == 1 {
        names[0]
    } else {
        join_lines(names.drop_last()).push('\n') + names.last()
    }
}

/// The texts of a list of strings.
pub open spec fn texts(v: Seq<String>) -> Seq<Seq<char>> {
    v.map_values(|s: String| s@)
}

fn join(names: &Vec<String>) -> (out: String)
    ensures
        out@ == join_lines(texts(names@)),
{
    let mut out = String::new();
    let ghost all = texts(names@);
    let mut i: usize = 0;
    while i < names.len()
        invariant
            i <= names@.len(),
            all == texts(names@),
            out@ == join_lines(all.take(i as int)),
        decreases names@.len() - i,
    {
        proof {
            assert(all.take(i + 1).drop_last() =~= all.take(i as int));
            assert(all[i as int] == names@[i as int]@);
        }
        if i > 0 {
            push_char(&mut out, '\n');
        }
        out.append(names[i].as_str());
        proof {
            if i == 0 {
                assert(out@ =~= all.take(1)[0]);
            }
        }
        i = i + 1;
    }
    proof {
        assert(all.take(names@.len() as int) =~= all);
    }
    out
}

/// What the import reported.
#[derive(Debug, Clone, PartialEq, Eq)]
pub struct ImportSummary {
    /// Names copied into the user preset directory.
    pub imported: Vec<String>,
    /// Names refused because a preset of that name already exists.
    pub skipped: Vec<String>,
}

impl ImportSummary {
    /// Nothing imported and nothing skipped.
    pub fn new() -> (s: Self)
        ensures
            s.imported@.len() == 0,
            s.skipped@.len() == 0,
    {
        ImportSummary { imported: Vec::new(), skipped: Vec::new() }
    }

    /// The imported names, one per line — joined, so there is no trailing blank line.
    pub fn imported_text(&self) -> (t: String)
        ensures
            t@ == join_lines(texts(self.imported@)),
    {
        join(&self.imported)
    }

    /// The skipped names, one per line.
    pub fn skipped_text(&self) -> (t: String)
        ensures
            t@ == join_lines(texts(self.skipped@)),
    {
        join(&self.skipped)
    }
}

impl Default for ImportSummary {
    fn default() -> (s: Self)
        ensures
            s.imported@.len() == 0,
            s.skipped@.len() == 0,
    {
        ImportSummary::new()
    }
}

/// Everything the import flow remembers between frames.
#[derive(Debug, Clone, PartialEq, Eq)]
pub struct ImportState {
    /// The folder the picker came back with, or `None` while nothing is chosen.
    pub folder: Option<String>,
    /// Set once the import has run; while it is `Some` the summary window is shown.
    pub summary: Option<ImportSummary>,
    /// A message box in front of the window.
    pub notice: Option<String>,
}

impl ImportState {
    /// Nothing chosen, nothing imported, no notice.
    pub fn new() -> (s: Self)
        ensures
            s.folder is None,
            s.summary is None,
            s.notice is None,
    {
        ImportState { folder: None, summary: None, notice: None }
    }

    /// `true` while the summary is showing.
    pub fn is_complete(&self) -> (b: bool)
        ensures
            b == self.summary is Some,
    {
        self.summary.is_some()
    }

    /// Import is only offered once a folder has been chosen.
    pub fn can_import(&self) -> (b: bool)
        ensures
            b == self.folder is Some,
    {
        self.folder.is_some()
    }
}

impl Default for ImportState {
    fn default() -> (s: Self)
        ensures
            s.folder is None,
            s.summary is None,
            s.notice is None,
    {
        ImportState::new()
    }
}

/// What the pointer and keyboard did to the import window in one frame.
#[derive(Debug, Clone, Copy, PartialEq, Eq, Default)]
pub struct ImportEvents {
    /// The ✕ of whichever window is showing.
    pub close_clicked: bool,
    /// "Choose folder…" on the chooser.
    pub choose_clicked: bool,
    /// Import on the chooser.
    pub import_clicked: bool,
    /// OK on the summary.
    pub ok_clicked: bool,
    /// The notice box in front of the window was answered.
    pub notice_answered: bool,
    /// Escape was pressed.
    pub escape_pressed: bool,
}

/// The actions one frame of the import window produces, in order.
pub open spec fn import_actions(state: ImportState, events: ImportEvents) -> Seq<PresetsAction> {
    let window = if state.summary is Some {
        (if events.close_clicked { seq![PresetsAction::CloseImport] } else { seq![] }) + (
        if events.ok_clicked { seq![PresetsAction::CloseImport] } else { seq![] })
    } else {
        (if events.close_clicked { seq![PresetsAction::CloseImport] } else { seq![] }) + (
        if events.choose_clicked { seq![PresetsAction::ChooseImportFolder] } else { seq![] })
            + (if events.import_clicked && state.folder is Some {
            seq![PresetsAction::Import]
        } else {
            seq![]
        })
    };
    let front = if state.notice is Some {
        if events.notice_answered { seq![PresetsAction::DismissNotice] } else { seq![] }
    } else {
        if events.escape_pressed { seq![PresetsAction::CloseImport] } else { seq![] }
    };
    window + front
}

/// The import window and its summary.
pub struct ImportDialog<'a> {
    state: &'a ImportState,
}

impl<'a> ImportDialog<'a> {
    /// The window over `state`.
    pub fn new(state: &'a ImportState) -> (d: Self)
        ensures
            d.state() == *state,
    {
        ImportDialog { state }
    }

    /// The state this window draws.
    pub closed spec fn state(&self) -> ImportState {
        *self.state
    }

    /// The outer size this window wants right now — the chooser and the summary are different
    /// shapes, so a caller hosting them in one viewport has to resize between them.
    pub fn window_size(&self) -> (size: (i32, i32))
        ensures
            size == (if self.state().summary is Some {
                summary::WINDOW_SIZE
            } else {
                import::WINDOW_SIZE
            }),
    {
        if self.state.is_complete() {
            summary::WINDOW_SIZE
        } else {
            import::WINDOW_SIZE
        }
    }

    /// What one frame asks of the owner.
    ///
    /// The summary closes on its ✕ and on OK; the chooser closes on its ✕, asks for a folder, and
    /// asks for the import only once a folder is chosen. A notice in front of the window answers
    /// Escape itself; without one, Escape closes the window.
    pub fn actions(&self, events: ImportEvents) -> (r: DialogResponse<PresetsAction>)
        ensures
            r.actions@ == import_actions(self.state(), events),
    {
        let mut response = DialogResponse::new();
        if self.state.summary.is_some() {
            response.push_if(events.close_clicked, PresetsAction::CloseImport);
            response.push_if(events.ok_clicked, PresetsAction::CloseImport);
        } else {
            response.push_if(events.close_clicked, PresetsAction::CloseImport);
            response.push_if(events.choose_clicked, PresetsAction::ChooseImportFolder);
            response.push_if(
                events.import_clicked && self.state.can_import(),
                PresetsAction::Import,
            );
        }
        if self.state.notice.is_some() {
            response.push_if(events.notice_answered, PresetsAction::DismissNotice);
        } else {
            response.push_if(events.escape_pressed, PresetsAction::CloseImport);
        }
        proof {
            assert(response.actions@ =~= import_actions(self.state(), events));
        }
        response
    }
}

/// `template` with its first `%s` replaced by `argument`; a template without one is returned
/// as it is.
pub open spec fn substitute(template: Seq<char>, argument: Seq<char>) -> Seq<char> {
    let i = find_two(template, '%', 's');
    if i < 0 {
        template
    } else {
        template.take(i) + argument + template.skip(i + 2)
    }
}

/// A `printf`-style template with exactly one string argument: the first `%s` is replaced, and a template
/// without a placeholder is left alone, which makes it safe for a translator to have moved or
/// dropped it.
pub fn format_string(template: &str, argument: &str) -> (out: String)
    ensures
        out@ == substitute(template@, argument@),
{
    let v = chars_of(template);
    let n = v.len();
    let j = find_two_in(&v, 0, n, '%', 's');
    proof {
        assert(v@.subrange(0, n as int) =~= v@);
        crate::text::lemma_find_two_bounds(v@, '%', 's');
    }
    if j < n {
        let mut out: Vec<char> = Vec::new();
        let mut i: usize = 0;
        while i < j
            invariant
                i <= j < n,
                n == v@.len(),
                out@ == v@.take(i as int),
            decreases j - i,
        {
            out.push(v[i]);
            proof {
                assert(out@ =~= v@.take(i + 1));
            }
            i = i + 1;
        }
        crate::text::push_str(&mut out, argument);
        let mut k: usize = j + 2;
        let ghost head = out@;
        while k < n
            invariant
                j + 2 <= k <= n,
                n == v@.len(),
                out@ == head + v@.subrange(j + 2, k as int),
            decreases n - k,
        {
            out.push(v[k]);
            proof {
                assert(out@ =~= head + v@.subrange(j + 2, k + 1));
            }
            k = k + 1;
        }
        proof {
            assert(v@.subrange(j + 2, n as int) =~= v@.skip(j + 2));
        }
        string_of(&out)
    } else {
        string_of(&v)
    }
}

/// The question to ask about `names`, the presets whose file already exists: a
/// sentence naming the file for one file, the counting form for any other number.
pub open spec fn overwrite_text(names: Seq<String>) -> Seq<char> {
    if names.len() == 1 {
        substitute(OVERWRITE_MESSAGE@, names[0]@)
    } else {
        substitute(OVERWRITE_MESSAGE_PLURAL@, decimal(names.len()))
    }
}

/// The question to ask about `names`.
pub fn overwrite_message(names: &[String]) -> (out: String)
    ensures
        out@ == overwrite_text(names@),
{
    if names.len() == 1 {
        format_string(OVERWRITE_MESSAGE, names[0].as_str())
    } else {
        let count = string_of(&decimal_chars(names.len()));
        format_string(OVERWRITE_MESSAGE_PLURAL, count.as_str())
    }
}

/// The indices below `n` that `selected` holds, in increasing order.
pub open spec fn selected_below(selected: Set<usize>, n: nat) -> Seq<usize>
    decreases n,
{
    if n == 0 {
        seq![]
    } else {
        let rest = selected_below(selected, (n - 1) as nat);
        if selected.contains((n - 1) as usize) {
            rest.push((n - 1) as usize)
        } else {
            rest
        }
    }
}

/// Everything the export window remembers between frames.
#[derive(Debug, Clone, PartialEq, Eq)]
pub struct ExportState {
    /// Every preset, factory and user alike.
    pub presets: Vec<String>,
    /// Which rows are ticked. Multiple selection is on and a click toggles a row.
    pub selected: BTreeSet<usize>,
    /// `true` from the moment Export is pressed: the button goes dead and the progress bar
    /// appears.
    pub exporting: bool,
    /// Presets whose file already exists in the export folder. Non-empty raises the prompt.
    pub collisions: Vec<String>,
    /// Set once the export has run: `true` if at least one file was written.
    pub finished: Option<bool>,
}

impl ExportState {
    /// No presets, nothing ticked, nothing running.
    pub fn new() -> (s: Self)
        ensures
            s.presets@.len() == 0,
            s.selected@ == Set::<usize>::empty(),
            !s.exporting,
            s.collisions@.len() == 0,
            s.finished is None,
    {
        ExportState {
            presets: Vec::new(),
            selected: BTreeSet::new(),
            exporting: false,
            collisions: Vec::new(),
            finished: None,
        }
    }

    /// The Export button is enabled iff at least one row is ticked and no export is already
    /// running.
    pub fn can_export(&self) -> (b: bool)
        ensures
            b == (!self.selected@.is_empty() && !self.exporting),
    {
        !self.selected.is_empty() && !self.exporting
    }

    /// The ticked names, in list order; a ticked index past the end of the list is ignored.
    pub fn selected_names(&self) -> (out: Vec<&str>)
        ensures
            out@.map_values(|s: &str| s@) == selected_below(self.selected@, self.presets@.len()).map_values(
                |k: usize| self.presets@[k as int]@,
            ),
    {
        let mut out: Vec<&str> = Vec::new();
        let mut i: usize = 0;
        while i < self.presets.len()
            invariant
                i <= self.presets@.len(),
                out@.map_values(|s: &str| s@) == selected_below(self.selected@, i as nat).map_values(
                    |k: usize| self.presets@[k as int]@,
                ),
            decreases self.presets@.len() - i,
        {
            let ghost before = out@;
            if self.selected.contains(&i) {
                out.push(self.presets[i].as_str());
                proof {
                    assert(out@.map_values(|s: &str| s@) =~= before.map_values(|s: &str| s@).push(
                        self.presets@[i as int]@,
                    ));
                    assert(selected_below(self.selected@, (i + 1) as nat) == selected_below(
                        self.selected@,
                        i as nat,
                    ).push(i));
                    assert(selected_below(self.selected@, (i + 1) as nat).map_values(
                        |k: usize| self.presets@[k as int]@,
                    ) =~= selected_below(self.selected@, i as nat).map_values(
                        |k: usize| self.presets@[k as int]@,
                    ).push(self.presets@[i as int]@));
                }
            } else {
                proof {
                    assert(selected_below(self.selected@, (i + 1) as nat) == selected_below(
                        self.selected@,
                        i as nat,
                    ));
                }
            }
            i = i + 1;
        }
        out
    }
}

impl Default for ExportState {
    fn default() -> (s: Self)
        ensures
            s.presets@.len() == 0,
            s.selected@ == Set::<usize>::empty(),
            !s.exporting,
            s.collisions@.len() == 0,
            s.finished is None,
    {
        ExportState::new()
    }
}

/// What the pointer and keyboard did to the export window in one frame.
#[derive(Debug, Clone, Copy, PartialEq, Eq, Default)]
pub struct ExportEvents {
    /// The ✕.
    pub close_clicked: bool,
    /// The list row that was clicked, if any.
    pub toggled: Option<usize>,
    /// The Export button was pressed.
    pub export_clicked: bool,
    /// The answer the overwrite prompt gave this frame, if it is showing and was answered.
    pub overwrite_answer: Option<ConfirmChoice>,
    /// The success box was acknowledged.
    pub done_acknowledged: bool,
    /// Escape was pressed.
    pub escape_pressed: bool,
}

/// How the overwrite prompt's answer resolves every colliding file: Yes overwrites them all,
/// No (or OK) skips them all, and dismissal cancels the export.
pub open spec fn overwrite_choice_of(choice: ConfirmChoice) -> OverwriteChoice {
    match choice {
        ConfirmChoice::Yes => OverwriteChoice::OverwriteAll,
        ConfirmChoice::No | ConfirmChoice::Okay => OverwriteChoice::SkipAll,
        ConfirmChoice::Dismissed => OverwriteChoice::Cancel,
    }
}

/// Map the prompt's answer to the choice it makes.
pub fn overwrite_choice(choice: ConfirmChoice) -> (c: OverwriteChoice)
    ensures
        c == overwrite_choice_of(choice),
{
    match choice {
        ConfirmChoice::Yes => OverwriteChoice::OverwriteAll,
        ConfirmChoice::No | ConfirmChoice::Okay => OverwriteChoice::SkipAll,
        ConfirmChoice::Dismissed => OverwriteChoice::Cancel,
    }
}

/// The actions one frame of the export window produces, in order.
pub open spec fn export_actions(state: ExportState, events: ExportEvents) -> Seq<PresetsAction> {
    let can_export = !state.selected@.is_empty() && !state.exporting;
    let head = (if events.close_clicked { seq![PresetsAction::CloseExport] } else { seq![] }) + (
    match events.toggled {
        Some(i) => if i < state.presets@.len() { seq![PresetsAction::ToggleExport(i)] } else { seq![] },
        None => seq![],
    }) + (if events.export_clicked && can_export { seq![PresetsAction::Export] } else { seq![] });
    let tail = if state.collisions@.len() > 0 {
        match events.overwrite_answer {
            Some(choice) => seq![PresetsAction::Overwrite(overwrite_choice_of(choice))],
            None => seq![],
        }
    } else {
        match state.finished {
            Some(written) => if written {
                if events.done_acknowledged {
                    seq![PresetsAction::RevealExportFolder, PresetsAction::CloseExport]
                } else {
                    seq![]
                }
            } else {
                seq![PresetsAction::CloseExport]
            },
            None => if events.escape_pressed { seq![PresetsAction::CloseExport] } else { seq![] },
        }
    };
    head + tail
}

/// The export window.
pub struct ExportDialog<'a> {
    state: &'a ExportState,
}

impl<'a> ExportDialog<'a> {
    /// The window over `state`.
    pub fn new(state: &'a ExportState) -> (d: Self)
        ensures
            d.state() == *state,
    {
        ExportDialog { state }
    }

    /// The state this window draws.
    pub closed spec fn state(&self) -> ExportState {
        *self.state
    }

    /// The question the overwrite prompt asks, while there are collisions.
    pub fn prompt(&self) -> (q: Option<String>)
        ensures
            match q {
                Some(text) => self.state().collisions@.len() > 0 && text@ == overwrite_text(
                    self.state().collisions@,
                ),
                None => self.state().collisions@.len() == 0,
            },
    {
        if self.state.collisions.len() > 0 {
            Some(overwrite_message(self.state.collisions.as_slice()))
        } else {
            None
        }
    }

    /// What one frame asks of the owner.
    ///
    /// A clicked row toggles, when it is one of the listed presets, and Export is only heard while it is enabled. While files collide
    /// the prompt is in front; once the export has run, a successful one waits for its
    /// announcement to be acknowledged, then reveals the folder and closes, and one that wrote
    /// nothing closes at once. Otherwise Escape closes the window.
    pub fn actions(&self, events: ExportEvents) -> (r: DialogResponse<PresetsAction>)
        ensures
            r.actions@ == export_actions(self.state(), events),
    {
        let mut response = DialogResponse::new();
        response.push_if(events.close_clicked, PresetsAction::CloseExport);
        if let Some(index) = events.toggled {
            response.push_if(index < self.state.presets.len(), PresetsAction::ToggleExport(index));
        }
        response.push_if(events.export_clicked && self.state.can_export(), PresetsAction::Export);
        if self.state.collisions.len() > 0 {
            if let Some(choice) = events.overwrite_answer {
                response.push(PresetsAction::Overwrite(overwrite_choice(choice)));
            }
        } else if let Some(written) = self.state.finished {
            if written {
                if events.done_acknowledged {
                    response.push(PresetsAction::RevealExportFolder);
                    response.push(PresetsAction::CloseExport);
                }
            } else {
                response.push(PresetsAction::CloseExport);
            }
        } else {
            response.push_if(events.escape_pressed, PresetsAction::CloseExport);
        }
        proof {
            assert(response.actions@ =~= export_actions(self.state(), events));
        }
        response
    }
}

/// The chooser's "Choose folder…" button opens the folder picker: a frame asks for it exactly
/// when the chooser is showing and the button was clicked, and then asks for it right after the
/// ✕'s close, if any, and before anything else. Import is asked for exactly when the chooser is
/// showing, a folder has been chosen and Import was clicked.
pub proof fn lemma_the_chooser_asks_for_a_folder_and_an_import(state: ImportState, events: ImportEvents)
    ensures
        import_actions(state, events).contains(PresetsAction::ChooseImportFolder)
            <==> (state.summary is None && events.choose_clicked),
        (state.summary is None && events.choose_clicked) ==> import_actions(state, events)[
            if events.close_clicked { 1int } else { 0int }] == PresetsAction::ChooseImportFolder,
        import_actions(state, events).contains(PresetsAction::Import)
            <==> (state.summary is None && events.import_clicked && state.folder is Some),
{
    let a = import_actions(state, events);
    let close = if events.close_clicked { seq![PresetsAction::CloseImport] } else { seq![] };
    let front = if state.notice is Some {
        if events.notice_answered { seq![PresetsAction::DismissNotice] } else { seq![] }
    } else {
        if events.escape_pressed { seq![PresetsAction::CloseImport] } else { seq![] }
    };
    if state.summary is Some {
        let ok = if events.ok_clicked { seq![PresetsAction::CloseImport] } else { seq![] };
        assert(a == close + ok + front);
        assert forall|k: int| 0 <= k < a.len() implies a[k] != PresetsAction::ChooseImportFolder
            && a[k] != PresetsAction::Import by {
            if k < close.len() {
                assert(a[k] == close[k]);
            } else if k < close.len() + ok.len() {
                assert(a[k] == ok[k - close.len()]);
            } else {
                assert(a[k] == front[k - close.len() - ok.len()]);
            }
        }
    } else {
        let choose = if events.choose_clicked { seq![PresetsAction::ChooseImportFolder] } else { seq![] };
        let import = if events.import_clicked && state.folder is Some {
            seq![PresetsAction::Import]
        } else {
            seq![]
        };
        assert(a == close + choose + import + front);
        let c = close.len() as int;
        let h = choose.len() as int;
        let i = import.len() as int;
        assert forall|k: int| 0 <= k < a.len() implies (a[k] == PresetsAction::ChooseImportFolder
            ==> (c <= k < c + h)) && (a[k] == PresetsAction::Import ==> (c + h <= k < c + h + i)) by {
            if k < c {
                assert(a[k] == close[k]);
            } else if k < c + h {
                assert(a[k] == choose[k - c]);
            } else if k < c + h + i {
                assert(a[k] == import[k - c - h]);
            } else {
                assert(a[k] == front[k - c - h - i]);
            }
        }
        if events.choose_clicked {
            assert(a[c] == PresetsAction::ChooseImportFolder);
        }
        if events.import_clicked && state.folder is Some {
            assert(a[c + h] == PresetsAction::Import);
        }
    }
}

/// A successful export reveals its folder once its announcement is acknowledged: a frame asks
/// for the folder to be revealed exactly when nothing collides, the export wrote something and
/// the announcement was acknowledged, and then the frame ends by revealing the folder and
/// closing the window, in that order.
pub proof fn lemma_a_successful_export_reveals_its_folder(state: ExportState, events: ExportEvents)
    ensures
        export_actions(state, events).contains(PresetsAction::RevealExportFolder) <==> (
            state.collisions@.len() == 0 && state.finished == Some(true) && events.done_acknowledged),
        (state.collisions@.len() == 0 && state.finished == Some(true) && events.done_acknowledged) ==> {
            let a = export_actions(state, events);
            &&& a.len() >= 2
            &&& a[a.len() - 2] == PresetsAction::RevealExportFolder
            &&& a[a.len() - 1] == PresetsAction::CloseExport
        },
{
    let a = export_actions(state, events);
    let can_export = !state.selected@.is_empty() && !state.exporting;
    let head = (if events.close_clicked { seq![PresetsAction::CloseExport] } else { seq![] }) + (
    match events.toggled {
        Some(i) => if i < state.presets@.len() { seq![PresetsAction::ToggleExport(i)] } else { seq![] },
        None => seq![],
    }) + (if events.export_clicked && can_export { seq![PresetsAction::Export] } else { seq![] });
    let tail = if state.collisions@.len() > 0 {
        match events.overwrite_answer {
            Some(choice) => seq![PresetsAction::Overwrite(overwrite_choice_of(choice))],
            None => seq![],
        }
    } else {
        match state.finished {
            Some(written) => if written {
                if events.done_acknowledged {
                    seq![PresetsAction::RevealExportFolder, PresetsAction::CloseExport]
                } else {
                    seq![]
                }
            } else {
                seq![PresetsAction::CloseExport]
            },
            None => if events.escape_pressed { seq![PresetsAction::CloseExport] } else { seq![] },
        }
    };
    assert(a == head + tail);
    assert forall|k: int| 0 <= k < head.len() implies head[k] != PresetsAction::RevealExportFolder by {
        let h1 = if events.close_clicked { seq![PresetsAction::CloseExport] } else { seq![] };
        let h2 = match events.toggled {
            Some(i) => if i < state.presets@.len() { seq![PresetsAction::ToggleExport(i)] } else { seq![] },
            None => seq![],
        };
        let h3 = if events.export_clicked && can_export { seq![PresetsAction::Export] } else { seq![] };
        assert(head == h1 + h2 + h3);
        if k < h1.len() {
            assert(head[k] == h1[k]);
        } else if k < h1.len() + h2.len() {
            assert(head[k] == h2[k - h1.len()]);
        } else {
            assert(head[k] == h3[k - h1.len() - h2.len()]);
        }
    }
    assert forall|k: int| 0 <= k < a.len() && a[k] == PresetsAction::RevealExportFolder implies (
        state.collisions@.len() == 0 && state.finished == Some(true) && events.done_acknowledged) by {
        if k < head.len() {
            assert(a[k] == head[k]);
        } else {
            assert(a[k] == tail[k - head.len()]);
        }
    }
    if state.collisions@.len() == 0 && state.finished == Some(true) && events.done_acknowledged {
        assert(a[head.len() as int] == PresetsAction::RevealExportFolder);
        assert(a[a.len() - 2] == tail[0]);
        assert(a[a.len() - 1] == tail[1]);
    }
}

/// Names are joined without a line ending after the last one: the joined text ends with the last
/// name itself, and it holds every character of every name plus one line break between each two.
pub proof fn lemma_join_lines_has_no_trailing_break(names: Seq<Seq<char>>)
    requires
        names.len() >= 1,
    ensures
        join_lines(names).len() >= names.last().len(),
        join_lines(names).skip(join_lines(names).len() - names.last().len()) == names.last(),
        join_lines(names).len() == total_len(names) + names.len() - 1,
    decreases names.len(),
{
    if names.len() > 1 {
        lemma_join_lines_has_no_trailing_break(names.drop_last());
        let head = join_lines(names.drop_last()).push('\n');
        assert((head + names.last()).skip(head.len() as int) =~= names.last());
    } else {
        assert(names[0].skip(0) =~= names[0]);
        assert(total_len(names.drop_last()) == 0);
    }
}

/// The total length of a list of texts.
pub open spec fn total_len(names: Seq<Seq<char>>) -> nat
    decreases names.len(),
{
    if names.len() == 0 {
        0
    } else {
        total_len(names.drop_last()) + names.last().len()
    }
}

/// A template without a `%s` comes back unharmed, whatever the argument; with one, only the
/// first is replaced and everything after it is kept as it was.
pub proof fn lemma_substitute_replaces_only_the_first(template: Seq<char>, argument: Seq<char>)
    ensures
        (forall|i: int| 0 <= i < template.len() - 1 ==> !(#[trigger] template[i] == '%' && template[i + 1]
            == 's')) ==> substitute(template, argument) == template,
        find_two(template, '%', 's') >= 0 ==> {
            let i = find_two(template, '%', 's');
            &&& substitute(template, argument) == template.take(i) + argument + template.skip(i + 2)
            &&& forall|j: int| 0 <= j < i ==> !(#[trigger] template[j] == '%' && template[j + 1] == 's')
        },
{
    lemma_find_two_bounds(template, '%', 's');
    lemma_find_two_first(template, '%', 's');
}

} // verus!
