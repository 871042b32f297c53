//! The welcome splash, and the dialogs that name things.
use crate::command::{TrackedProject, UiCommand};
use crate::lists::{only_if, push_if};
use crate::project_view::UiTrackedProjectEntry;
use crate::state::project::ProjectDialogs;
use crate::text::{key1, named, plain1, plain2, verbatim, Arg, Text};
use crate::ids::RenameTarget;
use crate::words::{blank, trim, trimmed};
use vstd::prelude::*;

verus! {

/// What was clicked on the welcome splash.
#[derive(Clone, Copy, Debug, PartialEq, Eq, Structural)]
pub enum SplashClick {
    /// Startup already sits on an empty project, so this only puts the splash away.
    NewProject,
    LoadProject,
    Website,
    ExitApplication,
    /// A remembered project, by its place in the list.
    Recent(usize),
    RemoveRecent(usize),
}

/// What a click on the splash asks for.
pub open spec fn splash_asks(click: SplashClick, recent: Seq<&UiTrackedProjectEntry>) -> Seq<UiCommand> {
    match click {
        SplashClick::NewProject => seq![UiCommand::CloseStartupDialog],
        SplashClick::LoadProject => seq![UiCommand::OpenProject],
        SplashClick::Website => Seq::empty(),
        SplashClick::ExitApplication => seq![UiCommand::RequestExit],
        SplashClick::Recent(place) => if place < recent.len() {
            seq![UiCommand::ActivateTrackedProject(recent[place as int].source)]
        } else {
            Seq::empty()
        },
        SplashClick::RemoveRecent(place) => if place < recent.len() {
            seq![UiCommand::RemoveTrackedProject(recent[place as int].source)]
        } else {
            Seq::empty()
        },
    }
}

/// What a frame of the splash asks for.
pub open spec fn splash_frame(
    backdrop_clicked: bool,
    cancel_pressed: bool,
    click: Option<SplashClick>,
    recent: Seq<&UiTrackedProjectEntry>,
) -> Seq<UiCommand> {
    only_if(backdrop_clicked || cancel_pressed, UiCommand::CloseStartupDialog) + (match click {
        Some(click) => splash_asks(click, recent),
        None => Seq::<UiCommand>::empty(),
    })
}

/// Take a frame of the welcome splash.
///
/// A project is already open behind it, so the splash is an offer, not a gate:
/// Escape and a click on the backdrop dismiss it and leave that project in place.
/// Leaving the application is a deliberate click only.
pub fn take_splash(
    backdrop_clicked: bool,
    cancel_pressed: bool,
    click: Option<SplashClick>,
    recent: &Vec<&UiTrackedProjectEntry>,
    commands: &mut Vec<UiCommand>,
)
    ensures
        final(commands)@ == old(commands)@ + splash_frame(backdrop_clicked, cancel_pressed, click, recent@),
{
    push_if(commands, backdrop_clicked || cancel_pressed, UiCommand::CloseStartupDialog);
    let ghost before = commands@;
    if let Some(click) = click {
        match click {
            SplashClick::NewProject => commands.push(UiCommand::CloseStartupDialog),
            SplashClick::LoadProject => commands.push(UiCommand::OpenProject),
            SplashClick::Website => {},
            SplashClick::ExitApplication => commands.push(UiCommand::RequestExit),
            SplashClick::Recent(place) => if place < recent.len() {
                commands.push(UiCommand::ActivateTrackedProject(recent[place].source.duplicate()));
            },
            SplashClick::RemoveRecent(place) => if place < recent.len() {
                commands.push(UiCommand::RemoveTrackedProject(recent[place].source.duplicate()));
            },
        }
        assert(commands@ =~= before + splash_asks(click, recent@));
    }
    assert(commands@ =~= before + (match click {
        Some(click) => splash_asks(click, recent@),
        None => Seq::<UiCommand>::empty(),
    }));
    assert(commands@ =~= old(commands)@ + splash_frame(backdrop_clicked, cancel_pressed, click, recent@));
}

/// Escape on its own only puts the splash away, as a click on the backdrop does. It never
/// leaves the application: that takes a click on the row for it, whatever else happens in
/// the frame.
pub proof fn escape_only_dismisses(backdrop_clicked: bool, cancel_pressed: bool, click: Option<SplashClick>, recent: Seq<&UiTrackedProjectEntry>)
    ensures
        cancel_pressed && click is None ==> splash_frame(backdrop_clicked, cancel_pressed, click, recent) == seq![
            UiCommand::CloseStartupDialog,
        ],
        splash_frame(backdrop_clicked, cancel_pressed, click, recent).contains(UiCommand::RequestExit) ==> click == Some(
            SplashClick::ExitApplication,
        ),
{
    let dismissal = only_if(backdrop_clicked || cancel_pressed, UiCommand::CloseStartupDialog);
    let asked = match click {
        Some(click) => splash_asks(click, recent),
        None => Seq::<UiCommand>::empty(),
    };
    let frame = splash_frame(backdrop_clicked, cancel_pressed, click, recent);
    assert(frame == dismissal + asked);
    if cancel_pressed && click is None {
        assert(frame =~= seq![UiCommand::CloseStartupDialog]);
    }
    if frame.contains(UiCommand::RequestExit) {
        let place = choose|place: int| 0 <= place < frame.len() && frame[place] == UiCommand::RequestExit;
        assert(place >= dismissal.len());
        assert(asked[place - dismissal.len()] == UiCommand::RequestExit);
    }
}

impl UiTrackedProjectEntry {
    /// A project with unsaved edits is marked.
    pub open spec fn spec_row_label(self) -> Text {
        if self.dirty {
            plain1("%name% *", named("name", Arg::Name(self.name)))
        } else {
            verbatim(self.name)
        }
    }

    pub fn row_label(&self) -> (r: Text)
        ensures
            r == self.spec_row_label(),
    {
        if self.dirty {
            plain1("%name% *", named("name", Arg::Name(self.name.clone())))
        } else {
            verbatim(self.name.clone())
        }
    }

    /// Where the project is kept.
    pub open spec fn spec_place(self) -> Arg {
        match self.source {
            TrackedProject::Path(path) => Arg::Name(path),
            TrackedProject::Stored(_) => if self.stored_in_browser {
                Arg::Words("Saved in browser storage")
            } else {
                Arg::Words("Not saved in browser storage")
            },
        }
    }

    /// The full name, and where the project is kept.
    pub fn hover_text(&self) -> (r: Text)
        ensures
            r == plain2("%name%\n%place%", named("name", Arg::Name(self.name)), named("place", self.spec_place())),
    {
        let place = match &self.source {
            TrackedProject::Path(path) => Arg::Name(path.clone()),
            TrackedProject::Stored(_) => if self.stored_in_browser {
                Arg::Words("Saved in browser storage")
            } else {
                Arg::Words("Not saved in browser storage")
            },
        };
        plain2("%name%\n%place%", named("name", Arg::Name(self.name.clone())), named("place", place))
    }
}

/// What happened in a dialog that asks for a name.
#[derive(Debug)]
pub struct NameEdit {
    /// What the field holds now, where it changed.
    pub text: Option<String>,
    /// The confirming button was clicked, or Enter was pressed.
    pub submit: bool,
    /// Cancel was clicked, or Escape was pressed.
    pub cancel: bool,
    /// The window was closed.
    pub closed: bool,
}

impl NameEdit {
    /// What the field holds after the edit.
    pub open spec fn held(self, before: String) -> String {
        match self.text {
            Some(text) => text,
            None => before,
        }
    }
}

impl ProjectDialogs {
    /// Take a frame of the dialog that names a project in the browser. A name is required:
    /// nothing is asked for while the name is blank, before this frame's edit or after it.
    /// What is asked for is the name after the edit, without the space around it.
    pub fn edit_new_project(&mut self, edit: NameEdit, commands: &mut Vec<UiCommand>)
        ensures
            ({
                let creates = edit.submit && !blank(old(self).new_project_name@) && !blank(edit.held(old(self).new_project_name)@);
                &&& creates ==> final(commands)@.len() == old(commands)@.len() + 1 && final(commands)@.drop_last() == old(commands)@
                    && (final(commands)@.last() matches UiCommand::CreateBrowserProject { name } && name@ == trimmed(
                    edit.held(old(self).new_project_name)@,
                ))
                &&& !creates ==> final(commands)@ == old(commands)@
                &&& *final(self) == (ProjectDialogs {
                    new_project_name: edit.held(old(self).new_project_name),
                    new_project_open: old(self).new_project_open && !creates && !edit.cancel,
                    ..*old(self)
                })
            }),
    {
        let can_create = !is_blank(self.new_project_name.as_str());
        if let Some(text) = edit.text {
            self.new_project_name = text;
        }
        if edit.submit && can_create && !is_blank(self.new_project_name.as_str()) {
            commands.push(UiCommand::CreateBrowserProject { name: trim(self.new_project_name.as_str()) });
            assert(commands@.drop_last() =~= old(commands)@);
            self.new_project_open = false;
        }
        if edit.cancel {
            self.new_project_open = false;
        }
    }

    /// Take a frame of the dialog that names a layer, which closes without an active
    /// project. As for a project, the name is required before this frame's edit and after it,
    /// and what is asked for is the name after the edit, without the space around it.
    pub fn edit_new_layer(&mut self, has_active_project: bool, edit: NameEdit, commands: &mut Vec<UiCommand>)
        ensures
            !has_active_project ==> *final(self) == (ProjectDialogs { new_layer_open: false, ..*old(self) }) && final(commands)@
                == old(commands)@,
            has_active_project ==> {
                let creates = edit.submit && !blank(old(self).new_layer_name@) && !blank(edit.held(old(self).new_layer_name)@);
                &&& creates ==> final(commands)@.len() == old(commands)@.len() + 1 && final(commands)@.drop_last() == old(commands)@
                    && (final(commands)@.last() matches UiCommand::CreateLayer { name } && name@ == trimmed(
                    edit.held(old(self).new_layer_name)@,
                ))
                &&& !creates ==> final(commands)@ == old(commands)@
                &&& *final(self) == (ProjectDialogs {
                    new_layer_name: edit.held(old(self).new_layer_name),
                    new_layer_open: old(self).new_layer_open && !creates && !edit.cancel,
                    ..*old(self)
                })
            },
    {
        if !has_active_project {
            self.new_layer_open = false;
            return;
        }
        let can_save = !is_blank(self.new_layer_name.as_str());
        if let Some(text) = edit.text {
            self.new_layer_name = text;
        }
        if edit.submit && can_save && !is_blank(self.new_layer_name.as_str()) {
            commands.push(UiCommand::CreateLayer { name: trim(self.new_layer_name.as_str()) });
            assert(commands@.drop_last() =~= old(commands)@);
            self.new_layer_open = false;
        }
        if edit.cancel {
            self.new_layer_open = false;
        }
    }

    /// The title of the rename dialog.
    pub fn rename_title(target: RenameTarget) -> (r: Text)
        ensures
            r == key1("dialog-rename-title", named("kind", Arg::Words(target.kind_words()))),
    {
        key1("dialog-rename-title", named("kind", Arg::Words(target.kind_heading())))
    }

    /// Take a frame of the rename dialog. A name that is not blank is asked for
    /// without the space around it; the dialog stays until the rename is done, and
    /// closes when it is left.
    pub fn edit_rename(&mut self, edit: NameEdit, commands: &mut Vec<UiCommand>)
        ensures
            old(self).renaming_item is None ==> *final(self) == *old(self) && final(commands)@ == old(commands)@,
            old(self).renaming_item matches Some(item) ==> {
                let held = edit.held(item.1);
                let renames = edit.submit && !blank(held@);
                &&& renames ==> final(commands)@.len() == old(commands)@.len() + 1 && final(commands)@.drop_last() == old(commands)@
                    && (final(commands)@.last() matches UiCommand::RenameItem { target, new_name } && target == item.0 && new_name@
                    == trimmed(held@))
                &&& !renames ==> final(commands)@ == old(commands)@
                &&& *final(self) == (ProjectDialogs {
                    renaming_item: if !renames && (edit.cancel || edit.closed) {
                        None
                    } else {
                        Some((item.0, held))
                    },
                    ..*old(self)
                })
            },
    {
        if let Some((target, name)) = self.renaming_item.take() {
            let held = match edit.text {
                Some(text) => text,
                None => name,
            };
            if edit.submit && !is_blank(held.as_str()) {
                commands.push(UiCommand::RenameItem { target, new_name: trim(held.as_str()) });
                assert(commands@.drop_last() =~= old(commands)@);
                self.renaming_item = Some((target, held));
            } else if edit.cancel || edit.closed {
                self.renaming_item = None;
            } else {
                self.renaming_item = Some((target, held));
            }
        }
    }
}

/// Whether a name has nothing but white space in it: such a name is not taken.
pub fn is_blank(text: &str) -> (r: bool)
    ensures
        r == blank(text@),
{
    let rest = trim(text);
    proof {
        crate::words::blank_text_trims_to_nothing(text@);
    }
    rest.as_str().is_empty()
}

/// A rename never gives a blank name.
pub proof fn renames_are_never_blank(held: Seq<char>)
    requires
        !blank(held),
    ensures
        trimmed(held).len() > 0,
{
    crate::words::blank_text_trims_to_nothing(held);
}

/// Each click on the splash asks for its own thing: going on with the empty project, opening
/// one, leaving, or the remembered project at its place, to be opened or to be forgotten. The
/// web site is opened without a command.
pub proof fn splash_clicks_ask_for_their_own_thing(click: SplashClick, other: SplashClick, recent: Seq<&UiTrackedProjectEntry>)
    ensures
        splash_asks(click, recent).len() <= 1,
        click is NewProject ==> splash_asks(click, recent) == seq![UiCommand::CloseStartupDialog],
        click is LoadProject ==> splash_asks(click, recent) == seq![UiCommand::OpenProject],
        click is ExitApplication ==> splash_asks(click, recent) == seq![UiCommand::RequestExit],
        click is Website ==> splash_asks(click, recent).len() == 0,
        click matches SplashClick::Recent(place) ==> {
            &&& place < recent.len() ==> splash_asks(click, recent) == seq![UiCommand::ActivateTrackedProject(recent[place as int].source)]
            &&& place >= recent.len() ==> splash_asks(click, recent).len() == 0
        },
        click matches SplashClick::RemoveRecent(place) ==> {
            &&& place < recent.len() ==> splash_asks(click, recent) == seq![UiCommand::RemoveTrackedProject(recent[place as int].source)]
            &&& place >= recent.len() ==> splash_asks(click, recent).len() == 0
        },
{
}

/// A frame of the splash asks for the dismissal first and for what was clicked after it, and
/// for nothing where neither happened.
pub proof fn splash_frames_dismiss_first(backdrop_clicked: bool, cancel_pressed: bool, click: SplashClick, recent: Seq<&UiTrackedProjectEntry>)
    ensures
        splash_frame(false, false, None, recent).len() == 0,
        splash_frame(true, cancel_pressed, None, recent) == seq![UiCommand::CloseStartupDialog],
        splash_frame(backdrop_clicked, true, None, recent) == seq![UiCommand::CloseStartupDialog],
        splash_frame(false, false, Some(click), recent) == splash_asks(click, recent),
        backdrop_clicked || cancel_pressed ==> splash_frame(backdrop_clicked, cancel_pressed, Some(click), recent) == seq![
            UiCommand::CloseStartupDialog,
        ] + splash_asks(click, recent),
{
    assert(splash_frame(true, cancel_pressed, None, recent) =~= seq![UiCommand::CloseStartupDialog]);
    assert(splash_frame(backdrop_clicked, true, None, recent) =~= seq![UiCommand::CloseStartupDialog]);
    assert(splash_frame(false, false, Some(click), recent) =~= splash_asks(click, recent));
}

/// A remembered project is shown by its name, marked while it has unsaved edits, and with the
/// place where it is kept.
pub proof fn remembered_projects_show_their_place(entry: UiTrackedProjectEntry)
    ensures
        !entry.dirty ==> entry.spec_row_label() == verbatim(entry.name),
        entry.dirty ==> entry.spec_row_label() == plain1("%name% *", named("name", Arg::Name(entry.name))),
        entry.source matches TrackedProject::Path(path) ==> entry.spec_place() == Arg::Name(path),
        entry.source is Stored && entry.stored_in_browser ==> entry.spec_place() == Arg::Words("Saved in browser storage"),
        entry.source is Stored && !entry.stored_in_browser ==> entry.spec_place() == Arg::Words("Not saved in browser storage"),
{
}

/// The field holds what was typed last.
pub proof fn fields_hold_what_was_typed(edit: NameEdit, before: String)
    ensures
        edit.text matches Some(text) ==> edit.held(before) == text,
        edit.text is None ==> edit.held(before) == before,
{
}

} // verus!
