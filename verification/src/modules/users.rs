//! The user module: the users created on the chosen server and the form
//! that creates one.

use vstd::prelude::*;
use vstd::string::StringExecFns;
use crate::app::{Action, ActionView, App, AppView};
use crate::keys::Key;
use crate::modules::input_functions::press_key;
use crate::modules::selection::{next_row, previous_row, settled_row, TableCursor};
use crate::modules::servers::{ServerEntry, ServerEntryView};
use crate::modules::validation::{is_acceptable, name_rule, NAME_PATTERN};
use crate::modules::{ModuleDataView, SanitizedForm, SelectedModule, TextInput, TextInputView};

verus! {

/// The screens of the user module.
#[derive(Clone, Copy, Debug, PartialEq, Eq)]
pub enum UserModules {
    UserList,
    UserEditing(SelectedInput),
}

/// The fields of the user form.
#[derive(Clone, Copy, Debug, PartialEq, Eq)]
pub enum SelectedInput {
    Name,
}

impl Default for SelectedInput {
    fn default() -> (first: Self)
        ensures
            first == SelectedInput::Name,
    {
        SelectedInput::Name
    }
}

/// One user as the screens hold it.
#[derive(Debug, PartialEq, Eq)]
pub struct UserEntry {
    pub name: TextInput,
}

/// What a `UserEntry` holds, as mathematical values.
pub struct UserEntryView {
    pub name: TextInputView,
}

impl UserEntryView {
    /// The field that `focus` names.
    pub open spec fn field(self, focus: SelectedInput) -> TextInputView {
        self.name
    }

    /// The form with the field that `focus` names replaced.
    pub open spec fn with_field(self, focus: SelectedInput, field: TextInputView) -> UserEntryView {
        UserEntryView { name: field }
    }

    /// The flag is set.
    pub open spec fn all_flags_set(self) -> bool {
        self.name.valid
    }

    /// The flag says what the rule of a name says of the text.
    pub open spec fn flags_are_current(self) -> bool {
        self.name.valid == name_rule(self.name.text)
    }

    /// The form with the flag computed from the text.
    pub open spec fn revalidated(self) -> UserEntryView {
        UserEntryView { name: self.name.with_flag(name_rule(self.name.text)) }
    }

    /// The cursor is an insertion point of the text.
    pub open spec fn cursors_in_text(self) -> bool {
        self.name.cursor_in_text()
    }

    /// The empty form.
    pub open spec fn blank() -> UserEntryView {
        UserEntryView { name: TextInputView::blank() }
    }

    /// The form that shows a user of the list.
    pub open spec fn filled(name: Seq<char>) -> UserEntryView {
        UserEntryView { name: TextInputView::filled(name) }
    }
}

impl View for UserEntry {
    type V = UserEntryView;

    open spec fn view(&self) -> UserEntryView {
        UserEntryView { name: self.name@ }
    }
}

impl Default for UserEntry {
    fn default() -> (entry: Self)
        ensures
            entry@ == UserEntryView::blank(),
    {
        Self { name: TextInput::default() }
    }
}

impl SanitizedForm for UserEntry {
    open spec fn all_flags_set(&self) -> bool {
        self@.all_flags_set()
    }

    open spec fn flags_are_current(&self) -> bool {
        self@.flags_are_current()
    }

    open spec fn same_entries(&self, other: &Self) -> bool {
        self@.name == other@.name.with_flag(self.name.valid)
    }

    open spec fn is_blank(&self) -> bool {
        self@ == UserEntryView::blank()
    }

    fn verify_input(&self) -> (ok: bool) {
        self.name.valid
    }

    fn update_validity(&mut self)
        ensures
            final(self)@ == old(self)@.revalidated(),
    {
        let name = is_acceptable(NAME_PATTERN, self.name.text.as_str());
        self.set_validity(name);
    }

    fn clear_form(&mut self) {
        self.name.reset();
    }
}

impl UserEntry {
    /// Sets the flag to what was found of the text.
    pub fn set_validity(&mut self, name: bool)
        ensures
            final(self)@.name == old(self)@.name.with_flag(name),
    {
        self.name.valid = name;
    }

    /// Hands a key press to the field that has the focus.
    pub fn press_key(&mut self, focus: SelectedInput, key: Key)
        ensures
            final(self)@ == old(self)@.with_field(focus, old(self)@.field(focus).after_key(key)),
    {
        match focus {
            SelectedInput::Name => press_key(&mut self.name, key),
        }
    }
}

/// The names that a list of users holds, in its order.
pub open spec fn names(list: Seq<String>) -> Seq<Seq<char>> {
    list.map_values(|name: String| name@)
}

/// What the user module keeps between key presses.
#[derive(Debug, PartialEq, Eq)]
pub struct UserModuleData {
    /// The names of the users created so far, oldest first.
    pub user_list: Vec<String>,
    /// The highlighted row of the list.
    pub user_table_state: TableCursor,
    /// The draft that the form edits.
    pub editable_user_data: UserEntry,
    /// A copy of the user that was last chosen from the list.
    pub selected_user: UserEntry,
}

/// What a `UserModuleData` holds, as mathematical values.
pub struct UserModuleDataView {
    pub user_list: Seq<Seq<char>>,
    pub selected_row: Option<nat>,
    pub draft: UserEntryView,
    pub selected_user: UserEntryView,
}

impl UserModuleDataView {
    /// No users, nothing chosen, an empty draft.
    pub open spec fn fresh() -> UserModuleDataView {
        UserModuleDataView {
            user_list: Seq::<Seq<char>>::empty(),
            selected_row: None,
            draft: UserEntryView::blank(),
            selected_user: UserEntryView::blank(),
        }
    }
}

impl View for UserModuleData {
    type V = UserModuleDataView;

    open spec fn view(&self) -> UserModuleDataView {
        UserModuleDataView {
            user_list: names(self.user_list@),
            selected_row: self.user_table_state@,
            draft: self.editable_user_data@,
            selected_user: self.selected_user@,
        }
    }
}

impl Default for UserModuleData {
    fn default() -> (data: Self)
        ensures
            data@ == UserModuleDataView::fresh(),
    {
        let data = Self {
            user_list: Vec::new(),
            user_table_state: TableCursor::default(),
            editable_user_data: UserEntry::default(),
            selected_user: UserEntry::default(),
        };
        assert(data@.user_list =~= Seq::<Seq<char>>::empty());
        data
    }
}

impl AppView {
    /// The state with the data of the user module replaced.
    pub open spec fn with_users(self, users: UserModuleDataView) -> AppView {
        AppView { module_data: ModuleDataView { user_module: users, ..self.module_data }, ..self }
    }
}

/// The address to which new users of `server` are sent.
pub open spec fn endpoint(server: ServerEntryView) -> Seq<char> {
    "http://"@ + server.address.text + ":"@ + server.port.text + "/api/users"@
}

/// Builds the address to which new users of `server` are sent.
pub fn endpoint_of(server: &ServerEntry) -> (url: String)
    ensures
        url@ == endpoint(server@),
{
    let mut url = String::from_str("http://");
    url.append(server.address.text.as_str());
    url.append(":");
    url.append(server.port.text.as_str());
    url.append("/api/users");
    url
}

/// The user module: what its screens do with a key press.
pub struct UserModule {}

impl UserModule {
    /// The state after a key press while the user module is in front.
    ///
    /// On the list, Esc ends the session, `c` opens the form, the arrows
    /// move the highlight inside the list, and Enter copies the
    /// highlighted user into the slot of the chosen user; with no user in
    /// the list Enter does nothing.
    ///
    /// In the form, Esc goes back to the list and keeps the draft, and the
    /// editing keys go to the name. Enter changes nothing here: what it
    /// asks for is said by `request`. After every key the flag of the
    /// draft is computed anew.
    pub open spec fn after_key(app: AppView, key: Key) -> AppView {
        let data = app.module_data.user_module;
        match app.selected_module {
            SelectedModule::UserModule(UserModules::UserList) => match key {
                Key::Esc => AppView { should_quit: true, ..app },
                Key::Char(c) => if c == 'c' {
                    app.on_screen(
                        SelectedModule::UserModule(UserModules::UserEditing(SelectedInput::Name)),
                    )
                } else {
                    app
                },
                Key::Enter => match data.selected_row {
                    Some(row) => if row < data.user_list.len() {
                        app.with_users(
                            UserModuleDataView {
                                selected_user: UserEntryView::filled(data.user_list[row as int]),
                                ..data
                            },
                        )
                    } else {
                        app
                    },
                    None => app,
                },
                Key::Up => app.with_users(
                    UserModuleDataView {
                        selected_row: previous_row(data.selected_row, data.user_list.len()),
                        ..data
                    },
                ),
                Key::Down => app.with_users(
                    UserModuleDataView {
                        selected_row: next_row(data.selected_row, data.user_list.len()),
                        ..data
                    },
                ),
                _ => app,
            },
            SelectedModule::UserModule(UserModules::UserEditing(focus)) => {
                let typed = data.draft.with_field(focus, data.draft.field(focus).after_key(key));
                let screen = match key {
                    Key::Esc => UserModules::UserList,
                    _ => UserModules::UserEditing(focus),
                };
                app.with_users(UserModuleDataView { draft: typed.revalidated(), ..data }).on_screen(
                    SelectedModule::UserModule(screen),
                )
            },
            _ => app,
        }
    }

    /// The outside work that a key press calls for: Enter in the form,
    /// with the flag of the draft set, asks to send the name of the draft
    /// to the server that was chosen. Nothing else asks for anything.
    pub open spec fn request(app: AppView, key: Key) -> ActionView {
        let draft = app.module_data.user_module.draft;
        if app.selected_module is UserModule && app.selected_module->UserModule_0 is UserEditing
            && key is Enter && draft.all_flags_set() {
            ActionView::SendUser {
                url: endpoint(app.module_data.server_module.selected_server),
                name: draft.name.text,
            }
        } else {
            ActionView::Idle
        }
    }

    /// Whether the draft can be committed: the form is open and the flag
    /// of the draft is set.
    pub open spec fn ready(app: AppView) -> bool {
        &&& app.selected_module is UserModule
        &&& app.selected_module->UserModule_0 is UserEditing
        &&& app.module_data.user_module.draft.all_flags_set()
    }

    /// The state after committing the draft. Where the draft is ready its
    /// name goes to the end of the user list, the draft is emptied and the
    /// list comes back in front. Where it is not, nothing changes.
    pub open spec fn committed(app: AppView) -> AppView {
        let data = app.module_data.user_module;
        if Self::ready(app) {
            let user_list = data.user_list.push(data.draft.name.text);
            app.with_users(
                UserModuleDataView {
                    user_list,
                    selected_row: settled_row(data.selected_row, user_list.len()),
                    draft: UserEntryView::blank(),
                    ..data
                },
            ).on_screen(SelectedModule::UserModule(UserModules::UserList))
        } else {
            app
        }
    }

    /// Reacts to a key press while the user module is in front and says
    /// what outside work it calls for. While another module is in front
    /// nothing happens.
    pub fn input_handling(app: &mut App, key: Key) -> (action: Action)
        ensures
            final(app)@ == Self::after_key(old(app)@, key),
            action@ == Self::request(old(app)@, key),
    {
        match app.selected_module {
            SelectedModule::UserModule(UserModules::UserList) => {
                let len = app.module_data.user_module.user_list.len();
                match key {
                    Key::Esc => {
                        app.should_quit = true;
                    },
                    Key::Char(c) => {
                        if c == 'c' {
                            app.selected_module = SelectedModule::UserModule(
                                UserModules::UserEditing(SelectedInput::default()),
                            );
                        }
                    },
                    Key::Enter => {
                        match app.module_data.user_module.user_table_state.selected() {
                            Some(row) => {
                                if row < len {
                                    let name = app.module_data.user_module.user_list[row].clone();
                                    app.module_data.user_module.selected_user = UserEntry {
                                        name: TextInput::new(name),
                                    };
                                }
                            },
                            None => {},
                        }
                    },
                    Key::Up => {
                        app.module_data.user_module.user_table_state.select_previous(len);
                    },
                    Key::Down => {
                        app.module_data.user_module.user_table_state.select_next(len);
                    },
                    _ => {},
                }
                Action::Idle
            },
            SelectedModule::UserModule(UserModules::UserEditing(selected_input)) => {
                let mut action = Action::Idle;
                match key {
                    Key::Esc => {
                        app.selected_module = SelectedModule::UserModule(UserModules::UserList);
                    },
                    Key::Enter => {
                        if app.module_data.user_module.editable_user_data.verify_input() {
                            action = Action::SendUser {
                                url: endpoint_of(&app.module_data.server_module.selected_server),
                                name: app.module_data.user_module.editable_user_data.name.text.clone(),
                            };
                        }
                    },
                    _ => {
                        app.module_data.user_module.editable_user_data.press_key(
                            selected_input,
                            key,
                        );
                    },
                }
                app.module_data.user_module.editable_user_data.update_validity();
                action
            },
            _ => Action::Idle,
        }
    }

    /// Commits the draft once the server has taken the new user: the name
    /// joins the user list, the form is emptied and the list comes back in
    /// front. A draft whose flag is not set, or a form that is not open,
    /// is not committed, and nothing changes.
    pub fn commit(app: &mut App)
        ensures
            final(app)@ == Self::committed(old(app)@),
            !Self::ready(old(app)@) ==> final(app)@ == old(app)@,
            Self::ready(old(app)@) ==> {
                let before = old(app)@.module_data.user_module;
                let after = final(app)@.module_data.user_module;
                &&& after.user_list == before.user_list.push(before.draft.name.text)
                &&& after.draft == UserEntryView::blank()
                &&& final(app)@.selected_module == SelectedModule::UserModule(UserModules::UserList)
            },
    {
        match app.selected_module {
            SelectedModule::UserModule(UserModules::UserEditing(_)) => {
                if app.module_data.user_module.editable_user_data.verify_input() {
                    let name = app.module_data.user_module.editable_user_data.name.text.clone();
                    app.module_data.user_module.user_list.push(name);
                    let len = app.module_data.user_module.user_list.len();
                    app.module_data.user_module.user_table_state.settle(len);
                    app.module_data.user_module.editable_user_data.clear_form();
                    app.selected_module = SelectedModule::UserModule(UserModules::UserList);
                    assert(app@.module_data.user_module.user_list =~= old(
                        app,
                    )@.module_data.user_module.user_list.push(
                        old(app)@.module_data.user_module.draft.name.text,
                    ));
                }
            },
            _ => {},
        }
    }
}

/// An empty form is up to date and cannot be committed.
pub proof fn law_blank_user_form_is_invalid()
    ensures
        UserEntryView::blank().flags_are_current(),
        UserEntryView::blank().cursors_in_text(),
        !UserEntryView::blank().all_flags_set(),
{
}

/// While the form is open, after every key press the flag of the draft
/// says what the rule of a name says of the text that the field holds
/// then, whatever the flag said before.
pub proof fn law_user_flag_follows_the_text(app: AppView, key: Key)
    requires
        app.selected_module is UserModule,
        app.selected_module->UserModule_0 is UserEditing,
    ensures
        UserModule::after_key(app, key).module_data.user_module.draft.flags_are_current(),
{
}

/// A draft whose flag is not set is not committed: pressing Enter in the
/// form asks for nothing and leaves the user list and the screen as they
/// are, and committing changes nothing at all.
pub proof fn law_invalid_user_draft_is_kept(app: AppView)
    requires
        app.selected_module is UserModule,
        app.selected_module->UserModule_0 is UserEditing,
        !app.module_data.user_module.draft.all_flags_set(),
    ensures
        UserModule::request(app, Key::Enter) == ActionView::Idle,
        UserModule::after_key(app, Key::Enter).selected_module == app.selected_module,
        UserModule::after_key(app, Key::Enter).module_data.user_module.user_list
            == app.module_data.user_module.user_list,
        UserModule::committed(app) == app,
{
}

/// A draft whose flag is set is committed as one record: pressing Enter in
/// the form asks to send its name to the chosen server, and committing
/// puts the name at the end of the user list, which grows by one, and
/// leaves the form empty and invalid behind the list.
pub proof fn law_valid_user_draft_is_committed(app: AppView)
    requires
        UserModule::ready(app),
    ensures
        UserModule::request(app, Key::Enter) == (ActionView::SendUser {
            url: endpoint(app.module_data.server_module.selected_server),
            name: app.module_data.user_module.draft.name.text,
        }),
        UserModule::committed(app).module_data.user_module.user_list
            == app.module_data.user_module.user_list.push(
            app.module_data.user_module.draft.name.text,
        ),
        UserModule::committed(app).module_data.user_module.user_list.len()
            == app.module_data.user_module.user_list.len() + 1,
        UserModule::committed(app).module_data.user_module.draft == UserEntryView::blank(),
        !UserModule::committed(app).module_data.user_module.draft.all_flags_set(),
        UserModule::committed(app).selected_module == SelectedModule::UserModule(
            UserModules::UserList,
        ),
{
}

} // verus!
