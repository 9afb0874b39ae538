//! The server module: the list of known servers and the form that adds one.

use vstd::prelude::*;
use vstd::std_specs::convert::FromSpecImpl;
use crate::app::{Action, ActionView, App, AppView};
use crate::config::{Server, ServerView};
use crate::keys::Key;
use crate::modules::input_functions::press_key;
use crate::modules::selection::{next_row, previous_row, settled_row, TableCursor};
use crate::modules::users::UserModules;
use crate::modules::validation::{
    address_rule, is_acceptable, name_rule, port_rule, ADDRESS_PATTERN, NAME_PATTERN,
    PORT_PATTERN,
};
use crate::modules::{ModuleDataView, SanitizedForm, SelectedModule, TextInput, TextInputView};

verus! {

/// The screens of the server module.
#[derive(Clone, Copy, Debug, PartialEq, Eq)]
pub enum ServerModules {
    ServerList,
    ServerEditing(SelectedInput),
}

/// The fields of the server form, in the order in which the focus walks
/// through them.
#[derive(Clone, Copy, Debug, PartialEq, Eq)]
pub enum SelectedInput {
    Name,
    Address,
    Port,
}

impl Default for SelectedInput {
    fn default() -> (first: Self)
        ensures
            first == SelectedInput::Name,
    {
        SelectedInput::Name
    }
}

impl SelectedInput {
    /// The place of the field in the focus order, counted from 0.
    pub open spec fn ordinal(self) -> int {
        match self {
            SelectedInput::Name => 0,
            SelectedInput::Address => 1,
            SelectedInput::Port => 2,
        }
    }

    /// The field behind this one; behind the last comes the first.
    pub fn next(self) -> (field: Self)
        ensures
            field.ordinal() == (self.ordinal() + 1) % 3,
            field == self.successor(),
    {
        match self {
            SelectedInput::Name => SelectedInput::Address,
            SelectedInput::Address => SelectedInput::Port,
            SelectedInput::Port => SelectedInput::Name,
        }
    }

    /// The field in front of this one; in front of the first comes the
    /// last.
    pub fn prev(self) -> (field: Self)
        ensures
            field.ordinal() == (self.ordinal() + 2) % 3,
            field == self.predecessor(),
    {
        match self {
            SelectedInput::Name => SelectedInput::Port,
            SelectedInput::Address => SelectedInput::Name,
            SelectedInput::Port => SelectedInput::Address,
        }
    }

    /// The place of the field in the focus order, which is also the row
    /// of the form in which it is drawn.
    pub fn position(self) -> (row: usize)
        ensures
            row == self.ordinal(),
    {
        match self {
            SelectedInput::Name => 0,
            SelectedInput::Address => 1,
            SelectedInput::Port => 2,
        }
    }

    /// The field at a place of the focus order.
    pub open spec fn at(ordinal: int) -> SelectedInput {
        if ordinal == 0 {
            SelectedInput::Name
        } else if ordinal == 1 {
            SelectedInput::Address
        } else {
            SelectedInput::Port
        }
    }

    /// The field behind this one, as a value.
    pub open spec fn successor(self) -> SelectedInput {
        Self::at((self.ordinal() + 1) % 3)
    }

    /// The field in front of this one, as a value.
    pub open spec fn predecessor(self) -> SelectedInput {
        Self::at((self.ordinal() + 2) % 3)
    }
}

/// One server as the screens hold it: a text field for each of its parts.
#[derive(Debug, PartialEq, Eq)]
pub struct ServerEntry {
    pub name: TextInput,
    pub address: TextInput,
    pub port: TextInput,
}

/// What a `ServerEntry` holds, as mathematical values.
pub struct ServerEntryView {
    pub name: TextInputView,
    pub address: TextInputView,
    pub port: TextInputView,
}

impl ServerEntryView {
    /// The field that `focus` names.
    pub open spec fn field(self, focus: SelectedInput) -> TextInputView {
        match focus {
            SelectedInput::Name => self.name,
            SelectedInput::Address => self.address,
            SelectedInput::Port => self.port,
        }
    }

    /// The form with the field that `focus` names replaced.
    pub open spec fn with_field(self, focus: SelectedInput, field: TextInputView) -> ServerEntryView {
        match focus {
            SelectedInput::Name => ServerEntryView { name: field, ..self },
            SelectedInput::Address => ServerEntryView { address: field, ..self },
            SelectedInput::Port => ServerEntryView { port: field, ..self },
        }
    }

    /// The form with the three flags set as given.
    pub open spec fn with_flags(self, name: bool, address: bool, port: bool) -> ServerEntryView {
        ServerEntryView {
            name: self.name.with_flag(name),
            address: self.address.with_flag(address),
            port: self.port.with_flag(port),
        }
    }

    /// The three flags are set.
    pub open spec fn all_flags_set(self) -> bool {
        self.name.valid && self.address.valid && self.port.valid
    }

    /// Each flag says what the rule of its field says of the text.
    pub open spec fn flags_are_current(self) -> bool {
        &&& self.name.valid == name_rule(self.name.text)
        &&& self.address.valid == address_rule(self.address.text)
        &&& self.port.valid == port_rule(self.port.text)
    }

    /// The form with each flag computed from the text of its field.
    pub open spec fn revalidated(self) -> ServerEntryView {
        self.with_flags(
            name_rule(self.name.text),
            address_rule(self.address.text),
            port_rule(self.port.text),
        )
    }

    /// The three cursors are insertion points of their texts.
    pub open spec fn cursors_in_text(self) -> bool {
        &&& self.name.cursor_in_text()
        &&& self.address.cursor_in_text()
        &&& self.port.cursor_in_text()
    }

    /// The empty form.
    pub open spec fn blank() -> ServerEntryView {
        ServerEntryView {
            name: TextInputView::blank(),
            address: TextInputView::blank(),
            port: TextInputView::blank(),
        }
    }

    /// The form filled from a stored record and not edited yet.
    pub open spec fn filled(record: ServerView) -> ServerEntryView {
        ServerEntryView {
            name: TextInputView::filled(record.name),
            address: TextInputView::filled(record.address),
            port: TextInputView::filled(record.port),
        }
    }

    /// The record that the three texts make.
    pub open spec fn record(self) -> ServerView {
        ServerView { name: self.name.text, address: self.address.text, port: self.port.text }
    }
}

impl View for ServerEntry {
    type V = ServerEntryView;

    open spec fn view(&self) -> ServerEntryView {
        ServerEntryView { name: self.name@, address: self.address@, port: self.port@ }
    }
}

impl Default for ServerEntry {
    fn default() -> (entry: Self)
        ensures
            entry@ == ServerEntryView::blank(),
    {
        Self {
            name: TextInput::default(),
            address: TextInput::default(),
            port: TextInput::default(),
        }
    }
}

impl Clone for ServerEntry {
    fn clone(&self) -> (copy: Self)
        ensures
            copy@ == self@,
    {
        Self { name: self.name.clone(), address: self.address.clone(), port: self.port.clone() }
    }
}

impl FromSpecImpl<&Server> for ServerEntry {
    open spec fn obeys_from_spec() -> bool {
        true
    }

    open spec fn from_spec(value: &Server) -> ServerEntry {
        ServerEntry {
            name: TextInput { text: value.name, index: 0, valid: false },
            address: TextInput { text: value.address, index: 0, valid: false },
            port: TextInput { text: value.port, index: 0, valid: false },
        }
    }
}

impl From<&Server> for ServerEntry {
    /// The entry that shows a stored server.
    fn from(value: &Server) -> (entry: Self)
        ensures
            entry@ == ServerEntryView::filled(value@),
    {
        Self {
            name: TextInput::new(value.name.clone()),
            address: TextInput::new(value.address.clone()),
            port: TextInput::new(value.port.clone()),
        }
    }
}

impl SanitizedForm for ServerEntry {
    open spec fn all_flags_set(&self) -> bool {
        self@.all_flags_set()
    }

    open spec fn flags_are_current(&self) -> bool {
        self@.flags_are_current()
    }

    open spec fn same_entries(&self, other: &Self) -> bool {
        self@ == other@.with_flags(self.name.valid, self.address.valid, self.port.valid)
    }

    open spec fn is_blank(&self) -> bool {
        self@ == ServerEntryView::blank()
    }

    fn verify_input(&self) -> (ok: bool) {
        self.name.valid && self.address.valid && self.port.valid
    }

    fn update_validity(&mut self)
        ensures
            final(self)@ == old(self)@.revalidated(),
    {
        let name = is_acceptable(NAME_PATTERN, self.name.text.as_str());
        let address = is_acceptable(ADDRESS_PATTERN, self.address.text.as_str());
        let port = is_acceptable(PORT_PATTERN, self.port.text.as_str());
        self.set_validity(name, address, port);
    }

    fn clear_form(&mut self) {
        self.name.reset();
        self.address.reset();
        self.port.reset();
    }
}

impl ServerEntry {
    /// Sets the three flags to what was found of the three texts.
    pub fn set_validity(&mut self, name: bool, address: bool, port: bool)
        ensures
            final(self)@ == old(self)@.with_flags(name, address, port),
    {
        self.name.valid = name;
        self.address.valid = address;
        self.port.valid = port;
    }

    /// Hands a key press to the field that has the focus.
    pub fn press_key(&mut self, focus: SelectedInput, key: Key)
        ensures
            final(self)@ == old(self)@.with_field(focus, old(self)@.field(focus).after_key(key)),
    {
        match focus {
            SelectedInput::Name => press_key(&mut self.name, key),
            SelectedInput::Address => press_key(&mut self.address, key),
            SelectedInput::Port => press_key(&mut self.port, key),
        }
    }

    /// The field that `focus` names.
    pub fn input(&self, focus: SelectedInput) -> (field: &TextInput)
        ensures
            field@ == self@.field(focus),
    {
        match focus {
            SelectedInput::Name => &self.name,
            SelectedInput::Address => &self.address,
            SelectedInput::Port => &self.port,
        }
    }

    /// The record to store for this entry: its three texts.
    pub fn record(&self) -> (server: Server)
        ensures
            server@ == self@.record(),
    {
        Server {
            name: self.name.text.clone(),
            address: self.address.text.clone(),
            port: self.port.text.clone(),
        }
    }
}

/// The entries that a list holds, in its order.
pub open spec fn entries(list: Seq<ServerEntry>) -> Seq<ServerEntryView> {
    list.map_values(|entry: ServerEntry| entry@)
}

/// What the server module keeps between key presses.
#[derive(Debug, PartialEq, Eq)]
pub struct ServerModuleData {
    /// The committed servers, oldest first.
    pub server_list: Vec<ServerEntry>,
    /// The highlighted row of the list.
    pub servers_table_state: TableCursor,
    /// A copy of the server that was last chosen from the list.
    pub selected_server: ServerEntry,
    /// The draft that the form edits.
    pub editable_server_data: ServerEntry,
}

/// What a `ServerModuleData` holds, as mathematical values.
pub struct ServerModuleDataView {
    pub server_list: Seq<ServerEntryView>,
    pub selected_row: Option<nat>,
    pub selected_server: ServerEntryView,
    pub draft: ServerEntryView,
}

impl ServerModuleDataView {
    /// No servers, nothing chosen, an empty draft.
    pub open spec fn fresh() -> ServerModuleDataView {
        ServerModuleDataView {
            server_list: Seq::<ServerEntryView>::empty(),
            selected_row: None,
            selected_server: ServerEntryView::blank(),
            draft: ServerEntryView::blank(),
        }
    }
}

impl View for ServerModuleData {
    type V = ServerModuleDataView;

    open spec fn view(&self) -> ServerModuleDataView {
        ServerModuleDataView {
            server_list: entries(self.server_list@),
            selected_row: self.servers_table_state@,
            selected_server: self.selected_server@,
            draft: self.editable_server_data@,
        }
    }
}

impl Default for ServerModuleData {
    fn default() -> (data: Self)
        ensures
            data@ == ServerModuleDataView::fresh(),
    {
        let data = Self {
            server_list: Vec::new(),
            servers_table_state: TableCursor::default(),
            selected_server: ServerEntry::default(),
            editable_server_data: ServerEntry::default(),
        };
        assert(data@.server_list =~= Seq::<ServerEntryView>::empty());
        data
    }
}

impl AppView {
    /// The state with the data of the server module replaced.
    pub open spec fn with_servers(self, servers: ServerModuleDataView) -> AppView {
        AppView {
            module_data: ModuleDataView { server_module: servers, ..self.module_data },
            ..self
        }
    }
}

/// The server module: what its screens do with a key press.
pub struct ServerModule {}

impl ServerModule {
    /// The state after a key press while the server module is in front.
    ///
    /// On the list, Esc ends the session, `c` opens the form on its first
    /// field, the arrows move the highlight inside the list, and Enter
    /// copies the highlighted server into the slot of the chosen server
    /// and brings the user module in front; with no server in the list
    /// Enter does nothing.
    ///
    /// In the form, Esc goes back to the list and keeps the draft, the
    /// arrows up and down walk the focus round the fields, and the editing
    /// keys go to the field that has the focus. Enter changes nothing
    /// here: what it asks for is said by `request`. After every key the
    /// flags of the draft are computed anew.
    pub open spec fn after_key(app: AppView, key: Key) -> AppView {
        let data = app.module_data.server_module;
        match app.selected_module {
            SelectedModule::ServerModule(ServerModules::ServerList) => match key {
                Key::Esc => AppView { should_quit: true, ..app },
                Key::Char(c) => if c == 'c' {
                    app.on_screen(
                        SelectedModule::ServerModule(
                            ServerModules::ServerEditing(SelectedInput::Name),
                        ),
                    )
                } else {
                    app
                },
                Key::Enter => match data.selected_row {
                    Some(row) => if row < data.server_list.len() {
                        app.with_servers(
                            ServerModuleDataView {
                                selected_server: data.server_list[row as int],
                                ..data
                            },
                        ).on_screen(SelectedModule::UserModule(UserModules::UserList))
                    } else {
                        app
                    },
                    None => app,
                },
                Key::Up => app.with_servers(
                    ServerModuleDataView {
                        selected_row: previous_row(data.selected_row, data.server_list.len()),
                        ..data
                    },
                ),
                Key::Down => app.with_servers(
                    ServerModuleDataView {
                        selected_row: next_row(data.selected_row, data.server_list.len()),
                        ..data
                    },
                ),
                _ => app,
            },
            SelectedModule::ServerModule(ServerModules::ServerEditing(focus)) => {
                let typed = data.draft.with_field(focus, data.draft.field(focus).after_key(key));
                let screen = match key {
                    Key::Esc => ServerModules::ServerList,
                    Key::Up => ServerModules::ServerEditing(focus.predecessor()),
                    Key::Down => ServerModules::ServerEditing(focus.successor()),
                    _ => ServerModules::ServerEditing(focus),
                };
                app.with_servers(ServerModuleDataView { draft: typed.revalidated(), ..data })
                    .on_screen(SelectedModule::ServerModule(screen))
            },
            _ => app,
        }
    }

    /// The outside work that a key press calls for: Enter in the form,
    /// with every flag of the draft set, asks to store the record of the
    /// draft. Nothing else asks for anything.
    pub open spec fn request(app: AppView, key: Key) -> ActionView {
        let draft = app.module_data.server_module.draft;
        if app.selected_module is ServerModule && app.selected_module->ServerModule_0 is ServerEditing
            && key is Enter && draft.all_flags_set() {
            ActionView::SaveServer(draft.record())
        } else {
            ActionView::Idle
        }
    }

    /// Whether the draft can be committed: the form is open and every
    /// flag of the draft is set.
    pub open spec fn ready(app: AppView) -> bool {
        &&& app.selected_module is ServerModule
        &&& app.selected_module->ServerModule_0 is ServerEditing
        &&& app.module_data.server_module.draft.all_flags_set()
    }

    /// The state after committing the draft. Where the draft is ready it
    /// goes to the end of the server list as it stands, its record to the
    /// end of the stored configuration, the draft is emptied and the list
    /// comes back in front. Where it is not, nothing changes.
    pub open spec fn committed(app: AppView) -> AppView {
        let data = app.module_data.server_module;
        if Self::ready(app) {
            let server_list = data.server_list.push(data.draft);
            AppView {
                config: app.config.push(data.draft.record()),
                ..app.with_servers(
                    ServerModuleDataView {
                        server_list,
                        selected_row: settled_row(data.selected_row, server_list.len()),
                        draft: ServerEntryView::blank(),
                        ..data
                    },
                ).on_screen(SelectedModule::ServerModule(ServerModules::ServerList))
            }
        } else {
            app
        }
    }

    /// Reacts to a key press while the server module is in front and says
    /// what outside work it calls for. While another module is in front
    /// nothing happens.
    pub fn input_handling(app: &mut App, key: Key) -> (action: Action)
        ensures
            final(app)@ == Self::after_key(old(app)@, key),
            action@ == Self::request(old(app)@, key),
    {
        match app.selected_module {
            SelectedModule::ServerModule(ServerModules::ServerList) => {
                let len = app.module_data.server_module.server_list.len();
                match key {
                    Key::Esc => {
                        app.should_quit = true;
                    },
                    Key::Char(c) => {
                        if c == 'c' {
                            app.selected_module = SelectedModule::ServerModule(
                                ServerModules::ServerEditing(SelectedInput::default()),
                            );
                        }
                    },
                    Key::Enter => {
                        match app.module_data.server_module.servers_table_state.selected() {
                            Some(row) => {
                                if row < len {
                                    app.module_data.server_module.selected_server =
                                        app.module_data.server_module.server_list[row].clone();
                                    app.selected_module = SelectedModule::UserModule(
                                        UserModules::UserList,
                                    );
                                }
                            },
                            None => {},
                        }
                    },
                    Key::Up => {
                        app.module_data.server_module.servers_table_state.select_previous(len);
                    },
                    Key::Down => {
                        app.module_data.server_module.servers_table_state.select_next(len);
                    },
                    _ => {},
                }
                Action::Idle
            },
            SelectedModule::ServerModule(ServerModules::ServerEditing(selected_input)) => {
                let mut action = Action::Idle;
                match key {
                    Key::Esc => {
                        app.selected_module = SelectedModule::ServerModule(
                            ServerModules::ServerList,
                        );
                    },
                    Key::Up => {
                        app.selected_module = SelectedModule::ServerModule(
                            ServerModules::ServerEditing(selected_input.prev()),
                        );
                    },
                    Key::Down => {
                        app.selected_module = SelectedModule::ServerModule(
                            ServerModules::ServerEditing(selected_input.next()),
                        );
                    },
                    Key::Enter => {
                        if app.module_data.server_module.editable_server_data.verify_input() {
                            action = Action::SaveServer(
                                app.module_data.server_module.editable_server_data.record(),
                            );
                        }
                    },
                    _ => {
                        app.module_data.server_module.editable_server_data.press_key(
                            selected_input,
                            key,
                        );
                    },
                }
                app.module_data.server_module.editable_server_data.update_validity();
                action
            },
            _ => Action::Idle,
        }
    }

    /// Commits the draft once its record is stored: the draft joins the
    /// server list and the stored configuration, the form is emptied and
    /// the list comes back in front. A draft with a flag that is not set,
    /// or a form that is not open, is not committed, and nothing changes.
    pub fn commit(app: &mut App)
        ensures
            final(app)@ == Self::committed(old(app)@),
            !Self::ready(old(app)@) ==> final(app)@ == old(app)@,
            Self::ready(old(app)@) ==> {
                let before = old(app)@.module_data.server_module;
                let after = final(app)@.module_data.server_module;
                &&& after.server_list == before.server_list.push(before.draft)
                &&& after.draft == ServerEntryView::blank()
                &&& final(app)@.config == old(app)@.config.push(before.draft.record())
                &&& final(app)@.selected_module == SelectedModule::ServerModule(
                    ServerModules::ServerList,
                )
            },
    {
        match app.selected_module {
            SelectedModule::ServerModule(ServerModules::ServerEditing(_)) => {
                if app.module_data.server_module.editable_server_data.verify_input() {
                    let config_server = app.module_data.server_module.editable_server_data.record();
                    app.config.add_new_server(config_server);
                    let entry = app.module_data.server_module.editable_server_data.clone();
                    app.module_data.server_module.server_list.push(entry);
                    let len = app.module_data.server_module.server_list.len();
                    app.module_data.server_module.servers_table_state.settle(len);
                    app.module_data.server_module.editable_server_data.clear_form();
                    app.selected_module = SelectedModule::ServerModule(ServerModules::ServerList);
                    assert(app@.module_data.server_module.server_list =~= old(
                        app,
                    )@.module_data.server_module.server_list.push(
                        old(app)@.module_data.server_module.draft,
                    ));
                }
            },
            _ => {},
        }
    }
}

/// The focus walks round the three fields: forward and back again is no
/// step at all, and three steps forward come home.
pub proof fn law_focus_walks_a_cycle(focus: SelectedInput)
    ensures
        focus.successor().predecessor() == focus,
        focus.predecessor().successor() == focus,
        focus.successor().successor().successor() == focus,
        focus.successor() != focus,
{
}

/// An empty form is up to date and cannot be committed: no rule accepts
/// an empty text.
pub proof fn law_blank_server_form_is_invalid()
    ensures
        ServerEntryView::blank().flags_are_current(),
        ServerEntryView::blank().cursors_in_text(),
        !ServerEntryView::blank().all_flags_set(),
{
}

/// While the form is open, after every key press each flag of the draft
/// says what the rule of its field says of the text that the field holds
/// then, whatever the flags said before.
pub proof fn law_server_flags_follow_the_text(app: AppView, key: Key)
    requires
        app.selected_module is ServerModule,
        app.selected_module->ServerModule_0 is ServerEditing,
    ensures
        ServerModule::after_key(app, key).module_data.server_module.draft.flags_are_current(),
{
}

/// A draft with a flag that is not set is not committed: pressing Enter in
/// the form asks for nothing and leaves the server list, the stored
/// configuration and the screen as they are, and committing changes
/// nothing at all.
pub proof fn law_invalid_server_draft_is_kept(app: AppView)
    requires
        app.selected_module is ServerModule,
        app.selected_module->ServerModule_0 is ServerEditing,
        !app.module_data.server_module.draft.all_flags_set(),
    ensures
        ServerModule::request(app, Key::Enter) == ActionView::Idle,
        ServerModule::after_key(app, Key::Enter).selected_module == app.selected_module,
        ServerModule::after_key(app, Key::Enter).module_data.server_module.server_list
            == app.module_data.server_module.server_list,
        ServerModule::after_key(app, Key::Enter).config == app.config,
        ServerModule::committed(app) == app,
{
}

/// A draft with every flag set is committed as one record: pressing Enter
/// in the form asks to store the record of the draft, and committing puts
/// the draft at the end of the server list, which grows by one, its record
/// at the end of the stored configuration, and leaves the form empty and
/// invalid behind the list.
pub proof fn law_valid_server_draft_is_committed(app: AppView)
    requires
        ServerModule::ready(app),
    ensures
        ServerModule::request(app, Key::Enter) == ActionView::SaveServer(
            app.module_data.server_module.draft.record(),
        ),
        ServerModule::committed(app).module_data.server_module.server_list
            == app.module_data.server_module.server_list.push(app.module_data.server_module.draft),
        ServerModule::committed(app).module_data.server_module.server_list.len()
            == app.module_data.server_module.server_list.len() + 1,
        ServerModule::committed(app).config == app.config.push(
            app.module_data.server_module.draft.record(),
        ),
        ServerModule::committed(app).module_data.server_module.draft == ServerEntryView::blank(),
        !ServerModule::committed(app).module_data.server_module.draft.all_flags_set(),
        ServerModule::committed(app).selected_module == SelectedModule::ServerModule(
            ServerModules::ServerList,
        ),
{
}

/// With no server in the list, Enter on the list changes nothing and asks
/// for nothing.
pub proof fn law_nothing_to_select_in_an_empty_list(app: AppView)
    requires
        app.selected_module == SelectedModule::ServerModule(ServerModules::ServerList),
        app.module_data.server_module.server_list.len() == 0,
    ensures
        ServerModule::after_key(app, Key::Enter) == app,
        ServerModule::request(app, Key::Enter) == ActionView::Idle,
{
}

/// A chosen server is a copy: what happens to the list afterwards does not
/// reach it. Committing another server leaves the slot as it is.
pub proof fn law_chosen_server_is_a_copy(app: AppView)
    ensures
        ServerModule::committed(app).module_data.server_module.selected_server
            == app.module_data.server_module.selected_server,
{
}

} // verus!
