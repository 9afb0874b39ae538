//! The application state and the engine that advances it: one signal in,
//! the next state and one piece of outside work out. The caller owns the
//! clock, the terminal, the file and the network; it draws when told to,
//! does the work that is asked for, and reports how it ended.

use vstd::prelude::*;
use crate::config::{records, Config, Server, ServerView};
use crate::keys::{Event, Key};
use crate::modules::selection::{row_fits, settled_row};
use crate::modules::servers::{
    entries, ServerEntry, ServerEntryView, ServerModule, ServerModules,
};
use crate::modules::users::{UserModule, UserModules};
use crate::modules::{ModuleData, ModuleDataView, SelectedModule};

verus! {

/// What went wrong last, for the screen to show until the next key press.
#[derive(Clone, Copy, Debug, PartialEq, Eq)]
pub enum Notice {
    Quiet,
    /// The new server could not be stored.
    SaveFailed,
    /// The new user could not be sent to the server.
    SendFailed,
}

/// The outside work that the engine asks of its caller.
#[derive(Debug, PartialEq, Eq)]
pub enum Action {
    /// Nothing to do.
    Idle,
    /// Show the current state on the screen.
    Draw,
    /// Add this record to the stored configuration.
    SaveServer(Server),
    /// Send a request to create the user `name` to `url`.
    SendUser { url: String, name: String },
}

/// What an `Action` holds, as mathematical values.
pub enum ActionView {
    Idle,
    Draw,
    SaveServer(ServerView),
    SendUser { url: Seq<char>, name: Seq<char> },
}

impl View for Action {
    type V = ActionView;

    open spec fn view(&self) -> ActionView {
        match self {
            Action::Idle => ActionView::Idle,
            Action::Draw => ActionView::Draw,
            Action::SaveServer(server) => ActionView::SaveServer(server@),
            Action::SendUser { url, name } => ActionView::SendUser { url: url@, name: name@ },
        }
    }
}

/// What the engine waits for.
#[derive(Clone, Copy, Debug, PartialEq, Eq)]
pub enum Signal {
    /// The frame timer fired.
    Tick,
    /// The terminal delivered an event.
    Input(Event),
    /// The work that the last action asked for has ended, well or not.
    Finished(bool),
}

/// The whole state of the console.
#[derive(Debug, PartialEq, Eq)]
pub struct App {
    pub should_quit: bool,
    pub selected_module: SelectedModule,
    pub module_data: ModuleData,
    pub config: Config,
    pub notice: Notice,
}

/// What an `App` holds, as mathematical values.
pub struct AppView {
    pub should_quit: bool,
    pub selected_module: SelectedModule,
    pub module_data: ModuleDataView,
    pub config: Seq<ServerView>,
    pub notice: Notice,
}

impl View for App {
    type V = AppView;

    open spec fn view(&self) -> AppView {
        AppView {
            should_quit: self.should_quit,
            selected_module: self.selected_module,
            module_data: self.module_data@,
            config: self.config@,
            notice: self.notice,
        }
    }
}

impl AppView {
    /// The state of a session that has just begun: the server list on the
    /// screen, nothing stored, nothing typed.
    pub open spec fn fresh() -> AppView {
        AppView {
            should_quit: false,
            selected_module: SelectedModule::ServerModule(ServerModules::ServerList),
            module_data: ModuleDataView::fresh(),
            config: Seq::<ServerView>::empty(),
            notice: Notice::Quiet,
        }
    }

    /// The state with another screen in front.
    pub open spec fn on_screen(self, screen: SelectedModule) -> AppView {
        AppView { selected_module: screen, ..self }
    }

    /// The state with `notice` to show.
    pub open spec fn with_notice(self, notice: Notice) -> AppView {
        AppView { notice, ..self }
    }

    /// What holds of the state between any two signals of a session: both
    /// drafts have their cursors inside their texts and their flags say
    /// what the rules say of the texts; each highlighted row is a row of
    /// its list; and the stored configuration holds the records of the
    /// server list, in its order.
    pub open spec fn well_formed(self) -> bool {
        let servers = self.module_data.server_module;
        let users = self.module_data.user_module;
        &&& servers.draft.cursors_in_text()
        &&& servers.draft.flags_are_current()
        &&& row_fits(servers.selected_row, servers.server_list.len())
        &&& self.config == servers.server_list.map_values(
            |entry: ServerEntryView| entry.record(),
        )
        &&& users.draft.cursors_in_text()
        &&& users.draft.flags_are_current()
        &&& row_fits(users.selected_row, users.user_list.len())
    }

    /// The state after the startup: the stored servers taken over, or none
    /// where nothing could be read, and the first of them highlighted.
    pub open spec fn started(self, stored: Option<Seq<ServerView>>) -> AppView {
        let config = match stored {
            Some(servers) => servers,
            None => Seq::<ServerView>::empty(),
        };
        let server_list = config.map_values(|record: ServerView| ServerEntryView::filled(record));
        let servers = self.module_data.server_module;
        AppView {
            config,
            module_data: ModuleDataView {
                server_module: crate::modules::servers::ServerModuleDataView {
                    server_list,
                    selected_row: settled_row(servers.selected_row, server_list.len()),
                    ..servers
                },
                ..self.module_data
            },
            ..self
        }
    }

    /// The state after an event of the terminal. A key press takes the
    /// notice off the screen and goes to the module in front; no other
    /// event changes anything.
    pub open spec fn after_event(self, event: Event) -> AppView {
        match event {
            Event::Key(key) => match self.selected_module {
                SelectedModule::ServerModule(_) => ServerModule::after_key(
                    self.with_notice(Notice::Quiet),
                    key,
                ),
                SelectedModule::UserModule(_) => UserModule::after_key(
                    self.with_notice(Notice::Quiet),
                    key,
                ),
            },
            Event::Other => self,
        }
    }

    /// The outside work that an event of the terminal calls for.
    pub open spec fn request(self, event: Event) -> ActionView {
        match event {
            Event::Key(key) => match self.selected_module {
                SelectedModule::ServerModule(_) => ServerModule::request(self, key),
                SelectedModule::UserModule(_) => UserModule::request(self, key),
            },
            Event::Other => ActionView::Idle,
        }
    }

    /// The state after the work that was asked for has ended. Where it
    /// went well the draft of the module in front is committed. Where it
    /// failed nothing is lost: the form stays open with the draft in it,
    /// and a notice says what failed.
    pub open spec fn after_outcome(self, succeeded: bool) -> AppView {
        if succeeded {
            match self.selected_module {
                SelectedModule::ServerModule(_) => ServerModule::committed(self),
                SelectedModule::UserModule(_) => UserModule::committed(self),
            }
        } else {
            match self.selected_module {
                SelectedModule::ServerModule(ServerModules::ServerEditing(_)) => self.with_notice(
                    Notice::SaveFailed,
                ),
                SelectedModule::UserModule(UserModules::UserEditing(_)) => self.with_notice(
                    Notice::SendFailed,
                ),
                _ => self,
            }
        }
    }

    /// The state after a signal. A tick changes nothing.
    pub open spec fn after_signal(self, signal: Signal) -> AppView {
        match signal {
            Signal::Tick => self,
            Signal::Input(event) => self.after_event(event),
            Signal::Finished(succeeded) => self.after_outcome(succeeded),
        }
    }

    /// The outside work that a signal calls for: a tick asks for a frame,
    /// an event for what its module asks, the end of work for nothing.
    pub open spec fn wanted(self, signal: Signal) -> ActionView {
        match signal {
            Signal::Tick => ActionView::Draw,
            Signal::Input(event) => self.request(event),
            Signal::Finished(_) => ActionView::Idle,
        }
    }
}

impl Default for App {
    fn default() -> (app: Self)
        ensures
            app@ == AppView::fresh(),
    {
        Self {
            should_quit: false,
            module_data: ModuleData::default(),
            selected_module: SelectedModule::ServerModule(ServerModules::ServerList),
            config: Config::default(),
            notice: Notice::Quiet,
        }
    }
}

impl App {
    /// Begins a session with what was read of the stored configuration:
    /// the list that the file held, or `None` where there was no file or
    /// it could not be read as one. The result tells the caller to write
    /// the file anew.
    pub fn start(&mut self, stored: Option<Vec<Server>>) -> (rewrite: bool)
        ensures
            rewrite == stored is None,
            final(self)@ == old(self)@.started(
                match stored {
                    Some(servers) => Some(records(servers@)),
                    None => None,
                },
            ),
    {
        let rewrite = self.config.initialize(stored);
        let mut server_list: Vec<ServerEntry> = Vec::new();
        let count = self.config.servers.len();
        let mut i: usize = 0;
        while i < count
            invariant
                i <= count,
                count == self.config.servers@.len(),
                server_list@.len() == i,
                forall|k: int|
                    0 <= k < i ==> (#[trigger] server_list@[k])@ == ServerEntryView::filled(
                        self.config.servers@[k]@,
                    ),
            decreases count - i,
        {
            server_list.push(ServerEntry::from(&self.config.servers[i]));
            i = i + 1;
        }
        self.module_data.server_module.server_list = server_list;
        self.module_data.server_module.servers_table_state.settle(count);
        assert(self@.module_data.server_module.server_list =~= old(self)@.started(
            match stored {
                Some(servers) => Some(records(servers@)),
                None => None,
            },
        ).module_data.server_module.server_list);
        rewrite
    }

    /// Reacts to an event of the terminal and says what outside work it
    /// calls for.
    pub fn handle_event(&mut self, event: &Event) -> (action: Action)
        ensures
            final(self)@ == old(self)@.after_event(*event),
            action@ == old(self)@.request(*event),
            !(action is Draw),
    {
        match event {
            Event::Key(key) => {
                self.notice = Notice::Quiet;
                match self.selected_module {
                    SelectedModule::ServerModule(_) => ServerModule::input_handling(self, *key),
                    SelectedModule::UserModule(_) => UserModule::input_handling(self, *key),
                }
            },
            Event::Other => Action::Idle,
        }
    }

    /// Takes note of how the outside work ended that the last action asked
    /// for.
    pub fn finish(&mut self, succeeded: bool)
        ensures
            final(self)@ == old(self)@.after_outcome(succeeded),
    {
        if succeeded {
            match self.selected_module {
                SelectedModule::ServerModule(_) => ServerModule::commit(self),
                SelectedModule::UserModule(_) => UserModule::commit(self),
            }
        } else {
            match self.selected_module {
                SelectedModule::ServerModule(ServerModules::ServerEditing(_)) => {
                    self.notice = Notice::SaveFailed;
                },
                SelectedModule::UserModule(UserModules::UserEditing(_)) => {
                    self.notice = Notice::SendFailed;
                },
                _ => {},
            }
        }
    }

    /// One turn of the engine: takes the signal that came first and gives
    /// the work that it calls for. A tick never touches the state.
    pub fn step(&mut self, signal: Signal) -> (action: Action)
        ensures
            final(self)@ == old(self)@.after_signal(signal),
            action@ == old(self)@.wanted(signal),
    {
        match signal {
            Signal::Tick => Action::Draw,
            Signal::Input(event) => self.handle_event(&event),
            Signal::Finished(succeeded) => {
                self.finish(succeeded);
                Action::Idle
            },
        }
    }
}

/// A session begins well formed.
pub proof fn law_fresh_is_well_formed()
    ensures
        AppView::fresh().well_formed(),
{
    assert(AppView::fresh().config =~= AppView::fresh().module_data.server_module.server_list.map_values(
        |entry: ServerEntryView| entry.record(),
    ));
}

/// The startup keeps a state well formed, whatever was stored.
pub proof fn law_startup_keeps_well_formed(app: AppView, stored: Option<Seq<ServerView>>)
    requires
        app.well_formed(),
    ensures
        app.started(stored).well_formed(),
{
    let after = app.started(stored);
    assert(after.config =~= after.module_data.server_module.server_list.map_values(
        |entry: ServerEntryView| entry.record(),
    ));
}

/// No signal leads out of the well-formed states: through a whole session
/// the cursors of the drafts stay inside their texts, the flags of the
/// drafts stay up to date, each highlight stays on a row of its list, and
/// the stored configuration stays the record of the server list.
pub proof fn law_signals_keep_well_formed(app: AppView, signal: Signal)
    requires
        app.well_formed(),
    ensures
        app.after_signal(signal).well_formed(),
{
    let after = app.after_signal(signal);
    let before_servers = app.module_data.server_module;
    let before_users = app.module_data.user_module;
    match signal {
        Signal::Tick => {},
        Signal::Input(Event::Other) => {},
        Signal::Input(Event::Key(key)) => {
            match app.selected_module {
                SelectedModule::ServerModule(ServerModules::ServerEditing(focus)) => {
                    crate::modules::law_cursor_in_text_after_key(
                        before_servers.draft.field(focus),
                        key,
                    );
                },
                SelectedModule::UserModule(UserModules::UserEditing(focus)) => {
                    crate::modules::law_cursor_in_text_after_key(
                        before_users.draft.field(focus),
                        key,
                    );
                },
                _ => {},
            }
        },
        Signal::Finished(succeeded) => {
            if succeeded && ServerModule::ready(app) {
                let record_of = |entry: ServerEntryView| entry.record();
                assert(before_servers.server_list.push(before_servers.draft).map_values(record_of)
                    =~= before_servers.server_list.map_values(record_of).push(
                    before_servers.draft.record(),
                ));
            }
        },
    }
}

/// A tick draws and never changes the state.
pub proof fn law_tick_only_draws(app: AppView)
    ensures
        app.after_signal(Signal::Tick) == app,
        app.wanted(Signal::Tick) == ActionView::Draw,
{
}

/// Failed outside work loses nothing: the screen, the drafts, the lists
/// and the stored configuration are what they were; only the notice may
/// differ.
pub proof fn law_failure_keeps_the_draft(app: AppView)
    ensures
        app.after_outcome(false) == app.with_notice(app.after_outcome(false).notice),
        (app.selected_module is ServerModule && app.selected_module->ServerModule_0
            is ServerEditing) ==> app.after_outcome(false).notice == Notice::SaveFailed,
        (app.selected_module is UserModule && app.selected_module->UserModule_0 is UserEditing)
            ==> app.after_outcome(false).notice == Notice::SendFailed,
{
}

} // verus!
