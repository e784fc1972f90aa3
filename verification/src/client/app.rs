//! The client's screens and how keys and server updates move between them.
use crate::client::input::{InputEvent, KeyInput};
use crate::client::response::DomainResponse;
use crate::client::response_list::{log_after_push, shown_responses, ResponseListWidget};
use crate::client::service_form::{field_count, focus_index, form_next, form_prev, SelectedService, ServiceRequest};
use crate::client::service_list::{ServiceAction, ServiceListWidget, FlatListItemType};
use vstd::prelude::*;

verus! {

/// The two panes of the main screen.
#[derive(Debug, Clone, Copy, PartialEq, Eq, Structural)]
pub enum CurrentScreenMain {
    Services,
    Responses,
}

/// The screen the client shows.
#[derive(Debug, Clone, Copy, PartialEq, Eq, Structural)]
pub enum CurrentScreen {
    Main(CurrentScreenMain),
    ServiceDetail,
    ResponseDetail,
    Exiting,
}

impl Default for CurrentScreen {
    fn default() -> (r: Self)
        ensures
            r == CurrentScreen::Main(CurrentScreenMain::Services),
    {
        CurrentScreen::Main(CurrentScreenMain::Services)
    }
}

/// The selection after moving down one row; the first row when nothing is
/// selected (the list clamps it to its length when drawn).
pub open spec fn next_selection(sel: Option<usize>) -> Option<usize> {
    match sel {
        Some(i) => Some(if i == usize::MAX { i } else { (i + 1) as usize }),
        None => Some(0),
    }
}

/// The selection after moving up one row; the last row when nothing is
/// selected.
pub open spec fn previous_selection(sel: Option<usize>) -> Option<usize> {
    match sel {
        Some(i) => Some(if i == 0 { 0 } else { (i - 1) as usize }),
        None => Some(usize::MAX),
    }
}

/// `ratatui::widgets::ListState::select_next`, on the selected index.
pub fn select_next(sel: Option<usize>) -> (r: Option<usize>)
    ensures
        r == next_selection(sel),
{
    match sel {
        Some(i) => Some(i.saturating_add(1)),
        None => Some(0),
    }
}

/// `ratatui::widgets::ListState::select_previous`, on the selected index.
pub fn select_previous(sel: Option<usize>) -> (r: Option<usize>)
    ensures
        r == previous_selection(sel),
{
    match sel {
        Some(i) => Some(i.saturating_sub(1)),
        None => Some(usize::MAX),
    }
}

/// What the client's event loop keeps between events: the screen, the
/// notification filter, the exit flag and the selections of both lists.
#[derive(Debug, Clone, Copy, PartialEq, Eq, Structural)]
pub struct NavigationState {
    pub current_screen: CurrentScreen,
    pub hide_game_tick_notification: bool,
    pub should_exit: bool,
    pub service_selected: Option<usize>,
    pub response_selected: Option<usize>,
}

/// What the main screen does with a pressed key.
pub open spec fn main_key_transition(nav: NavigationState, code: KeyInput, responses_empty: bool) -> NavigationState {
    let on_services = nav.current_screen == CurrentScreen::Main(CurrentScreenMain::Services);
    let on_responses = nav.current_screen == CurrentScreen::Main(CurrentScreenMain::Responses);
    match code {
        KeyInput::Char('e') => NavigationState {
            hide_game_tick_notification: !nav.hide_game_tick_notification,
            response_selected: if on_responses { Some(0) } else { nav.response_selected },
            ..nav
        },
        KeyInput::Char('h') | KeyInput::Left => NavigationState {
            service_selected: Some(0),
            response_selected: None,
            current_screen: CurrentScreen::Main(CurrentScreenMain::Services),
            ..nav
        },
        KeyInput::Char('l') | KeyInput::Right => if !responses_empty {
            NavigationState {
                service_selected: None,
                response_selected: Some(0),
                current_screen: CurrentScreen::Main(CurrentScreenMain::Responses),
                ..nav
            }
        } else {
            nav
        },
        KeyInput::Char('j') | KeyInput::Down => if on_services {
            NavigationState { service_selected: next_selection(nav.service_selected), ..nav }
        } else if on_responses {
            NavigationState { response_selected: previous_selection(nav.response_selected), ..nav }
        } else {
            nav
        },
        KeyInput::Char('k') | KeyInput::Up => if on_services {
            NavigationState { service_selected: previous_selection(nav.service_selected), ..nav }
        } else if on_responses {
            NavigationState { response_selected: next_selection(nav.response_selected), ..nav }
        } else {
            nav
        },
        KeyInput::Char('g') | KeyInput::Home => if on_services {
            NavigationState { service_selected: Some(0), ..nav }
        } else if on_responses {
            NavigationState { response_selected: Some(usize::MAX), ..nav }
        } else {
            nav
        },
        KeyInput::Char('G') | KeyInput::End => if on_services {
            NavigationState { service_selected: Some(usize::MAX), ..nav }
        } else if on_responses {
            NavigationState { response_selected: Some(0), ..nav }
        } else {
            nav
        },
        KeyInput::Esc => NavigationState { current_screen: CurrentScreen::Exiting, ..nav },
        _ => nav,
    }
}

/// Whether `code` is one of the keys the main screen acts on.
pub open spec fn is_main_key(code: KeyInput) -> bool {
    ||| code == KeyInput::Char('e')
    ||| code == KeyInput::Char('h') || code == KeyInput::Left
    ||| code == KeyInput::Char('l') || code == KeyInput::Right
    ||| code == KeyInput::Char('j') || code == KeyInput::Down
    ||| code == KeyInput::Char('k') || code == KeyInput::Up
    ||| code == KeyInput::Char('g') || code == KeyInput::Home
    ||| code == KeyInput::Char('G') || code == KeyInput::End
    ||| code == KeyInput::Esc
}

/// The keys of the main screen. On the services pane, `Home`/`g` selects
/// the first row and `End`/`G` the last one (the end of the list), `Down`/
/// `j` moves one row down and `Up`/`k` one row up, stopping at either end;
/// on the responses pane, which lists the newest response first, the same
/// keys act the other way round. `h`/`Left` goes to the services pane at its
/// first row, `l`/`Right` to the responses pane at its first row when there
/// is a response, `Esc` opens the exit prompt, and `e` toggles whether game
/// ticks are hidden. No key touches a selection of the pane that is not
/// shown, and any other key changes nothing.
pub proof fn lemma_main_keys(nav: NavigationState, responses_empty: bool, code: KeyInput)
    ensures
        ({
            let on_services = nav.current_screen == CurrentScreen::Main(CurrentScreenMain::Services);
            let on_responses = nav.current_screen == CurrentScreen::Main(CurrentScreenMain::Responses);
            let after = main_key_transition(nav, code, responses_empty);
            &&& (code == KeyInput::Home || code == KeyInput::Char('g')) ==> {
                &&& on_services ==> after == NavigationState { service_selected: Some(0), ..nav }
                &&& on_responses ==> after == NavigationState { response_selected: Some(usize::MAX), ..nav }
                &&& !on_services && !on_responses ==> after == nav
            }
            &&& (code == KeyInput::End || code == KeyInput::Char('G')) ==> {
                &&& on_services ==> after == NavigationState { service_selected: Some(usize::MAX), ..nav }
                &&& on_responses ==> after == NavigationState { response_selected: Some(0), ..nav }
                &&& !on_services && !on_responses ==> after == nav
            }
            &&& (code == KeyInput::Down || code == KeyInput::Char('j')) && on_services ==> {
                &&& after.current_screen == nav.current_screen
                &&& after.response_selected == nav.response_selected
                &&& after.service_selected matches Some(n) && match nav.service_selected {
                    Some(i) => n == i + 1 || (i == usize::MAX && n == i),
                    None => n == 0,
                }
            }
            &&& (code == KeyInput::Up || code == KeyInput::Char('k')) && on_services ==> {
                &&& after.current_screen == nav.current_screen
                &&& after.response_selected == nav.response_selected
                &&& after.service_selected matches Some(n) && match nav.service_selected {
                    Some(i) => n == i - 1 || (i == 0 && n == 0),
                    None => n == usize::MAX,
                }
            }
            &&& (code == KeyInput::Down || code == KeyInput::Char('j')) && on_responses ==> {
                &&& after.service_selected == nav.service_selected
                &&& after.response_selected matches Some(n) && match nav.response_selected {
                    Some(i) => n == i - 1 || (i == 0 && n == 0),
                    None => n == usize::MAX,
                }
            }
            &&& (code == KeyInput::Up || code == KeyInput::Char('k')) && on_responses ==> {
                &&& after.service_selected == nav.service_selected
                &&& after.response_selected matches Some(n) && match nav.response_selected {
                    Some(i) => n == i + 1 || (i == usize::MAX && n == i),
                    None => n == 0,
                }
            }
            &&& (code == KeyInput::Down || code == KeyInput::Char('j') || code == KeyInput::Up || code
                == KeyInput::Char('k')) && !on_services && !on_responses ==> after == nav
            &&& (code == KeyInput::Left || code == KeyInput::Char('h')) ==> after == NavigationState {
                current_screen: CurrentScreen::Main(CurrentScreenMain::Services),
                service_selected: Some(0),
                response_selected: None,
                ..nav
            }
            &&& (code == KeyInput::Right || code == KeyInput::Char('l')) ==> after == if responses_empty {
                nav
            } else {
                NavigationState {
                    current_screen: CurrentScreen::Main(CurrentScreenMain::Responses),
                    service_selected: None,
                    response_selected: Some(0),
                    ..nav
                }
            }
            &&& code == KeyInput::Esc ==> after == NavigationState { current_screen: CurrentScreen::Exiting, ..nav }
            &&& code == KeyInput::Char('e') ==> {
                &&& after.hide_game_tick_notification == !nav.hide_game_tick_notification
                &&& after.current_screen == nav.current_screen
                &&& after.service_selected == nav.service_selected
                &&& after.response_selected == if on_responses { Some(0) } else { nav.response_selected }
            }
            &&& !is_main_key(code) ==> after == nav
            &&& after.should_exit == nav.should_exit
        }),
{
}

/// What pressing `Enter` on the main screen leads to.
#[derive(Debug, Clone, Copy, PartialEq, Eq, Structural)]
pub enum EnterOutcome {
    /// Nothing to do.
    Nothing,
    /// Set up the game stream with the session's token.
    PlayStream,
    /// Show the request form of this service.
    OpenService(ServiceAction),
    /// Show the `index`-th listed response in full.
    OpenResponse(usize),
}

/// The action of the selected row of `rows`, if it is a service entry.
pub open spec fn selected_action(rows: Seq<FlatListItemType>, sel: Option<usize>) -> Option<ServiceAction> {
    match sel {
        Some(i) => if (i as int) < rows.len() {
            match rows[i as int] {
                FlatListItemType::Service(a) => Some(a),
                FlatListItemType::CategoryHeader => None,
            }
        } else {
            None
        },
        None => None,
    }
}

/// The outcome of `Enter`: on the services pane, the selected service (the
/// game stream only with a session token, every other service through its
/// form); on the responses pane, the selected listed response.
pub open spec fn enter_outcome(
    nav: NavigationState,
    rows: Seq<FlatListItemType>,
    shown: Seq<DomainResponse>,
    has_token: bool,
) -> EnterOutcome {
    if nav.current_screen == CurrentScreen::Main(CurrentScreenMain::Services) {
        match selected_action(rows, nav.service_selected) {
            Some(ServiceAction::PlayStream) => if has_token {
                EnterOutcome::PlayStream
            } else {
                EnterOutcome::Nothing
            },
            Some(a) => EnterOutcome::OpenService(a),
            None => EnterOutcome::Nothing,
        }
    } else if nav.current_screen == CurrentScreen::Main(CurrentScreenMain::Responses) {
        match nav.response_selected {
            Some(i) => if (i as int) < shown.len() {
                EnterOutcome::OpenResponse(i)
            } else {
                EnterOutcome::Nothing
            },
            None => EnterOutcome::Nothing,
        }
    } else {
        EnterOutcome::Nothing
    }
}

/// The screen shown once an `Enter` outcome has been acted on.
pub open spec fn screen_after_enter(nav: NavigationState, outcome: EnterOutcome) -> CurrentScreen {
    match outcome {
        EnterOutcome::OpenService(_) => CurrentScreen::ServiceDetail,
        EnterOutcome::OpenResponse(_) => CurrentScreen::ResponseDetail,
        _ => nav.current_screen,
    }
}

/// No key of the main screen ends the client: only confirming the exit
/// prompt does.
pub proof fn lemma_main_keys_never_exit(nav: NavigationState, code: KeyInput, responses_empty: bool)
    ensures
        main_key_transition(nav, code, responses_empty).should_exit == nav.should_exit,
{
}

/// `e` toggles the game tick filter: pressing it twice restores it.
pub proof fn lemma_toggle_filter_twice(nav: NavigationState, responses_empty: bool)
    ensures
        main_key_transition(
            main_key_transition(nav, KeyInput::Char('e'), responses_empty),
            KeyInput::Char('e'),
            responses_empty,
        ).hide_game_tick_notification == nav.hide_game_tick_notification,
{
}

/// `Esc` opens the exit prompt, and answering `n` there returns to the
/// services pane without exiting.
pub proof fn lemma_escape_then_decline_returns_to_services(nav: NavigationState, responses_empty: bool)
    ensures
        ({
            let prompt = main_key_transition(nav, KeyInput::Esc, responses_empty);
            &&& prompt.current_screen == CurrentScreen::Exiting
            &&& prompt.should_exit == nav.should_exit
        }),
{
}

/// The responses pane is only entered when there is a response to show.
pub proof fn lemma_responses_pane_needs_responses(nav: NavigationState, code: KeyInput)
    requires
        nav.current_screen != CurrentScreen::Main(CurrentScreenMain::Responses),
    ensures
        main_key_transition(nav, code, true).current_screen != CurrentScreen::Main(
            CurrentScreenMain::Responses,
        ),
{
}

impl NavigationState {
    /// The state when the client starts: the services pane, nothing hidden
    /// or selected.
    pub fn new() -> (r: Self)
        ensures
            r.current_screen == CurrentScreen::Main(CurrentScreenMain::Services),
            !r.hide_game_tick_notification,
            !r.should_exit,
            r.service_selected is None,
            r.response_selected is None,
    {
        NavigationState {
            current_screen: CurrentScreen::Main(CurrentScreenMain::Services),
            hide_game_tick_notification: false,
            should_exit: false,
            service_selected: None,
            response_selected: None,
        }
    }

    /// Handles an event on the main screen. Only pressed keys count; returns
    /// whether `Enter` was pressed (see `handle_enter`).
    pub fn handle_main(&mut self, event: InputEvent, responses_empty: bool) -> (enter: bool)
        ensures
            match event {
                InputEvent::Key { code, is_press, .. } => if is_press {
                    &&& *final(self) == main_key_transition(*old(self), code, responses_empty)
                    &&& enter == (code == KeyInput::Enter)
                } else {
                    *final(self) == *old(self) && !enter
                },
                InputEvent::Other => *final(self) == *old(self) && !enter,
            },
    {
        let (code, is_press) = match event {
            InputEvent::Key { code, is_press, .. } => (code, is_press),
            InputEvent::Other => {
                return false;
            },
        };
        if !is_press {
            return false;
        }
        let on_services = self.current_screen == CurrentScreen::Main(CurrentScreenMain::Services);
        let on_responses = self.current_screen == CurrentScreen::Main(CurrentScreenMain::Responses);
        match code {
            KeyInput::Char('e') => {
                self.hide_game_tick_notification = !self.hide_game_tick_notification;
                if on_responses {
                    self.response_selected = Some(0);
                }
            },
            KeyInput::Char('h') | KeyInput::Left => {
                self.service_selected = Some(0);
                self.response_selected = None;
                self.current_screen = CurrentScreen::Main(CurrentScreenMain::Services);
            },
            KeyInput::Char('l') | KeyInput::Right => {
                if !responses_empty {
                    self.service_selected = None;
                    self.response_selected = Some(0);
                    self.current_screen = CurrentScreen::Main(CurrentScreenMain::Responses);
                }
            },
            KeyInput::Char('j') | KeyInput::Down => {
                if on_services {
                    self.service_selected = select_next(self.service_selected);
                } else if on_responses {
                    self.response_selected = select_previous(self.response_selected);
                }
            },
            KeyInput::Char('k') | KeyInput::Up => {
                if on_services {
                    self.service_selected = select_previous(self.service_selected);
                } else if on_responses {
                    self.response_selected = select_next(self.response_selected);
                }
            },
            KeyInput::Char('g') | KeyInput::Home => {
                if on_services {
                    self.service_selected = Some(0);
                } else if on_responses {
                    self.response_selected = Some(usize::MAX);
                }
            },
            KeyInput::Char('G') | KeyInput::End => {
                if on_services {
                    self.service_selected = Some(usize::MAX);
                } else if on_responses {
                    self.response_selected = Some(0);
                }
            },
            KeyInput::Enter => {
                return true;
            },
            KeyInput::Esc => {
                self.current_screen = CurrentScreen::Exiting;
            },
            _ => {},
        }
        false
    }

    /// Decides what `Enter` on the main screen does and switches to the
    /// screen that shows it.
    pub fn handle_enter(
        &mut self,
        services: &ServiceListWidget,
        responses: &ResponseListWidget,
        has_token: bool,
    ) -> (outcome: EnterOutcome)
        ensures
            outcome == enter_outcome(
                *old(self),
                services.rows(),
                shown_responses(responses.responses@, old(self).hide_game_tick_notification),
                has_token,
            ),
            *final(self) == (NavigationState {
                current_screen: screen_after_enter(*old(self), outcome),
                ..*old(self)
            }),
    {
        if self.current_screen == CurrentScreen::Main(CurrentScreenMain::Services) {
            match services.get_selected_action(self.service_selected) {
                Some(ServiceAction::PlayStream) => {
                    if has_token {
                        return EnterOutcome::PlayStream;
                    }
                    return EnterOutcome::Nothing;
                },
                Some(action) => {
                    self.current_screen = CurrentScreen::ServiceDetail;
                    return EnterOutcome::OpenService(action);
                },
                None => {
                    return EnterOutcome::Nothing;
                },
            }
        }
        if self.current_screen == CurrentScreen::Main(CurrentScreenMain::Responses) {
            match self.response_selected {
                Some(index) => {
                    match responses.get_response(index, self.hide_game_tick_notification) {
                        Some(_) => {
                            self.current_screen = CurrentScreen::ResponseDetail;
                            return EnterOutcome::OpenResponse(index);
                        },
                        None => {
                            return EnterOutcome::Nothing;
                        },
                    }
                },
                None => {
                    return EnterOutcome::Nothing;
                },
            }
        }
        EnterOutcome::Nothing
    }

    /// Handles an event on the exit prompt: `y` confirms, `n` goes back to
    /// the services pane.
    pub fn handle_exit(&mut self, event: InputEvent)
        ensures
            *final(self) == match event {
                InputEvent::Key { code: KeyInput::Char('y'), .. } => NavigationState {
                    should_exit: true,
                    ..*old(self)
                },
                InputEvent::Key { code: KeyInput::Char('n'), .. } => NavigationState {
                    current_screen: CurrentScreen::Main(CurrentScreenMain::Services),
                    ..*old(self)
                },
                _ => *old(self),
            },
    {
        if let InputEvent::Key { code, .. } = event {
            match code {
                KeyInput::Char('y') => {
                    self.should_exit = true;
                },
                KeyInput::Char('n') => {
                    self.current_screen = CurrentScreen::Main(CurrentScreenMain::Services);
                },
                _ => {},
            }
        }
    }

    /// Adds an update from the server to the log. When the responses are on
    /// screen, the selection moves along so that it stays on the same entry,
    /// unless the update is a hidden game tick notification.
    pub fn on_stream_update(&mut self, responses: &mut ResponseListWidget, response: DomainResponse)
        ensures
            final(responses).responses@ == crate::client::response_list::log_after_push(
                old(responses).responses@,
                response,
            ),
            ({
                let watching = old(self).current_screen == CurrentScreen::Main(
                    CurrentScreenMain::Responses,
                ) || old(self).current_screen == CurrentScreen::ResponseDetail;
                let follows = watching && !(crate::client::response::is_game_tick(response)
                    && old(self).hide_game_tick_notification);
                *final(self) == if follows {
                    NavigationState {
                        response_selected: next_selection(old(self).response_selected),
                        ..*old(self)
                    }
                } else {
                    *old(self)
                }
            }),
    {
        let watching = self.current_screen == CurrentScreen::Main(CurrentScreenMain::Responses)
            || self.current_screen == CurrentScreen::ResponseDetail;
        let is_tick = response.is_game_tick_notification();
        responses.push(response);
        if is_tick {
            if !self.hide_game_tick_notification && watching {
                self.response_selected = select_next(self.response_selected);
            }
        } else {
            if watching {
                self.response_selected = select_next(self.response_selected);
            }
        }
    }
}


/// What a key does in a service's request form.
#[derive(Debug, Clone, Copy, PartialEq, Eq, Structural)]
pub enum ServiceDetailCommand {
    /// Not a key press: nothing happens.
    Ignore,
    /// `Enter`: send the request.
    Submit,
    /// `Alt`+`p`: paste the yank buffer into the focused field.
    PasteYankBuffer,
    /// `Esc`: back to the services pane.
    Cancel,
    /// `Tab`: focus the next field.
    NextField,
    /// `Shift`+`Tab`: focus the previous field.
    PreviousField,
    /// Any other key: edit the focused field with it.
    EditField,
}

/// The command a key stands for in a request form.
pub open spec fn service_detail_command(event: InputEvent) -> ServiceDetailCommand {
    match event {
        InputEvent::Key { code, is_press, alt } => if !is_press {
            ServiceDetailCommand::Ignore
        } else {
            match code {
                KeyInput::Enter => ServiceDetailCommand::Submit,
                KeyInput::Char('p') => if alt {
                    ServiceDetailCommand::PasteYankBuffer
                } else {
                    ServiceDetailCommand::EditField
                },
                KeyInput::Esc => ServiceDetailCommand::Cancel,
                KeyInput::Tab => ServiceDetailCommand::NextField,
                KeyInput::BackTab => ServiceDetailCommand::PreviousField,
                _ => ServiceDetailCommand::EditField,
            }
        },
        InputEvent::Other => ServiceDetailCommand::Ignore,
    }
}

/// What a form command asks of the text of one field.
#[derive(Debug, Clone, Copy, PartialEq, Eq, Structural)]
pub enum FieldEdit {
    /// Insert the yank buffer at the cursor.
    InsertYankBuffer,
    /// Hand the key to the field's editor.
    Input,
}

/// The form after `command`, and the field whose text the command edits
/// (with how): `Tab` and `Shift`+`Tab` move the focus, pasting and any
/// other key edit the focused field, and the other commands change nothing
/// here.
pub open spec fn form_after_command(s: SelectedService, command: ServiceDetailCommand) -> (
    SelectedService,
    Option<(int, FieldEdit)>,
) {
    match command {
        ServiceDetailCommand::NextField => (form_next(s), None),
        ServiceDetailCommand::PreviousField => (form_prev(s), None),
        ServiceDetailCommand::PasteYankBuffer => (s, Some((focus_index(s), FieldEdit::InsertYankBuffer))),
        ServiceDetailCommand::EditField => (s, Some((focus_index(s), FieldEdit::Input))),
        _ => (s, None),
    }
}

impl SelectedService {
    /// Carries out `command` on the form: moves the focus, or names the
    /// focused field and the edit to make to its text. Sending and
    /// cancelling are up to the caller.
    pub fn apply_command(&mut self, command: ServiceDetailCommand) -> (edit: Option<(usize, FieldEdit)>)
        ensures
            ({
                let (form, e) = form_after_command(*old(self), command);
                &&& *final(self) == form
                &&& e == match edit {
                    Some((i, k)) => Some((i as int, k)),
                    None => None,
                }
            }),
            edit matches Some((i, _)) ==> i < field_count(*final(self)),
    {
        match command {
            ServiceDetailCommand::NextField => {
                self.advance();
                None
            },
            ServiceDetailCommand::PreviousField => {
                self.previous();
                None
            },
            ServiceDetailCommand::PasteYankBuffer => Some((self.focused_field(), FieldEdit::InsertYankBuffer)),
            ServiceDetailCommand::EditField => Some((self.focused_field(), FieldEdit::Input)),
            _ => None,
        }
    }
}

/// Why a request form's event could not be handled.
#[derive(Debug, Clone, Copy, PartialEq, Eq, Structural)]
pub enum ServiceDetailError {
    /// The request form screen is shown but no form is open.
    MissingSelectedService,
}

/// The session: the token and user name of the last successful login.
#[derive(Debug)]
pub struct Session {
    pub maybe_token: Option<String>,
    pub maybe_username: Option<String>,
}

impl Session {
    /// A session before any login.
    pub fn new() -> (r: Self)
        ensures
            r.maybe_token is None,
            r.maybe_username is None,
    {
        Session { maybe_token: None, maybe_username: None }
    }
}

/// What the service answered to a request sent from a form.
#[derive(Debug)]
pub enum ServiceReply {
    /// The request succeeded: the response to log, and the session token
    /// when the request was a login.
    Succeeded { response: DomainResponse, token: Option<String> },
    /// The request failed: the failure as a response.
    Failed { response: DomainResponse },
}

/// The response a reply carries.
pub open spec fn reply_response(reply: ServiceReply) -> DomainResponse {
    match reply {
        ServiceReply::Succeeded { response, .. } => response,
        ServiceReply::Failed { response } => response,
    }
}

/// Whether the form is closed after `reply` to `request`: always for a
/// login and for the administration requests, on success only for the
/// others (a failure is passed on and leaves form, screen and log alone).
pub open spec fn reply_closes_form(request: ServiceRequest, reply: ServiceReply) -> bool {
    match request {
        ServiceRequest::Login { .. } | ServiceRequest::CreateUser { .. } | ServiceRequest::GetUser { .. }
        | ServiceRequest::DeleteUser { .. } => true,
        _ => reply is Succeeded,
    }
}

/// Whether the reply's response is added to the log: whenever the form is
/// closed, except for the game requests (business listing query and
/// acquisition), whose answers are not logged.
pub open spec fn reply_is_logged(request: ServiceRequest, reply: ServiceReply) -> bool {
    reply_closes_form(request, reply) && match request {
        ServiceRequest::QueryBusinessListings { .. } | ServiceRequest::AcquireBusinessListing { .. } => false,
        _ => true,
    }
}

/// The session after `reply` to `request`: a successful login with a token
/// records the token and the user name it was made with.
pub open spec fn session_after_reply(
    token: Option<String>,
    user: Option<String>,
    request: ServiceRequest,
    reply: ServiceReply,
) -> (Option<String>, Option<String>) {
    match (request, reply) {
        (ServiceRequest::Login { user_name, .. }, ServiceReply::Succeeded { token: Some(t), .. }) => (
            Some(t),
            Some(user_name),
        ),
        _ => (token, user),
    }
}

/// What happens to the log when a request is answered: the answers to a
/// login and to the administration requests (create, read and delete a
/// user) are always logged and close the form; the answers to the account
/// requests (registration, its verification and resending the code) are
/// logged and close the form when they succeed, and a failure leaves form
/// and log alone; the answers to the two game requests (querying and
/// acquiring business listings) are never logged, and close the form when
/// they succeed. So every reply that closes the form is logged, except the
/// game requests'.
pub proof fn lemma_replies_logged(request: ServiceRequest, reply: ServiceReply)
    ensures
        (request is Login || request is CreateUser || request is GetUser || request is DeleteUser) ==> reply_closes_form(
            request,
            reply,
        ) && reply_is_logged(request, reply),
        (request is Register || request is VerifyRegistration || request is ResendVerification) ==> (reply_closes_form(
            request,
            reply,
        ) <==> reply is Succeeded) && (reply_is_logged(request, reply) <==> reply is Succeeded),
        (request is QueryBusinessListings || request is AcquireBusinessListing) ==> !reply_is_logged(request, reply)
            && (reply_closes_form(request, reply) <==> reply is Succeeded),
        !(request is QueryBusinessListings || request is AcquireBusinessListing) ==> (reply_is_logged(request, reply)
            <==> reply_closes_form(request, reply)),
        reply is Succeeded ==> reply_closes_form(request, reply),
{
}

/// A successful login with a token opens the session under the name it was
/// made with; nothing else changes the session.
pub proof fn lemma_only_logins_open_sessions(
    token: Option<String>,
    user: Option<String>,
    request: ServiceRequest,
    reply: ServiceReply,
)
    ensures
        request matches ServiceRequest::Login { user_name, .. } ==> (reply matches ServiceReply::Succeeded {
            token: Some(t),
            ..
        } ==> session_after_reply(token, user, request, reply) == (Some(t), Some(user_name))),
        !(request is Login && reply matches ServiceReply::Succeeded { token: Some(_), .. })
            ==> session_after_reply(token, user, request, reply) == (token, user),
{
}

impl NavigationState {
    /// Handles an event in a request form: with no open form it fails and
    /// changes nothing; otherwise `Esc` returns to the services pane and
    /// every other command is carried out on the form by the caller.
    pub fn handle_service_detail(&mut self, form: &Option<SelectedService>, event: InputEvent) -> (r: Result<
        ServiceDetailCommand,
        ServiceDetailError,
    >)
        ensures
            form is None ==> r == Err::<ServiceDetailCommand, ServiceDetailError>(
                ServiceDetailError::MissingSelectedService,
            ) && *final(self) == *old(self),
            form is Some ==> r == Ok::<ServiceDetailCommand, ServiceDetailError>(service_detail_command(event)),
            form is Some ==> *final(self) == if service_detail_command(event) == ServiceDetailCommand::Cancel {
                NavigationState {
                    current_screen: CurrentScreen::Main(CurrentScreenMain::Services),
                    ..*old(self)
                }
            } else {
                *old(self)
            },
    {
        if form.is_none() {
            return Err(ServiceDetailError::MissingSelectedService);
        }
        let command = match event {
            InputEvent::Key { code, is_press, alt } => {
                if !is_press {
                    ServiceDetailCommand::Ignore
                } else {
                    match code {
                        KeyInput::Enter => ServiceDetailCommand::Submit,
                        KeyInput::Char('p') => {
                            if alt {
                                ServiceDetailCommand::PasteYankBuffer
                            } else {
                                ServiceDetailCommand::EditField
                            }
                        },
                        KeyInput::Esc => ServiceDetailCommand::Cancel,
                        KeyInput::Tab => ServiceDetailCommand::NextField,
                        KeyInput::BackTab => ServiceDetailCommand::PreviousField,
                        _ => ServiceDetailCommand::EditField,
                    }
                }
            },
            InputEvent::Other => ServiceDetailCommand::Ignore,
        };
        if command == ServiceDetailCommand::Cancel {
            self.current_screen = CurrentScreen::Main(CurrentScreenMain::Services);
        }
        Ok(command)
    }

    /// Takes the service's reply to the request sent from the open form.
    /// When the form is closed (see `reply_closes_form`) the form is dropped,
    /// the services pane shown, the response logged where it is logged
    /// (`reply_is_logged`) and a successful login recorded in the session;
    /// otherwise the failure is passed on with everything left as it was.
    pub fn finish_service_request(
        &mut self,
        session: &mut Session,
        responses: &mut ResponseListWidget,
        form: &mut Option<SelectedService>,
        request: &ServiceRequest,
        reply: ServiceReply,
    ) -> (r: Result<(), DomainResponse>)
        ensures
            reply_closes_form(*request, reply) ==> {
                &&& r is Ok
                &&& *final(form) == None::<SelectedService>
                &&& *final(self) == (NavigationState {
                    current_screen: CurrentScreen::Main(CurrentScreenMain::Services),
                    ..*old(self)
                })
                &&& final(responses).responses@ == if reply_is_logged(*request, reply) {
                    log_after_push(old(responses).responses@, reply_response(reply))
                } else {
                    old(responses).responses@
                }
            },
            !reply_closes_form(*request, reply) ==> {
                &&& r == Err::<(), DomainResponse>(reply_response(reply))
                &&& *final(form) == *old(form)
                &&& *final(self) == *old(self)
                &&& final(responses).responses@ == old(responses).responses@
            },
            (final(session).maybe_token, final(session).maybe_username) == session_after_reply(
                old(session).maybe_token,
                old(session).maybe_username,
                *request,
                reply,
            ),
    {
        let closes = match request {
            ServiceRequest::Login { .. } | ServiceRequest::CreateUser { .. } | ServiceRequest::GetUser { .. }
            | ServiceRequest::DeleteUser { .. } => true,
            _ => match &reply {
                ServiceReply::Succeeded { .. } => true,
                ServiceReply::Failed { .. } => false,
            },
        };
        let logged = closes && match request {
            ServiceRequest::QueryBusinessListings { .. } | ServiceRequest::AcquireBusinessListing { .. } => false,
            _ => true,
        };
        let (response, token) = match reply {
            ServiceReply::Succeeded { response, token } => (response, token),
            ServiceReply::Failed { response } => (response, None),
        };
        if let ServiceRequest::Login { user_name, .. } = request {
            if let Some(t) = token {
                session.maybe_token = Some(t);
                session.maybe_username = Some(user_name.clone());
            }
        }
        if !closes {
            return Err(response);
        }
        if logged {
            responses.push(response);
        }
        *form = None;
        self.current_screen = CurrentScreen::Main(CurrentScreenMain::Services);
        Ok(())
    }
}

/// `Enter` on the main screen: on the services pane, a selected service
/// opens its form (the game stream instead starts, and only with a session
/// token), and a header or an empty selection does nothing; on the
/// responses pane, a selected listed response opens in full; elsewhere
/// nothing happens. The screen changes exactly when something opens.
pub proof fn lemma_enter_opens_selection(
    nav: NavigationState,
    rows: Seq<FlatListItemType>,
    shown: Seq<DomainResponse>,
    has_token: bool,
)
    ensures
        ({
            let out = enter_outcome(nav, rows, shown, has_token);
            let on_services = nav.current_screen == CurrentScreen::Main(CurrentScreenMain::Services);
            let on_responses = nav.current_screen == CurrentScreen::Main(CurrentScreenMain::Responses);
            &&& on_services ==> match nav.service_selected {
                Some(i) => if 0 <= i < rows.len() {
                    match rows[i as int] {
                        FlatListItemType::Service(a) => if a == ServiceAction::PlayStream {
                            out == if has_token { EnterOutcome::PlayStream } else { EnterOutcome::Nothing }
                        } else {
                            out == EnterOutcome::OpenService(a)
                        },
                        FlatListItemType::CategoryHeader => out == EnterOutcome::Nothing,
                    }
                } else {
                    out == EnterOutcome::Nothing
                },
                None => out == EnterOutcome::Nothing,
            }
            &&& on_responses ==> out == match nav.response_selected {
                Some(i) => if 0 <= i < shown.len() { EnterOutcome::OpenResponse(i) } else { EnterOutcome::Nothing },
                None => EnterOutcome::Nothing,
            }
            &&& !on_services && !on_responses ==> out == EnterOutcome::Nothing
            &&& out is OpenService ==> screen_after_enter(nav, out) == CurrentScreen::ServiceDetail
            &&& out is OpenResponse ==> screen_after_enter(nav, out) == CurrentScreen::ResponseDetail
            &&& (out is Nothing || out is PlayStream) ==> screen_after_enter(nav, out) == nav.current_screen
        }),
{
}

/// The keys of a request form: only pressed keys count; `Enter` sends,
/// `Esc` cancels, `Tab` and `Shift`+`Tab` move the focus forward and back,
/// `Alt`+`p` pastes the yank buffer, and every other pressed key (a plain
/// `p` too) edits the focused field. Anything that is not a key does
/// nothing.
pub proof fn lemma_form_keys(code: KeyInput, is_press: bool, alt: bool)
    ensures
        ({
            let c = service_detail_command(InputEvent::Key { code, is_press, alt });
            &&& !is_press ==> c == ServiceDetailCommand::Ignore
            &&& is_press && code == KeyInput::Enter ==> c == ServiceDetailCommand::Submit
            &&& is_press && code == KeyInput::Esc ==> c == ServiceDetailCommand::Cancel
            &&& is_press && code == KeyInput::Tab ==> c == ServiceDetailCommand::NextField
            &&& is_press && code == KeyInput::BackTab ==> c == ServiceDetailCommand::PreviousField
            &&& is_press && code == KeyInput::Char('p') ==> c == if alt {
                ServiceDetailCommand::PasteYankBuffer
            } else {
                ServiceDetailCommand::EditField
            }
            &&& is_press && !(code == KeyInput::Enter || code == KeyInput::Esc || code == KeyInput::Tab || code
                == KeyInput::BackTab || code == KeyInput::Char('p')) ==> c == ServiceDetailCommand::EditField
        }),
        service_detail_command(InputEvent::Other) == ServiceDetailCommand::Ignore,
{
}

} // verus!
