use syndicode::client::service_form::{SelectedService, ServiceRequest};
use syndicode::client::app::{
    select_next, select_previous, CurrentScreen, CurrentScreenMain, EnterOutcome, NavigationState,
    ServiceDetailCommand, ServiceDetailError, ServiceReply, Session,
};
use syndicode::client::input::{InputEvent, InputReader, KeyInput};
use syndicode::client::response::{DomainResponse, ResponseType};
use syndicode::client::response_list::ResponseListWidget;
use syndicode::client::service_list::{default_services, ServiceAction, ServiceListWidget};
use time::OffsetDateTime;

fn press(code: KeyInput) -> InputEvent {
    InputEvent::Key { code, is_press: true, alt: false }
}

fn response(kind: ResponseType, code: &str) -> DomainResponse {
    DomainResponse { response_type: kind, code: code.to_string(), message: String::new(), timestamp: OffsetDateTime::UNIX_EPOCH }
}

#[test]
fn current_screen_default() {
    assert_eq!(CurrentScreen::default(), CurrentScreen::Main(CurrentScreenMain::Services));
}

#[test]
fn list_selection_moves() {
    assert_eq!(select_next(None), Some(0));
    assert_eq!(select_next(Some(3)), Some(4));
    assert_eq!(select_next(Some(usize::MAX)), Some(usize::MAX));
    assert_eq!(select_previous(None), Some(usize::MAX));
    assert_eq!(select_previous(Some(3)), Some(2));
    assert_eq!(select_previous(Some(0)), Some(0));
}

#[test]
fn main_screen_keys() {
    let mut nav = NavigationState::new();
    assert!(!nav.handle_main(press(KeyInput::Char('j')), true));
    assert_eq!(nav.service_selected, Some(0));
    nav.handle_main(press(KeyInput::Down), true);
    assert_eq!(nav.service_selected, Some(1));
    nav.handle_main(press(KeyInput::Up), true);
    assert_eq!(nav.service_selected, Some(0));
    nav.handle_main(press(KeyInput::Char('G')), true);
    assert_eq!(nav.service_selected, Some(usize::MAX));
    // no responses: `l` stays on services
    nav.handle_main(press(KeyInput::Char('l')), true);
    assert_eq!(nav.current_screen, CurrentScreen::Main(CurrentScreenMain::Services));
    nav.handle_main(press(KeyInput::Right), false);
    assert_eq!(nav.current_screen, CurrentScreen::Main(CurrentScreenMain::Responses));
    assert_eq!(nav.service_selected, None);
    assert_eq!(nav.response_selected, Some(0));
    // the response list is drawn bottom to top: `k` moves to a higher index
    nav.handle_main(press(KeyInput::Char('k')), false);
    assert_eq!(nav.response_selected, Some(1));
    nav.handle_main(press(KeyInput::Char('e')), false);
    assert!(nav.hide_game_tick_notification);
    assert_eq!(nav.response_selected, Some(0));
    nav.handle_main(press(KeyInput::Char('e')), false);
    assert!(!nav.hide_game_tick_notification);
    nav.handle_main(press(KeyInput::Left), false);
    assert_eq!(nav.current_screen, CurrentScreen::Main(CurrentScreenMain::Services));
    assert_eq!(nav.service_selected, Some(0));
    assert_eq!(nav.response_selected, None);
    assert!(nav.handle_main(press(KeyInput::Enter), false));
    nav.handle_main(press(KeyInput::Esc), false);
    assert_eq!(nav.current_screen, CurrentScreen::Exiting);
    assert!(!nav.should_exit);
}

#[test]
fn released_keys_and_other_events_are_ignored() {
    let mut nav = NavigationState::new();
    let before = nav;
    assert!(!nav.handle_main(InputEvent::Key { code: KeyInput::Esc, is_press: false, alt: false }, false));
    assert!(!nav.handle_main(InputEvent::Other, false));
    assert_eq!(nav, before);
}

#[test]
fn exit_prompt() {
    let mut nav = NavigationState::new();
    nav.handle_main(press(KeyInput::Esc), false);
    nav.handle_exit(press(KeyInput::Char('n')));
    assert_eq!(nav.current_screen, CurrentScreen::Main(CurrentScreenMain::Services));
    assert!(!nav.should_exit);
    nav.handle_main(press(KeyInput::Esc), false);
    nav.handle_exit(press(KeyInput::Char('x')));
    assert_eq!(nav.current_screen, CurrentScreen::Exiting);
    nav.handle_exit(press(KeyInput::Char('y')));
    assert!(nav.should_exit);
}

#[test]
fn enter_on_services() {
    let services = ServiceListWidget::new(default_services());
    let responses = ResponseListWidget::new();
    let mut nav = NavigationState::new();
    nav.service_selected = Some(0);
    assert_eq!(nav.handle_enter(&services, &responses, true), EnterOutcome::Nothing);
    nav.service_selected = Some(4);
    assert_eq!(nav.handle_enter(&services, &responses, false), EnterOutcome::OpenService(ServiceAction::Login));
    assert_eq!(nav.current_screen, CurrentScreen::ServiceDetail);
    let mut nav = NavigationState::new();
    nav.service_selected = Some(9);
    assert_eq!(nav.handle_enter(&services, &responses, false), EnterOutcome::Nothing);
    assert_eq!(nav.handle_enter(&services, &responses, true), EnterOutcome::PlayStream);
    assert_eq!(nav.current_screen, CurrentScreen::Main(CurrentScreenMain::Services));
}

#[test]
fn enter_on_responses() {
    let services = ServiceListWidget::new(default_services());
    let mut responses = ResponseListWidget::new();
    responses.push(response(ResponseType::Info, "a"));
    responses.push(response(ResponseType::GameTickeNotification, "t"));
    let mut nav = NavigationState::new();
    nav.handle_main(press(KeyInput::Char('l')), false);
    nav.hide_game_tick_notification = true;
    nav.response_selected = Some(1);
    assert_eq!(nav.handle_enter(&services, &responses, false), EnterOutcome::Nothing);
    nav.response_selected = Some(0);
    assert_eq!(nav.handle_enter(&services, &responses, false), EnterOutcome::OpenResponse(0));
    assert_eq!(nav.current_screen, CurrentScreen::ResponseDetail);
}

#[test]
fn stream_updates_move_the_response_selection() {
    let mut responses = ResponseListWidget::new();
    let mut nav = NavigationState::new();
    nav.on_stream_update(&mut responses, response(ResponseType::Info, "a"));
    assert_eq!(nav.response_selected, None);
    assert_eq!(responses.responses.len(), 1);
    nav.current_screen = CurrentScreen::Main(CurrentScreenMain::Responses);
    nav.response_selected = Some(0);
    nav.on_stream_update(&mut responses, response(ResponseType::Info, "b"));
    assert_eq!(nav.response_selected, Some(1));
    nav.hide_game_tick_notification = true;
    nav.on_stream_update(&mut responses, response(ResponseType::GameTickeNotification, "t"));
    assert_eq!(nav.response_selected, Some(1));
    nav.current_screen = CurrentScreen::ResponseDetail;
    nav.on_stream_update(&mut responses, response(ResponseType::Error, "c"));
    assert_eq!(nav.response_selected, Some(2));
    assert_eq!(responses.responses.len(), 4);
}

#[test]
fn service_form_keys() {
    let mut nav = NavigationState::new();
    nav.current_screen = CurrentScreen::ServiceDetail;
    let form = Some(SelectedService::from(ServiceAction::Register));
    assert_eq!(nav.handle_service_detail(&form, press(KeyInput::Enter)), Ok(ServiceDetailCommand::Submit));
    assert_eq!(nav.handle_service_detail(&form, press(KeyInput::Tab)), Ok(ServiceDetailCommand::NextField));
    assert_eq!(nav.handle_service_detail(&form, press(KeyInput::BackTab)), Ok(ServiceDetailCommand::PreviousField));
    assert_eq!(nav.handle_service_detail(&form, press(KeyInput::Char('p'))), Ok(ServiceDetailCommand::EditField));
    assert_eq!(
        nav.handle_service_detail(&form, InputEvent::Key { code: KeyInput::Char('p'), is_press: true, alt: true }),
        Ok(ServiceDetailCommand::PasteYankBuffer)
    );
    assert_eq!(
        nav.handle_service_detail(&form, InputEvent::Key { code: KeyInput::Enter, is_press: false, alt: false }),
        Ok(ServiceDetailCommand::Ignore)
    );
    assert_eq!(nav.current_screen, CurrentScreen::ServiceDetail);
    assert_eq!(nav.handle_service_detail(&form, press(KeyInput::Esc)), Ok(ServiceDetailCommand::Cancel));
    assert_eq!(nav.current_screen, CurrentScreen::Main(CurrentScreenMain::Services));
}

#[test]
fn service_form_missing_is_an_error() {
    let mut nav = NavigationState::new();
    nav.current_screen = CurrentScreen::ServiceDetail;
    let before = nav;
    assert_eq!(
        nav.handle_service_detail(&None, press(KeyInput::Enter)),
        Err(ServiceDetailError::MissingSelectedService)
    );
    assert_eq!(
        nav.handle_service_detail(&None, press(KeyInput::Esc)),
        Err(ServiceDetailError::MissingSelectedService)
    );
    assert_eq!(nav, before);
}

fn register_request() -> ServiceRequest {
    ServiceRequest::Register {
        user_name: "n".to_string(),
        user_password: "p".to_string(),
        email: "e".to_string(),
        corporation_name: "c".to_string(),
    }
}

#[test]
fn successful_request_closes_form_and_logs() {
    let mut nav = NavigationState::new();
    nav.current_screen = CurrentScreen::ServiceDetail;
    let mut session = Session::new();
    let mut log = ResponseListWidget::new();
    let mut form = Some(SelectedService::from(ServiceAction::Register));
    let reply = ServiceReply::Succeeded { response: response(ResponseType::Success, "OK"), token: None };
    assert!(nav.finish_service_request(&mut session, &mut log, &mut form, &register_request(), reply).is_ok());
    assert_eq!(form, None);
    assert_eq!(nav.current_screen, CurrentScreen::Main(CurrentScreenMain::Services));
    assert_eq!(log.responses.len(), 1);
    assert_eq!(session.maybe_token, None);
}

#[test]
fn failed_request_keeps_form_screen_and_log() {
    let mut nav = NavigationState::new();
    nav.current_screen = CurrentScreen::ServiceDetail;
    let mut session = Session::new();
    let mut log = ResponseListWidget::new();
    let mut form = Some(SelectedService::from(ServiceAction::Register));
    let reply = ServiceReply::Failed { response: response(ResponseType::Error, "ERR") };
    let err = nav.finish_service_request(&mut session, &mut log, &mut form, &register_request(), reply).unwrap_err();
    assert_eq!(err.code, "ERR");
    assert!(form.is_some());
    assert_eq!(nav.current_screen, CurrentScreen::ServiceDetail);
    assert!(log.responses.is_empty());
}

#[test]
fn login_records_the_session_and_always_logs() {
    let mut nav = NavigationState::new();
    nav.current_screen = CurrentScreen::ServiceDetail;
    let mut session = Session::new();
    let mut log = ResponseListWidget::new();
    let login = ServiceRequest::Login { user_name: "alice".to_string(), user_password: "pw".to_string() };
    let mut form = Some(SelectedService::from(ServiceAction::Login));
    let reply = ServiceReply::Failed { response: response(ResponseType::Error, "ERR") };
    assert!(nav.finish_service_request(&mut session, &mut log, &mut form, &login, reply).is_ok());
    assert_eq!(form, None);
    assert_eq!(log.responses.len(), 1);
    assert_eq!(session.maybe_token, None);
    let mut form = Some(SelectedService::from(ServiceAction::Login));
    let reply =
        ServiceReply::Succeeded { response: response(ResponseType::Success, "OK"), token: Some("jwt".to_string()) };
    assert!(nav.finish_service_request(&mut session, &mut log, &mut form, &login, reply).is_ok());
    assert_eq!(session.maybe_token, Some("jwt".to_string()));
    assert_eq!(session.maybe_username, Some("alice".to_string()));
    assert_eq!(log.responses.len(), 2);
}

#[test]
fn game_requests_are_not_logged() {
    let mut nav = NavigationState::new();
    nav.current_screen = CurrentScreen::ServiceDetail;
    let mut session = Session::new();
    let mut log = ResponseListWidget::new();
    let acquire = ServiceRequest::AcquireBusinessListing { business_listing_uuid: "x".to_string() };
    let mut form = Some(SelectedService::from(ServiceAction::AcquireListedBusiness));
    let reply = ServiceReply::Succeeded { response: response(ResponseType::Success, "OK"), token: None };
    assert!(nav.finish_service_request(&mut session, &mut log, &mut form, &acquire, reply).is_ok());
    assert_eq!(form, None);
    assert!(log.responses.is_empty());
    let delete = ServiceRequest::DeleteUser { user_uuid: "u".to_string() };
    let mut form = Some(SelectedService::from(ServiceAction::DeleteUser));
    let reply = ServiceReply::Failed { response: response(ResponseType::Error, "ERR") };
    assert!(nav.finish_service_request(&mut session, &mut log, &mut form, &delete, reply).is_ok());
    assert_eq!(log.responses.len(), 1);
}

#[test]
fn input_reader_watches_for_escape_then_y() {
    let mut reader = InputReader::new();
    assert!(!reader.register_event(press(KeyInput::Char('y'))));
    assert!(!reader.register_event(press(KeyInput::Esc)));
    assert!(reader.just_pressed_esc);
    assert!(!reader.register_event(InputEvent::Other));
    assert!(reader.just_pressed_esc);
    assert!(reader.register_event(press(KeyInput::Char('y'))));
    assert!(reader.should_exit);
    let mut other = InputReader::new();
    other.register_event(press(KeyInput::Esc));
    other.register_event(press(KeyInput::Char('n')));
    assert!(!other.register_event(press(KeyInput::Char('y'))));
}
