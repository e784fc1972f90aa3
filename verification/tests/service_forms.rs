use syndicode::client::selected_block::{
    SelectedBlockCreateUser, SelectedBlockQueryBusinessListings, SelectedBlockRegister,
};
use syndicode::client::service_form::{SelectedService, ServiceDetailWidget, ServiceRequest, DEFAULT_USER_ROLE};
use syndicode::client::app::{FieldEdit, ServiceDetailCommand};
use syndicode::client::service_list::ServiceAction;
use syndicode::server::economy::assigned_market;

fn strings(v: &[&str]) -> Vec<String> {
    v.iter().map(|s| s.to_string()).collect()
}

#[test]
fn each_service_opens_its_form() {
    assert_eq!(SelectedService::from(ServiceAction::Register), SelectedService::Register(SelectedBlockRegister::UserName));
    assert_eq!(
        SelectedService::from(ServiceAction::CreateUser),
        SelectedService::CreateUser(SelectedBlockCreateUser::UserName)
    );
    assert!(matches!(SelectedService::from(ServiceAction::PlayStream), SelectedService::AcquireBusinessListing(_)));
    assert!(matches!(
        SelectedService::from(ServiceAction::AcquireListedBusiness),
        SelectedService::AcquireBusinessListing(_)
    ));
    assert!(matches!(SelectedService::from(ServiceAction::DeleteUser), SelectedService::DeleteUser(_)));
}

#[test]
fn form_fields_and_titles() {
    let register = SelectedService::from(ServiceAction::Register);
    let fields = register.fields();
    let titles: Vec<&str> = fields.iter().map(|f| f.title).collect();
    assert_eq!(titles, vec!["Username", "Password", "Email", "Corporation Name"]);
    assert!(fields[1].masked);
    assert!(!fields[0].masked);
    assert_eq!(fields[0].placeholder, "Mc_Lovin");
    let w = ServiceDetailWidget;
    assert_eq!(w.popup_title(&register), "Register New User");
    assert_eq!(w.popup_title(&SelectedService::from(ServiceAction::VerifyRegistration)), "Verify a user's registration");
    assert_eq!(
        w.popup_title(&SelectedService::from(ServiceAction::ResendVerification)),
        "Resend a user's verification code"
    );
    assert_eq!(w.popup_title(&SelectedService::from(ServiceAction::Login)), "Edit Request");
    assert_eq!(SelectedService::from(ServiceAction::QueryBusinessListings).fields().len(), 10);
    assert_eq!(SelectedService::from(ServiceAction::CreateUser).fields()[3].placeholder, "1 (Admin) or 2 (Player)");
}

#[test]
fn tab_walks_the_fields() {
    let mut s = SelectedService::from(ServiceAction::Register);
    assert_eq!(s.focused_field(), 0);
    s.advance();
    assert_eq!(s.focused_field(), 1);
    s.advance();
    s.advance();
    assert_eq!(s.focused_field(), 3);
    s.advance();
    assert_eq!(s.focused_field(), 0);
    s.previous();
    assert_eq!(s.focused_field(), 3);
    let mut q = SelectedService::QueryBusinessListings(SelectedBlockQueryBusinessListings::Offset);
    assert_eq!(q.focused_field(), 9);
    q.advance();
    assert_eq!(q.focused_field(), 0);
    let mut one = SelectedService::from(ServiceAction::DeleteUser);
    one.advance();
    assert_eq!(one.focused_field(), 0);
}

#[test]
fn requests_from_forms() {
    let register = SelectedService::from(ServiceAction::Register);
    assert_eq!(
        register.build_request(&strings(&["Player_Name", "Player_Password", "player@email.com", "Player-Corp"]), None, None, None),
        ServiceRequest::Register {
            user_name: "Player_Name".to_string(),
            user_password: "Player_Password".to_string(),
            email: "player@email.com".to_string(),
            corporation_name: "Player-Corp".to_string(),
        }
    );
    let create = SelectedService::from(ServiceAction::CreateUser);
    let values = strings(&["Test_User", "Test_Password", "test@mail.com", "ADMIN", "Test-Corp"]);
    match create.build_request(&values, None, None, Some(1)) {
        ServiceRequest::CreateUser { user_role, corporation_name, .. } => {
            assert_eq!(user_role, 1);
            assert_eq!(corporation_name, "Test-Corp");
        }
        other => panic!("unexpected {other:?}"),
    }
    match create.build_request(&values, None, None, None) {
        ServiceRequest::CreateUser { user_role, .. } => assert_eq!(user_role, DEFAULT_USER_ROLE),
        other => panic!("unexpected {other:?}"),
    }
}

#[test]
fn query_form_optional_fields() {
    let q = SelectedService::from(ServiceAction::QueryBusinessListings);
    let values = strings(&["1000", "", "", "0196e24f", "-5", "30", "price", "", "20", ""]);
    assert_eq!(
        q.build_request(&values, Some(3), None, None),
        ServiceRequest::QueryBusinessListings {
            min_asking_price: Some(1000),
            max_asking_price: None,
            seller_corporation_uuid: None,
            market_uuid: Some("0196e24f".to_string()),
            min_operational_expenses: Some(-5),
            max_operational_expenses: Some(30),
            sort_by: 3,
            sort_direction: 0,
            limit: Some(20),
            offset: None,
        }
    );
}

#[test]
fn markets_are_dealt_out_in_turn() {
    assert_eq!(assigned_market(0, 10), Some(0));
    assert_eq!(assigned_market(13, 10), Some(3));
    assert_eq!(assigned_market(5, 0), None);
}

#[test]
fn form_commands_move_focus_or_edit_the_focused_field() {
    let mut form = SelectedService::from(ServiceAction::Register);
    assert_eq!(form.apply_command(ServiceDetailCommand::NextField), None);
    assert_eq!(form, SelectedService::Register(SelectedBlockRegister::UserPassword));
    assert_eq!(form.apply_command(ServiceDetailCommand::PasteYankBuffer), Some((1, FieldEdit::InsertYankBuffer)));
    assert_eq!(form.apply_command(ServiceDetailCommand::EditField), Some((1, FieldEdit::Input)));
    assert_eq!(form.apply_command(ServiceDetailCommand::PreviousField), None);
    assert_eq!(form.apply_command(ServiceDetailCommand::PreviousField), None);
    assert_eq!(form, SelectedService::Register(SelectedBlockRegister::CorporationName));
    assert_eq!(form.apply_command(ServiceDetailCommand::Submit), None);
    assert_eq!(form.apply_command(ServiceDetailCommand::Cancel), None);
    assert_eq!(form.apply_command(ServiceDetailCommand::Ignore), None);
    assert_eq!(form, SelectedService::Register(SelectedBlockRegister::CorporationName));
}
