use syndicode::client::service_list::{
    default_services, FlatListItemType, ServiceAction, ServiceCategory, ServiceItem, ServiceListWidget,
};

fn widget() -> ServiceListWidget {
    ServiceListWidget::new(default_services())
}

#[test]
fn default_services_layout() {
    let cats = default_services();
    assert_eq!(cats.len(), 3);
    assert_eq!(cats[0].name, "🔒 Authorization");
    assert_eq!(cats[1].name, "⚙️Administration");
    assert_eq!(cats[2].name, "🕹️ Game");
    let actions: Vec<Vec<ServiceAction>> = cats.iter().map(|c| c.items.iter().map(|i| i.action).collect()).collect();
    assert_eq!(
        actions,
        vec![
            vec![ServiceAction::Register, ServiceAction::VerifyRegistration, ServiceAction::ResendVerification, ServiceAction::Login],
            vec![ServiceAction::CreateUser, ServiceAction::DeleteUser],
            vec![ServiceAction::PlayStream, ServiceAction::QueryBusinessListings, ServiceAction::AcquireListedBusiness],
        ]
    );
    assert_eq!(cats[0].items[0].display_name, "Register User");
    assert_eq!(cats[2].items[0].display_name, "Setup the game stream");
}

#[test]
fn action_labels() {
    assert_eq!(ServiceAction::Register.label(), "Register User");
    assert_eq!(ServiceAction::VerifyRegistration.label(), "Verify User Registration");
    assert_eq!(ServiceAction::ResendVerification.label(), "Resend Verification Code");
    assert_eq!(ServiceAction::Login.label(), "Login User");
    assert_eq!(ServiceAction::CreateUser.label(), "Create User");
    assert_eq!(ServiceAction::DeleteUser.label(), "Delete User");
    assert_eq!(ServiceAction::PlayStream.label(), "Setup the game stream");
    assert_eq!(ServiceAction::QueryBusinessListings.label(), "Query business listings");
    assert_eq!(ServiceAction::AcquireListedBusiness.label(), "Acquire listed business");
}

#[test]
fn items_with_and_without_names() {
    let item = ServiceItem::new(ServiceAction::Login);
    assert_eq!(item.display_name, "Login User");
    let named = ServiceItem::new_with_name("Sign in".to_string(), ServiceAction::Login);
    assert_eq!(named.display_name, "Sign in");
    assert_eq!(named.action, ServiceAction::Login);
}

#[test]
fn flattened_rows() {
    let w = widget();
    // 3 headers + 4 + 2 + 3 entries
    assert_eq!(w.total_items(), 12);
    assert_eq!(w.get_selected_action(Some(0)), None);
    assert_eq!(w.get_selected_action(Some(1)), Some(ServiceAction::Register));
    assert_eq!(w.get_selected_action(Some(5)), None);
    assert_eq!(w.get_selected_action(Some(6)), Some(ServiceAction::CreateUser));
    assert_eq!(w.get_selected_action(Some(11)), Some(ServiceAction::AcquireListedBusiness));
    assert_eq!(w.get_selected_action(Some(12)), None);
    assert_eq!(w.get_selected_action(None), None);
}

#[test]
fn adjust_selection_skips_headers_and_wraps() {
    let w = widget();
    // rows: 0 H, 1..=4 auth, 5 H, 6..=7 admin, 8 H, 9..=11 game
    assert_eq!(w.adjust_selection(None, 1), Some(1));
    assert_eq!(w.adjust_selection(None, -1), Some(11));
    assert_eq!(w.adjust_selection(Some(4), 1), Some(6));
    assert_eq!(w.adjust_selection(Some(6), -1), Some(4));
    assert_eq!(w.adjust_selection(Some(11), 1), Some(1));
    assert_eq!(w.adjust_selection(Some(1), -1), Some(11));
    assert_eq!(w.adjust_selection(Some(7), 0), Some(7));
    assert_eq!(w.adjust_selection(Some(5), 0), Some(6));
    // a jump past the end restarts the search at the first row
    assert_eq!(w.adjust_selection(Some(10), 5), Some(1));
}

#[test]
fn adjust_selection_without_services() {
    let empty = ServiceListWidget::new(vec![]);
    assert_eq!(empty.total_items(), 0);
    assert_eq!(empty.adjust_selection(Some(3), 1), None);
    let headers_only = ServiceListWidget::new(vec![
        ServiceCategory { name: "A".to_string(), items: vec![] },
        ServiceCategory { name: "B".to_string(), items: vec![] },
    ]);
    assert_eq!(headers_only.total_items(), 2);
    assert_eq!(headers_only.adjust_selection(None, 1), None);
    assert_eq!(headers_only.adjust_selection(Some(0), -1), None);
}

#[test]
fn row_kinds() {
    let _ = FlatListItemType::CategoryHeader;
    let w = ServiceListWidget::new(vec![ServiceCategory {
        name: "Only".to_string(),
        items: vec![ServiceItem::new(ServiceAction::PlayStream)],
    }]);
    assert_eq!(w.total_items(), 2);
    assert_eq!(w.get_selected_action(Some(1)), Some(ServiceAction::PlayStream));
    assert_eq!(w.adjust_selection(Some(1), 1), Some(1));
}

#[test]
fn row_labels_indent_entries_under_headers() {
    let w = ServiceListWidget::new(default_services());
    let labels = w.row_labels();
    assert_eq!(labels.len(), w.total_items());
    assert_eq!(labels[0], "🔒 Authorization");
    assert_eq!(labels[1], "  Register User");
    assert_eq!(labels[4], "  Login User");
    assert_eq!(labels[5], "⚙️Administration");
    assert_eq!(labels[labels.len() - 1], "  Acquire listed business");
}
