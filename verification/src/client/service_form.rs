//! The request forms: the form each service opens, its fields, the field
//! that has the focus, and the request built from the typed values once the
//! form is sent.
//!
//! The text of each field is edited in the terminal's text areas; the form
//! here knows the fields in display order and takes their first lines when
//! the request is built.
use crate::client::number::{i64_literal, optional_number};
use crate::client::selected_block::{
    SelectedBlockAcquireBusinessListing, SelectedBlockCreateUser, SelectedBlockDeleteUser,
    SelectedBlockGetUser, SelectedBlockLogin, SelectedBlockQueryBusinessListings,
    SelectedBlockRegister, SelectedBlockResend, SelectedBlockVerify,
};
use crate::client::service_list::ServiceAction;
use vstd::prelude::*;
use vstd::std_specs::convert::FromSpecImpl;

verus! {

/// An open request form and the field that has the focus.
#[derive(Debug, Clone, Copy, PartialEq, Eq, Structural)]
pub enum SelectedService {
    Register(SelectedBlockRegister),
    VerifyRegistration(SelectedBlockVerify),
    ResendVerification(SelectedBlockResend),
    Login(SelectedBlockLogin),
    CreateUser(SelectedBlockCreateUser),
    GetUser(SelectedBlockGetUser),
    DeleteUser(SelectedBlockDeleteUser),
    QueryBusinessListings(SelectedBlockQueryBusinessListings),
    AcquireBusinessListing(SelectedBlockAcquireBusinessListing),
}

/// The form a service opens, with the focus on its first field; the
/// services without a form of their own open the business listing
/// acquisition form.
pub open spec fn form_for(action: ServiceAction) -> SelectedService {
    match action {
        ServiceAction::Register => SelectedService::Register(SelectedBlockRegister::UserName),
        ServiceAction::VerifyRegistration => SelectedService::VerifyRegistration(SelectedBlockVerify::UserName),
        ServiceAction::ResendVerification => SelectedService::ResendVerification(SelectedBlockResend::UserName),
        ServiceAction::Login => SelectedService::Login(SelectedBlockLogin::UserName),
        ServiceAction::CreateUser => SelectedService::CreateUser(SelectedBlockCreateUser::UserName),
        ServiceAction::DeleteUser => SelectedService::DeleteUser(SelectedBlockDeleteUser::UserUuid),
        ServiceAction::QueryBusinessListings => SelectedService::QueryBusinessListings(
            SelectedBlockQueryBusinessListings::MinAskingPrice,
        ),
        _ => SelectedService::AcquireBusinessListing(SelectedBlockAcquireBusinessListing::BusinessListingUuid),
    }
}

impl From<ServiceAction> for SelectedService {
    fn from(value: ServiceAction) -> (r: Self) {
        match value {
            ServiceAction::Register => SelectedService::Register(SelectedBlockRegister::UserName),
            ServiceAction::VerifyRegistration => SelectedService::VerifyRegistration(SelectedBlockVerify::UserName),
            ServiceAction::ResendVerification => SelectedService::ResendVerification(SelectedBlockResend::UserName),
            ServiceAction::Login => SelectedService::Login(SelectedBlockLogin::UserName),
            ServiceAction::CreateUser => SelectedService::CreateUser(SelectedBlockCreateUser::UserName),
            ServiceAction::DeleteUser => SelectedService::DeleteUser(SelectedBlockDeleteUser::UserUuid),
            ServiceAction::QueryBusinessListings => SelectedService::QueryBusinessListings(
                SelectedBlockQueryBusinessListings::MinAskingPrice,
            ),
            _ => SelectedService::AcquireBusinessListing(SelectedBlockAcquireBusinessListing::BusinessListingUuid),
        }
    }
}

impl FromSpecImpl<ServiceAction> for SelectedService {
    open spec fn obeys_from_spec() -> bool {
        true
    }

    open spec fn from_spec(value: ServiceAction) -> Self {
        form_for(value)
    }
}

/// One input field of a form: its title, the hint shown while it is empty,
/// and whether what is typed is hidden.
#[derive(Debug, Clone, Copy, PartialEq, Eq)]
pub struct FormField {
    pub title: &'static str,
    pub placeholder: &'static str,
    pub masked: bool,
}

/// The fields of a form in display order, as (title, placeholder, masked).
pub open spec fn field_specs(s: SelectedService) -> Seq<(Seq<char>, Seq<char>, bool)> {
    match s {
        SelectedService::Register(_) => seq![
            ("Username"@, "Mc_Lovin"@, false),
            ("Password"@, "my-secret-password"@, true),
            ("Email"@, "name@domain.com"@, false),
            ("Corporation Name"@, "Lima Hammersmith Inc."@, false),
        ],
        SelectedService::VerifyRegistration(_) => seq![
            ("Username"@, "Mc_Lovin"@, false),
            ("Code"@, "8FA3FLI91"@, false),
        ],
        SelectedService::ResendVerification(_) => seq![("Username"@, "Mc_Lovin"@, false)],
        SelectedService::Login(_) => seq![
            ("Username"@, "Mc_Lovin"@, false),
            ("Password"@, "my-secret-password"@, true),
        ],
        SelectedService::CreateUser(_) => seq![
            ("Username"@, "Mc_Lovin"@, false),
            ("Password"@, "my-secret-password"@, true),
            ("Email"@, "name@domain.com"@, false),
            ("Role"@, "1 (Admin) or 2 (Player)"@, false),
            ("Corporation Name"@, "Lima Hammersmith Inc."@, false),
        ],
        SelectedService::GetUser(_) => seq![("User UUID"@, "7a520b51-ad88-446c-84d6-80de0ed99230"@, false)],
        SelectedService::DeleteUser(_) => seq![("User UUID"@, "7a520b51-ad88-446c-84d6-80de0ed99230"@, false)],
        SelectedService::QueryBusinessListings(_) => seq![
            ("Min. Asking Price"@, "1000"@, false),
            ("Max. Asking Price"@, "2000"@, false),
            ("Seller Corporation UUID"@, "0196e20b-c252-7520-ae13-935b5d5f0029"@, false),
            ("Market UUID"@, "0196e24f-eda1-7145-a177-8d2f8c38f7c4"@, false),
            ("Min. Operational Expenses"@, "10"@, false),
            ("Max. Operational Expenses"@, "30"@, false),
            ("Sort By"@, "price, name, op_expenses, market_volume"@, false),
            ("Sort Direction"@, "0 or 1"@, false),
            ("Limit"@, "20"@, false),
            ("Offset"@, "50"@, false),
        ],
        SelectedService::AcquireBusinessListing(_) => seq![
            ("Business listing UUID"@, "01970208-57a6-712a-a9c1-497e4e71f764"@, false),
        ],
    }
}

/// How many fields a form has.
pub open spec fn field_count(s: SelectedService) -> nat {
    field_specs(s).len()
}

/// The position, in display order, of the field that has the focus.
pub open spec fn focus_index(s: SelectedService) -> int {
    match s {
        SelectedService::Register(b) => match b {
            SelectedBlockRegister::UserName => 0,
            SelectedBlockRegister::UserPassword => 1,
            SelectedBlockRegister::Email => 2,
            SelectedBlockRegister::CorporationName => 3,
        },
        SelectedService::VerifyRegistration(b) => match b {
            SelectedBlockVerify::UserName => 0,
            SelectedBlockVerify::Code => 1,
        },
        SelectedService::ResendVerification(_) => 0,
        SelectedService::Login(b) => match b {
            SelectedBlockLogin::UserName => 0,
            SelectedBlockLogin::UserPassword => 1,
        },
        SelectedService::CreateUser(b) => match b {
            SelectedBlockCreateUser::UserName => 0,
            SelectedBlockCreateUser::UserPassword => 1,
            SelectedBlockCreateUser::UserEmail => 2,
            SelectedBlockCreateUser::UserRole => 3,
            SelectedBlockCreateUser::CorporationName => 4,
        },
        SelectedService::GetUser(_) => 0,
        SelectedService::DeleteUser(_) => 0,
        SelectedService::QueryBusinessListings(b) => match b {
            SelectedBlockQueryBusinessListings::MinAskingPrice => 0,
            SelectedBlockQueryBusinessListings::MaxAskingPrice => 1,
            SelectedBlockQueryBusinessListings::SellerCorporationUuid => 2,
            SelectedBlockQueryBusinessListings::MarketUuid => 3,
            SelectedBlockQueryBusinessListings::MinOperationalExpenses => 4,
            SelectedBlockQueryBusinessListings::MaxOperationalExpenses => 5,
            SelectedBlockQueryBusinessListings::SortBy => 6,
            SelectedBlockQueryBusinessListings::SortDirection => 7,
            SelectedBlockQueryBusinessListings::Limit => 8,
            SelectedBlockQueryBusinessListings::Offset => 9,
        },
        SelectedService::AcquireBusinessListing(_) => 0,
    }
}

/// Whether two forms are the same form (the focus aside).
pub open spec fn same_form(a: SelectedService, b: SelectedService) -> bool {
    match (a, b) {
        (SelectedService::Register(_), SelectedService::Register(_)) => true,
        (SelectedService::VerifyRegistration(_), SelectedService::VerifyRegistration(_)) => true,
        (SelectedService::ResendVerification(_), SelectedService::ResendVerification(_)) => true,
        (SelectedService::Login(_), SelectedService::Login(_)) => true,
        (SelectedService::CreateUser(_), SelectedService::CreateUser(_)) => true,
        (SelectedService::GetUser(_), SelectedService::GetUser(_)) => true,
        (SelectedService::DeleteUser(_), SelectedService::DeleteUser(_)) => true,
        (SelectedService::QueryBusinessListings(_), SelectedService::QueryBusinessListings(_)) => true,
        (SelectedService::AcquireBusinessListing(_), SelectedService::AcquireBusinessListing(_)) => true,
        _ => false,
    }
}

/// The form with the focus on the next field (wrapping around).
pub open spec fn form_next(s: SelectedService) -> SelectedService {
    match s {
        SelectedService::Register(b) => SelectedService::Register(b.next()),
        SelectedService::VerifyRegistration(b) => SelectedService::VerifyRegistration(b.next()),
        SelectedService::ResendVerification(b) => SelectedService::ResendVerification(b.next()),
        SelectedService::Login(b) => SelectedService::Login(b.next()),
        SelectedService::CreateUser(b) => SelectedService::CreateUser(b.next()),
        SelectedService::GetUser(b) => SelectedService::GetUser(b.next()),
        SelectedService::DeleteUser(b) => SelectedService::DeleteUser(b.next()),
        SelectedService::QueryBusinessListings(b) => SelectedService::QueryBusinessListings(b.next()),
        SelectedService::AcquireBusinessListing(b) => SelectedService::AcquireBusinessListing(b.next()),
    }
}

/// The form with the focus on the previous field (wrapping around).
pub open spec fn form_prev(s: SelectedService) -> SelectedService {
    match s {
        SelectedService::Register(b) => SelectedService::Register(b.prev()),
        SelectedService::VerifyRegistration(b) => SelectedService::VerifyRegistration(b.prev()),
        SelectedService::ResendVerification(b) => SelectedService::ResendVerification(b.prev()),
        SelectedService::Login(b) => SelectedService::Login(b.prev()),
        SelectedService::CreateUser(b) => SelectedService::CreateUser(b.prev()),
        SelectedService::GetUser(b) => SelectedService::GetUser(b.prev()),
        SelectedService::DeleteUser(b) => SelectedService::DeleteUser(b.prev()),
        SelectedService::QueryBusinessListings(b) => SelectedService::QueryBusinessListings(b.prev()),
        SelectedService::AcquireBusinessListing(b) => SelectedService::AcquireBusinessListing(b.prev()),
    }
}

/// The title of the popup that shows a form.
pub open spec fn popup_title(s: SelectedService) -> Seq<char> {
    match s {
        SelectedService::Register(_) => "Register New User"@,
        SelectedService::VerifyRegistration(_) => "Verify a user's registration"@,
        SelectedService::ResendVerification(_) => "Resend a user's verification code"@,
        _ => "Edit Request"@,
    }
}

/// The request a form sends.
#[derive(Debug, Clone, PartialEq, Eq)]
pub enum ServiceRequest {
    Register { user_name: String, user_password: String, email: String, corporation_name: String },
    VerifyRegistration { user_name: String, code: String },
    ResendVerification { user_name: String },
    Login { user_name: String, user_password: String },
    CreateUser {
        user_name: String,
        user_password: String,
        user_email: String,
        user_role: i32,
        corporation_name: String,
    },
    GetUser { user_uuid: String },
    DeleteUser { user_uuid: String },
    QueryBusinessListings {
        min_asking_price: Option<i64>,
        max_asking_price: Option<i64>,
        seller_corporation_uuid: Option<String>,
        market_uuid: Option<String>,
        min_operational_expenses: Option<i64>,
        max_operational_expenses: Option<i64>,
        sort_by: i32,
        sort_direction: i32,
        limit: Option<i64>,
        offset: Option<i64>,
    },
    AcquireBusinessListing { business_listing_uuid: String },
}

/// The role sent when the role field names no known role: a player.
pub const DEFAULT_USER_ROLE: i32 = 2;

/// An optional text field: none when it is empty.
pub open spec fn optional_text(v: String) -> Option<String> {
    if v@.len() == 0 {
        None
    } else {
        Some(v)
    }
}

/// An optional number field: none when it is empty, its value otherwise.
pub open spec fn optional_value(v: String) -> Option<i64> {
    if v@.len() == 0 {
        None
    } else {
        Some(i64_literal(v@)->0 as i64)
    }
}

/// Whether a number field holds what can be sent: nothing, or a number in
/// the range of `i64`.
pub open spec fn number_field_ok(v: String) -> bool {
    v@.len() == 0 || i64_literal(v@) is Some
}

/// Whether the values typed into a form can be sent: one value per field,
/// and every number field empty or a number.
pub open spec fn form_values_ok(s: SelectedService, values: Seq<String>) -> bool {
    &&& values.len() == field_count(s)
    &&& s is QueryBusinessListings ==> {
        &&& number_field_ok(values[0])
        &&& number_field_ok(values[1])
        &&& number_field_ok(values[4])
        &&& number_field_ok(values[5])
        &&& number_field_ok(values[8])
        &&& number_field_ok(values[9])
    }
}

/// The request a form sends, given the first line of each field in display
/// order. The sort order, sort direction and role fields are sent as the
/// codes their names stand for (`sort_by`, `sort_direction`, `user_role`),
/// or a default when the name is unknown: 0 for the sort fields, a player
/// for the role.
pub open spec fn request_of(
    s: SelectedService,
    values: Seq<String>,
    sort_by: Option<i32>,
    sort_direction: Option<i32>,
    user_role: Option<i32>,
) -> ServiceRequest {
    match s {
        SelectedService::Register(_) => ServiceRequest::Register {
            user_name: values[0],
            user_password: values[1],
            email: values[2],
            corporation_name: values[3],
        },
        SelectedService::VerifyRegistration(_) => ServiceRequest::VerifyRegistration {
            user_name: values[0],
            code: values[1],
        },
        SelectedService::ResendVerification(_) => ServiceRequest::ResendVerification { user_name: values[0] },
        SelectedService::Login(_) => ServiceRequest::Login { user_name: values[0], user_password: values[1] },
        SelectedService::CreateUser(_) => ServiceRequest::CreateUser {
            user_name: values[0],
            user_password: values[1],
            user_email: values[2],
            user_role: match user_role {
                Some(r) => r,
                None => DEFAULT_USER_ROLE,
            },
            corporation_name: values[4],
        },
        SelectedService::GetUser(_) => ServiceRequest::GetUser { user_uuid: values[0] },
        SelectedService::DeleteUser(_) => ServiceRequest::DeleteUser { user_uuid: values[0] },
        SelectedService::QueryBusinessListings(_) => ServiceRequest::QueryBusinessListings {
            min_asking_price: optional_value(values[0]),
            max_asking_price: optional_value(values[1]),
            seller_corporation_uuid: optional_text(values[2]),
            market_uuid: optional_text(values[3]),
            min_operational_expenses: optional_value(values[4]),
            max_operational_expenses: optional_value(values[5]),
            sort_by: match sort_by {
                Some(c) => c,
                None => 0,
            },
            sort_direction: match sort_direction {
                Some(c) => c,
                None => 0,
            },
            limit: optional_value(values[8]),
            offset: optional_value(values[9]),
        },
        SelectedService::AcquireBusinessListing(_) => ServiceRequest::AcquireBusinessListing {
            business_listing_uuid: values[0],
        },
    }
}

fn field(title: &'static str, placeholder: &'static str, masked: bool) -> (f: FormField)
    ensures
        f.title == title,
        f.placeholder == placeholder,
        f.masked == masked,
{
    FormField { title, placeholder, masked }
}

fn optional_text_field(v: &String) -> (r: Option<String>)
    ensures
        r == optional_text(*v),
{
    if v.as_str().is_empty() {
        None
    } else {
        Some(v.clone())
    }
}

fn optional_number_field(v: &String) -> (r: Option<i64>)
    requires
        number_field_ok(*v),
    ensures
        r == optional_value(*v),
{
    optional_number(Some(v.as_str()))
}

impl SelectedService {
    /// The fields of this form, in display order.
    pub fn fields(&self) -> (r: Vec<FormField>)
        ensures
            r@.len() == field_count(*self),
            forall|i: int|
                0 <= i < r@.len() ==> {
                    &&& (#[trigger] r@[i]).title@ == field_specs(*self)[i].0
                    &&& r@[i].placeholder@ == field_specs(*self)[i].1
                    &&& r@[i].masked == field_specs(*self)[i].2
                },
    {
        let r = match self {
            SelectedService::Register(_) => vec![
                field("Username", "Mc_Lovin", false),
                field("Password", "my-secret-password", true),
                field("Email", "name@domain.com", false),
                field("Corporation Name", "Lima Hammersmith Inc.", false),
            ],
            SelectedService::VerifyRegistration(_) => vec![
                field("Username", "Mc_Lovin", false),
                field("Code", "8FA3FLI91", false),
            ],
            SelectedService::ResendVerification(_) => vec![field("Username", "Mc_Lovin", false)],
            SelectedService::Login(_) => vec![
                field("Username", "Mc_Lovin", false),
                field("Password", "my-secret-password", true),
            ],
            SelectedService::CreateUser(_) => vec![
                field("Username", "Mc_Lovin", false),
                field("Password", "my-secret-password", true),
                field("Email", "name@domain.com", false),
                field("Role", "1 (Admin) or 2 (Player)", false),
                field("Corporation Name", "Lima Hammersmith Inc.", false),
            ],
            SelectedService::GetUser(_) => vec![field("User UUID", "7a520b51-ad88-446c-84d6-80de0ed99230", false)],
            SelectedService::DeleteUser(_) => vec![field("User UUID", "7a520b51-ad88-446c-84d6-80de0ed99230", false)],
            SelectedService::QueryBusinessListings(_) => vec![
                field("Min. Asking Price", "1000", false),
                field("Max. Asking Price", "2000", false),
                field("Seller Corporation UUID", "0196e20b-c252-7520-ae13-935b5d5f0029", false),
                field("Market UUID", "0196e24f-eda1-7145-a177-8d2f8c38f7c4", false),
                field("Min. Operational Expenses", "10", false),
                field("Max. Operational Expenses", "30", false),
                field("Sort By", "price, name, op_expenses, market_volume", false),
                field("Sort Direction", "0 or 1", false),
                field("Limit", "20", false),
                field("Offset", "50", false),
            ],
            SelectedService::AcquireBusinessListing(_) => vec![
                field("Business listing UUID", "01970208-57a6-712a-a9c1-497e4e71f764", false),
            ],
        };
        r
    }

    /// The position, in display order, of the field that has the focus.
    pub fn focused_field(&self) -> (i: usize)
        ensures
            i == focus_index(*self),
            i < field_count(*self),
    {
        match self {
            SelectedService::Register(b) => match b {
                SelectedBlockRegister::UserName => 0,
                SelectedBlockRegister::UserPassword => 1,
                SelectedBlockRegister::Email => 2,
                SelectedBlockRegister::CorporationName => 3,
            },
            SelectedService::VerifyRegistration(b) => match b {
                SelectedBlockVerify::UserName => 0,
                SelectedBlockVerify::Code => 1,
            },
            SelectedService::ResendVerification(_) => 0,
            SelectedService::Login(b) => match b {
                SelectedBlockLogin::UserName => 0,
                SelectedBlockLogin::UserPassword => 1,
            },
            SelectedService::CreateUser(b) => match b {
                SelectedBlockCreateUser::UserName => 0,
                SelectedBlockCreateUser::UserPassword => 1,
                SelectedBlockCreateUser::UserEmail => 2,
                SelectedBlockCreateUser::UserRole => 3,
                SelectedBlockCreateUser::CorporationName => 4,
            },
            SelectedService::GetUser(_) => 0,
            SelectedService::DeleteUser(_) => 0,
            SelectedService::QueryBusinessListings(b) => match b {
                SelectedBlockQueryBusinessListings::MinAskingPrice => 0,
                SelectedBlockQueryBusinessListings::MaxAskingPrice => 1,
                SelectedBlockQueryBusinessListings::SellerCorporationUuid => 2,
                SelectedBlockQueryBusinessListings::MarketUuid => 3,
                SelectedBlockQueryBusinessListings::MinOperationalExpenses => 4,
                SelectedBlockQueryBusinessListings::MaxOperationalExpenses => 5,
                SelectedBlockQueryBusinessListings::SortBy => 6,
                SelectedBlockQueryBusinessListings::SortDirection => 7,
                SelectedBlockQueryBusinessListings::Limit => 8,
                SelectedBlockQueryBusinessListings::Offset => 9,
            },
            SelectedService::AcquireBusinessListing(_) => 0,
        }
    }

    /// Moves the focus to the next field (`Tab`).
    pub fn advance(&mut self)
        ensures
            *final(self) == form_next(*old(self)),
    {
        match self {
            SelectedService::Register(b) => b.advance(),
            SelectedService::VerifyRegistration(b) => b.advance(),
            SelectedService::ResendVerification(b) => b.advance(),
            SelectedService::Login(b) => b.advance(),
            SelectedService::CreateUser(b) => b.advance(),
            SelectedService::GetUser(b) => b.advance(),
            SelectedService::DeleteUser(b) => b.advance(),
            SelectedService::QueryBusinessListings(b) => b.advance(),
            SelectedService::AcquireBusinessListing(b) => b.advance(),
        }
    }

    /// Moves the focus to the previous field (`Shift`+`Tab`).
    pub fn previous(&mut self)
        ensures
            *final(self) == form_prev(*old(self)),
    {
        match self {
            SelectedService::Register(b) => b.previous(),
            SelectedService::VerifyRegistration(b) => b.previous(),
            SelectedService::ResendVerification(b) => b.previous(),
            SelectedService::Login(b) => b.previous(),
            SelectedService::CreateUser(b) => b.previous(),
            SelectedService::GetUser(b) => b.previous(),
            SelectedService::DeleteUser(b) => b.previous(),
            SelectedService::QueryBusinessListings(b) => b.previous(),
            SelectedService::AcquireBusinessListing(b) => b.previous(),
        }
    }

    /// The request this form sends, from the first line of each field in
    /// display order and the codes the sort order, sort direction and role
    /// names stand for (none for an unknown name).
    pub fn build_request(
        &self,
        values: &Vec<String>,
        sort_by: Option<i32>,
        sort_direction: Option<i32>,
        user_role: Option<i32>,
    ) -> (r: ServiceRequest)
        requires
            form_values_ok(*self, values@),
        ensures
            r == request_of(*self, values@, sort_by, sort_direction, user_role),
    {
        match self {
            SelectedService::Register(_) => ServiceRequest::Register {
                user_name: values[0].clone(),
                user_password: values[1].clone(),
                email: values[2].clone(),
                corporation_name: values[3].clone(),
            },
            SelectedService::VerifyRegistration(_) => ServiceRequest::VerifyRegistration {
                user_name: values[0].clone(),
                code: values[1].clone(),
            },
            SelectedService::ResendVerification(_) => ServiceRequest::ResendVerification {
                user_name: values[0].clone(),
            },
            SelectedService::Login(_) => ServiceRequest::Login {
                user_name: values[0].clone(),
                user_password: values[1].clone(),
            },
            SelectedService::CreateUser(_) => ServiceRequest::CreateUser {
                user_name: values[0].clone(),
                user_password: values[1].clone(),
                user_email: values[2].clone(),
                user_role: match user_role {
                    Some(r) => r,
                    None => DEFAULT_USER_ROLE,
                },
                corporation_name: values[4].clone(),
            },
            SelectedService::GetUser(_) => ServiceRequest::GetUser { user_uuid: values[0].clone() },
            SelectedService::DeleteUser(_) => ServiceRequest::DeleteUser { user_uuid: values[0].clone() },
            SelectedService::QueryBusinessListings(_) => ServiceRequest::QueryBusinessListings {
                min_asking_price: optional_number_field(&values[0]),
                max_asking_price: optional_number_field(&values[1]),
                seller_corporation_uuid: optional_text_field(&values[2]),
                market_uuid: optional_text_field(&values[3]),
                min_operational_expenses: optional_number_field(&values[4]),
                max_operational_expenses: optional_number_field(&values[5]),
                sort_by: match sort_by {
                    Some(c) => c,
                    None => 0,
                },
                sort_direction: match sort_direction {
                    Some(c) => c,
                    None => 0,
                },
                limit: optional_number_field(&values[8]),
                offset: optional_number_field(&values[9]),
            },
            SelectedService::AcquireBusinessListing(_) => ServiceRequest::AcquireBusinessListing {
                business_listing_uuid: values[0].clone(),
            },
        }
    }
}

/// The popup that shows an open form.
#[derive(Debug, Clone, Copy)]
pub struct ServiceDetailWidget;

impl ServiceDetailWidget {
    /// The popup's title for `form`.
    pub fn popup_title(&self, form: &SelectedService) -> (t: &'static str)
        ensures
            t@ == popup_title(*form),
    {
        match form {
            SelectedService::Register(_) => "Register New User",
            SelectedService::VerifyRegistration(_) => "Verify a user's registration",
            SelectedService::ResendVerification(_) => "Resend a user's verification code",
            _ => "Edit Request",
        }
    }
}

/// Moving the focus back after moving it forward returns to the same field,
/// and the other way round; the form stays the same form.
pub proof fn lemma_focus_moves_are_inverse(s: SelectedService)
    ensures
        form_prev(form_next(s)) == s,
        form_next(form_prev(s)) == s,
        same_form(form_next(s), s),
        same_form(form_prev(s), s),
{
}

/// The focus is always on one of the form's fields, and moving it forward
/// goes to the next field in display order, from the last back to the
/// first.
pub proof fn lemma_focus_walks_fields_in_order(s: SelectedService)
    ensures
        0 <= focus_index(s) < field_count(s),
        focus_index(form_next(s)) == if focus_index(s) + 1 == field_count(s) {
            0
        } else {
            focus_index(s) + 1
        },
        field_specs(form_next(s)) == field_specs(s),
{
}

/// Whether the `i`-th field of form `s` (in display order) has this title.
pub open spec fn titled(s: SelectedService, i: int, title: Seq<char>) -> bool {
    0 <= i < field_specs(s).len() && field_specs(s)[i].0 == title
}

/// Whether `v` is the value typed into every field of `s` titled `title`.
pub open spec fn value_of_field(s: SelectedService, values: Seq<String>, title: Seq<char>, v: String) -> bool {
    forall|i: int| #[trigger] titled(s, i, title) ==> v == values[i]
}

/// Whether no two fields of form `s` share a title.
pub open spec fn titles_distinct(s: SelectedService) -> bool {
    forall|i: int, j: int|
        0 <= i < field_specs(s).len() && 0 <= j < field_specs(s).len() && i != j ==> (#[trigger] field_specs(s)[i]).0
            != (#[trigger] field_specs(s)[j]).0
}

/// No form has two fields of the same title.
pub proof fn lemma_titles_distinct(s: SelectedService)
    ensures
        titles_distinct(s),
{
    reveal_strlit("Username");
    reveal_strlit("Password");
    reveal_strlit("Email");
    reveal_strlit("Corporation Name");
    reveal_strlit("Code");
    reveal_strlit("Role");
    reveal_strlit("User UUID");
    reveal_strlit("Business listing UUID");
    reveal_strlit("Min. Asking Price");
    reveal_strlit("Max. Asking Price");
    reveal_strlit("Seller Corporation UUID");
    reveal_strlit("Market UUID");
    reveal_strlit("Min. Operational Expenses");
    reveal_strlit("Max. Operational Expenses");
    reveal_strlit("Sort By");
    reveal_strlit("Sort Direction");
    reveal_strlit("Limit");
    reveal_strlit("Offset");
    let t = field_specs(s);
    assert forall|i: int, j: int| 0 <= i < t.len() && 0 <= j < t.len() && i != j implies (#[trigger] t[i]).0
        != (#[trigger] t[j]).0 by {
        let a = t[i].0;
        let b = t[j].0;
        if a == b {
            assert(a.len() == b.len());
            assert(a[0] == b[0]);
            assert(a[1] == b[1]);
            assert(a[2] == b[2]);
        }
    }
}

/// The request a form sends is the request of that form's service, and
/// each of its text fields carries the value typed into the form field of
/// the matching title: the user name what was typed under "Username", the
/// password what was typed under "Password", and so on. The optional
/// fields of the listing query are left out when empty, its number fields
/// are sent as numbers, and the codes for the sort order, sort direction
/// and role are those given (a default when none is).
pub proof fn lemma_request_fields_by_title(
    s: SelectedService,
    values: Seq<String>,
    sort_by: Option<i32>,
    sort_direction: Option<i32>,
    user_role: Option<i32>,
)
    requires
        values.len() == field_count(s),
    ensures
        ({
            let r = request_of(s, values, sort_by, sort_direction, user_role);
            &&& s is Register <==> r is Register
            &&& s is VerifyRegistration <==> r is VerifyRegistration
            &&& s is ResendVerification <==> r is ResendVerification
            &&& s is Login <==> r is Login
            &&& s is CreateUser <==> r is CreateUser
            &&& s is GetUser <==> r is GetUser
            &&& s is DeleteUser <==> r is DeleteUser
            &&& s is QueryBusinessListings <==> r is QueryBusinessListings
            &&& s is AcquireBusinessListing <==> r is AcquireBusinessListing
            &&& r matches ServiceRequest::Register { user_name, user_password, email, corporation_name } ==> {
                &&& value_of_field(s, values, "Username"@, user_name)
                &&& value_of_field(s, values, "Password"@, user_password)
                &&& value_of_field(s, values, "Email"@, email)
                &&& value_of_field(s, values, "Corporation Name"@, corporation_name)
            }
            &&& r matches ServiceRequest::VerifyRegistration { user_name, code } ==> {
                &&& value_of_field(s, values, "Username"@, user_name)
                &&& value_of_field(s, values, "Code"@, code)
            }
            &&& r matches ServiceRequest::ResendVerification { user_name } ==> value_of_field(
                s,
                values,
                "Username"@,
                user_name,
            )
            &&& r matches ServiceRequest::Login { user_name, user_password } ==> {
                &&& value_of_field(s, values, "Username"@, user_name)
                &&& value_of_field(s, values, "Password"@, user_password)
            }
            &&& r matches ServiceRequest::CreateUser {
                user_name,
                user_password,
                user_email,
                user_role: role,
                corporation_name,
            } ==> {
                &&& value_of_field(s, values, "Username"@, user_name)
                &&& value_of_field(s, values, "Password"@, user_password)
                &&& value_of_field(s, values, "Email"@, user_email)
                &&& value_of_field(s, values, "Corporation Name"@, corporation_name)
                &&& role == match user_role {
                    Some(c) => c,
                    None => DEFAULT_USER_ROLE,
                }
            }
            &&& r matches ServiceRequest::GetUser { user_uuid } ==> value_of_field(s, values, "User UUID"@, user_uuid)
            &&& r matches ServiceRequest::DeleteUser { user_uuid } ==> value_of_field(s, values, "User UUID"@, user_uuid)
            &&& r matches ServiceRequest::AcquireBusinessListing { business_listing_uuid } ==> value_of_field(
                s,
                values,
                "Business listing UUID"@,
                business_listing_uuid,
            )
            &&& r matches ServiceRequest::QueryBusinessListings {
                min_asking_price,
                max_asking_price,
                seller_corporation_uuid,
                market_uuid,
                min_operational_expenses,
                max_operational_expenses,
                sort_by: by,
                sort_direction: dir,
                limit,
                offset,
            } ==> {
                &&& forall|i: int| #[trigger] titled(s, i, "Min. Asking Price"@) ==> min_asking_price == optional_value(values[i])
                &&& forall|i: int| #[trigger] titled(s, i, "Max. Asking Price"@) ==> max_asking_price == optional_value(values[i])
                &&& forall|i: int| #[trigger] titled(s, i, "Seller Corporation UUID"@) ==> seller_corporation_uuid
                    == optional_text(values[i])
                &&& forall|i: int| #[trigger] titled(s, i, "Market UUID"@) ==> market_uuid == optional_text(values[i])
                &&& forall|i: int| #[trigger] titled(s, i, "Min. Operational Expenses"@) ==> min_operational_expenses
                    == optional_value(values[i])
                &&& forall|i: int| #[trigger] titled(s, i, "Max. Operational Expenses"@) ==> max_operational_expenses
                    == optional_value(values[i])
                &&& forall|i: int| #[trigger] titled(s, i, "Limit"@) ==> limit == optional_value(values[i])
                &&& forall|i: int| #[trigger] titled(s, i, "Offset"@) ==> offset == optional_value(values[i])
                &&& by == match sort_by {
                    Some(c) => c,
                    None => 0,
                }
                &&& dir == match sort_direction {
                    Some(c) => c,
                    None => 0,
                }
            }
        }),
{
    lemma_titles_distinct(s);
    reveal_strlit("Username");
    reveal_strlit("Password");
    reveal_strlit("Email");
    reveal_strlit("Corporation Name");
    reveal_strlit("Code");
    reveal_strlit("User UUID");
    reveal_strlit("Business listing UUID");
    reveal_strlit("Min. Asking Price");
    reveal_strlit("Max. Asking Price");
    reveal_strlit("Seller Corporation UUID");
    reveal_strlit("Market UUID");
    reveal_strlit("Min. Operational Expenses");
    reveal_strlit("Max. Operational Expenses");
    reveal_strlit("Limit");
    reveal_strlit("Offset");
}

/// Choosing a service opens the form of that service with the focus on its
/// first field: registration, verification, resending the code, login,
/// creating and deleting a user, and querying listings each open their own
/// form; acquiring a listing (and any other entry) opens the acquisition
/// form.
pub proof fn lemma_service_opens_its_form(a: ServiceAction)
    ensures
        focus_index(form_for(a)) == 0,
        field_count(form_for(a)) > 0,
        a == ServiceAction::Register <==> form_for(a) is Register,
        a == ServiceAction::VerifyRegistration <==> form_for(a) is VerifyRegistration,
        a == ServiceAction::ResendVerification <==> form_for(a) is ResendVerification,
        a == ServiceAction::Login <==> form_for(a) is Login,
        a == ServiceAction::CreateUser <==> form_for(a) is CreateUser,
        a == ServiceAction::DeleteUser <==> form_for(a) is DeleteUser,
        a == ServiceAction::QueryBusinessListings <==> form_for(a) is QueryBusinessListings,
        a == ServiceAction::AcquireListedBusiness ==> form_for(a) is AcquireBusinessListing,
{
}

} // verus!
