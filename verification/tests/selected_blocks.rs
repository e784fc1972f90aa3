use syndicode::client::editing;
use syndicode::client::selected_block;

#[test]
fn editing_selected_block_register_advance_and_previous() {
    let mut b = editing::SelectedBlockRegister::default();
    assert_eq!(b, editing::SelectedBlockRegister::UserName);
    b.advance();
    assert_eq!(b, editing::SelectedBlockRegister::UserPassword);
    b.advance();
    assert_eq!(b, editing::SelectedBlockRegister::Email);
    b.advance();
    assert_eq!(b, editing::SelectedBlockRegister::CorporationName);
    b.advance();
    assert_eq!(b, editing::SelectedBlockRegister::UserName);
    b.previous();
    assert_eq!(b, editing::SelectedBlockRegister::CorporationName);
    b.previous();
    assert_eq!(b, editing::SelectedBlockRegister::Email);
    b.previous();
    assert_eq!(b, editing::SelectedBlockRegister::UserPassword);
    b.previous();
    assert_eq!(b, editing::SelectedBlockRegister::UserName);
    let mut c = editing::SelectedBlockRegister::CorporationName;
    c.advance();
    c.previous();
    assert_eq!(c, editing::SelectedBlockRegister::CorporationName);
}

#[test]
fn editing_selected_block_verify_advance_and_previous() {
    let mut b = editing::SelectedBlockVerify::default();
    assert_eq!(b, editing::SelectedBlockVerify::UserName);
    b.advance();
    assert_eq!(b, editing::SelectedBlockVerify::Code);
    b.advance();
    assert_eq!(b, editing::SelectedBlockVerify::UserName);
    b.previous();
    assert_eq!(b, editing::SelectedBlockVerify::Code);
    b.previous();
    assert_eq!(b, editing::SelectedBlockVerify::UserName);
    let mut c = editing::SelectedBlockVerify::Code;
    c.advance();
    c.previous();
    assert_eq!(c, editing::SelectedBlockVerify::Code);
}

#[test]
fn editing_selected_block_resend_advance_and_previous() {
    let mut b = editing::SelectedBlockResend::default();
    assert_eq!(b, editing::SelectedBlockResend::UserName);
    b.advance();
    assert_eq!(b, editing::SelectedBlockResend::UserName);
    b.previous();
    assert_eq!(b, editing::SelectedBlockResend::UserName);
    let mut c = editing::SelectedBlockResend::UserName;
    c.advance();
    c.previous();
    assert_eq!(c, editing::SelectedBlockResend::UserName);
}

#[test]
fn editing_selected_block_login_advance_and_previous() {
    let mut b = editing::SelectedBlockLogin::default();
    assert_eq!(b, editing::SelectedBlockLogin::UserName);
    b.advance();
    assert_eq!(b, editing::SelectedBlockLogin::UserPassword);
    b.advance();
    assert_eq!(b, editing::SelectedBlockLogin::UserName);
    b.previous();
    assert_eq!(b, editing::SelectedBlockLogin::UserPassword);
    b.previous();
    assert_eq!(b, editing::SelectedBlockLogin::UserName);
    let mut c = editing::SelectedBlockLogin::UserPassword;
    c.advance();
    c.previous();
    assert_eq!(c, editing::SelectedBlockLogin::UserPassword);
}

#[test]
fn selected_block_selected_block_register_advance_and_previous() {
    let mut b = selected_block::SelectedBlockRegister::default();
    assert_eq!(b, selected_block::SelectedBlockRegister::UserName);
    b.advance();
    assert_eq!(b, selected_block::SelectedBlockRegister::UserPassword);
    b.advance();
    assert_eq!(b, selected_block::SelectedBlockRegister::Email);
    b.advance();
    assert_eq!(b, selected_block::SelectedBlockRegister::CorporationName);
    b.advance();
    assert_eq!(b, selected_block::SelectedBlockRegister::UserName);
    b.previous();
    assert_eq!(b, selected_block::SelectedBlockRegister::CorporationName);
    b.previous();
    assert_eq!(b, selected_block::SelectedBlockRegister::Email);
    b.previous();
    assert_eq!(b, selected_block::SelectedBlockRegister::UserPassword);
    b.previous();
    assert_eq!(b, selected_block::SelectedBlockRegister::UserName);
    let mut c = selected_block::SelectedBlockRegister::CorporationName;
    c.advance();
    c.previous();
    assert_eq!(c, selected_block::SelectedBlockRegister::CorporationName);
}

#[test]
fn selected_block_selected_block_verify_advance_and_previous() {
    let mut b = selected_block::SelectedBlockVerify::default();
    assert_eq!(b, selected_block::SelectedBlockVerify::UserName);
    b.advance();
    assert_eq!(b, selected_block::SelectedBlockVerify::Code);
    b.advance();
    assert_eq!(b, selected_block::SelectedBlockVerify::UserName);
    b.previous();
    assert_eq!(b, selected_block::SelectedBlockVerify::Code);
    b.previous();
    assert_eq!(b, selected_block::SelectedBlockVerify::UserName);
    let mut c = selected_block::SelectedBlockVerify::Code;
    c.advance();
    c.previous();
    assert_eq!(c, selected_block::SelectedBlockVerify::Code);
}

#[test]
fn selected_block_selected_block_resend_advance_and_previous() {
    let mut b = selected_block::SelectedBlockResend::default();
    assert_eq!(b, selected_block::SelectedBlockResend::UserName);
    b.advance();
    assert_eq!(b, selected_block::SelectedBlockResend::UserName);
    b.previous();
    assert_eq!(b, selected_block::SelectedBlockResend::UserName);
    let mut c = selected_block::SelectedBlockResend::UserName;
    c.advance();
    c.previous();
    assert_eq!(c, selected_block::SelectedBlockResend::UserName);
}

#[test]
fn selected_block_selected_block_login_advance_and_previous() {
    let mut b = selected_block::SelectedBlockLogin::default();
    assert_eq!(b, selected_block::SelectedBlockLogin::UserName);
    b.advance();
    assert_eq!(b, selected_block::SelectedBlockLogin::UserPassword);
    b.advance();
    assert_eq!(b, selected_block::SelectedBlockLogin::UserName);
    b.previous();
    assert_eq!(b, selected_block::SelectedBlockLogin::UserPassword);
    b.previous();
    assert_eq!(b, selected_block::SelectedBlockLogin::UserName);
    let mut c = selected_block::SelectedBlockLogin::UserPassword;
    c.advance();
    c.previous();
    assert_eq!(c, selected_block::SelectedBlockLogin::UserPassword);
}

#[test]
fn selected_block_selected_block_create_user_advance_and_previous() {
    let mut b = selected_block::SelectedBlockCreateUser::default();
    assert_eq!(b, selected_block::SelectedBlockCreateUser::UserName);
    b.advance();
    assert_eq!(b, selected_block::SelectedBlockCreateUser::UserPassword);
    b.advance();
    assert_eq!(b, selected_block::SelectedBlockCreateUser::UserEmail);
    b.advance();
    assert_eq!(b, selected_block::SelectedBlockCreateUser::UserRole);
    b.advance();
    assert_eq!(b, selected_block::SelectedBlockCreateUser::CorporationName);
    b.advance();
    assert_eq!(b, selected_block::SelectedBlockCreateUser::UserName);
    b.previous();
    assert_eq!(b, selected_block::SelectedBlockCreateUser::CorporationName);
    b.previous();
    assert_eq!(b, selected_block::SelectedBlockCreateUser::UserRole);
    b.previous();
    assert_eq!(b, selected_block::SelectedBlockCreateUser::UserEmail);
    b.previous();
    assert_eq!(b, selected_block::SelectedBlockCreateUser::UserPassword);
    b.previous();
    assert_eq!(b, selected_block::SelectedBlockCreateUser::UserName);
    let mut c = selected_block::SelectedBlockCreateUser::CorporationName;
    c.advance();
    c.previous();
    assert_eq!(c, selected_block::SelectedBlockCreateUser::CorporationName);
}

#[test]
fn selected_block_selected_block_get_user_advance_and_previous() {
    let mut b = selected_block::SelectedBlockGetUser::default();
    assert_eq!(b, selected_block::SelectedBlockGetUser::UserUuid);
    b.advance();
    assert_eq!(b, selected_block::SelectedBlockGetUser::UserUuid);
    b.previous();
    assert_eq!(b, selected_block::SelectedBlockGetUser::UserUuid);
    let mut c = selected_block::SelectedBlockGetUser::UserUuid;
    c.advance();
    c.previous();
    assert_eq!(c, selected_block::SelectedBlockGetUser::UserUuid);
}

#[test]
fn selected_block_selected_block_delete_user_advance_and_previous() {
    let mut b = selected_block::SelectedBlockDeleteUser::default();
    assert_eq!(b, selected_block::SelectedBlockDeleteUser::UserUuid);
    b.advance();
    assert_eq!(b, selected_block::SelectedBlockDeleteUser::UserUuid);
    b.previous();
    assert_eq!(b, selected_block::SelectedBlockDeleteUser::UserUuid);
    let mut c = selected_block::SelectedBlockDeleteUser::UserUuid;
    c.advance();
    c.previous();
    assert_eq!(c, selected_block::SelectedBlockDeleteUser::UserUuid);
}

#[test]
fn selected_block_selected_block_query_business_listings_advance_and_previous() {
    let mut b = selected_block::SelectedBlockQueryBusinessListings::default();
    assert_eq!(b, selected_block::SelectedBlockQueryBusinessListings::MinAskingPrice);
    b.advance();
    assert_eq!(b, selected_block::SelectedBlockQueryBusinessListings::MaxAskingPrice);
    b.advance();
    assert_eq!(b, selected_block::SelectedBlockQueryBusinessListings::SellerCorporationUuid);
    b.advance();
    assert_eq!(b, selected_block::SelectedBlockQueryBusinessListings::MarketUuid);
    b.advance();
    assert_eq!(b, selected_block::SelectedBlockQueryBusinessListings::MinOperationalExpenses);
    b.advance();
    assert_eq!(b, selected_block::SelectedBlockQueryBusinessListings::MaxOperationalExpenses);
    b.advance();
    assert_eq!(b, selected_block::SelectedBlockQueryBusinessListings::SortBy);
    b.advance();
    assert_eq!(b, selected_block::SelectedBlockQueryBusinessListings::SortDirection);
    b.advance();
    assert_eq!(b, selected_block::SelectedBlockQueryBusinessListings::Limit);
    b.advance();
    assert_eq!(b, selected_block::SelectedBlockQueryBusinessListings::Offset);
    b.advance();
    assert_eq!(b, selected_block::SelectedBlockQueryBusinessListings::MinAskingPrice);
    b.previous();
    assert_eq!(b, selected_block::SelectedBlockQueryBusinessListings::Offset);
    b.previous();
    assert_eq!(b, selected_block::SelectedBlockQueryBusinessListings::Limit);
    b.previous();
    assert_eq!(b, selected_block::SelectedBlockQueryBusinessListings::SortDirection);
    b.previous();
    assert_eq!(b, selected_block::SelectedBlockQueryBusinessListings::SortBy);
    b.previous();
    assert_eq!(b, selected_block::SelectedBlockQueryBusinessListings::MaxOperationalExpenses);
    b.previous();
    assert_eq!(b, selected_block::SelectedBlockQueryBusinessListings::MinOperationalExpenses);
    b.previous();
    assert_eq!(b, selected_block::SelectedBlockQueryBusinessListings::MarketUuid);
    b.previous();
    assert_eq!(b, selected_block::SelectedBlockQueryBusinessListings::SellerCorporationUuid);
    b.previous();
    assert_eq!(b, selected_block::SelectedBlockQueryBusinessListings::MaxAskingPrice);
    b.previous();
    assert_eq!(b, selected_block::SelectedBlockQueryBusinessListings::MinAskingPrice);
    let mut c = selected_block::SelectedBlockQueryBusinessListings::Offset;
    c.advance();
    c.previous();
    assert_eq!(c, selected_block::SelectedBlockQueryBusinessListings::Offset);
}

#[test]
fn selected_block_selected_block_acquire_business_listing_advance_and_previous() {
    let mut b = selected_block::SelectedBlockAcquireBusinessListing::default();
    assert_eq!(b, selected_block::SelectedBlockAcquireBusinessListing::BusinessListingUuid);
    b.advance();
    assert_eq!(b, selected_block::SelectedBlockAcquireBusinessListing::BusinessListingUuid);
    b.previous();
    assert_eq!(b, selected_block::SelectedBlockAcquireBusinessListing::BusinessListingUuid);
    let mut c = selected_block::SelectedBlockAcquireBusinessListing::BusinessListingUuid;
    c.advance();
    c.previous();
    assert_eq!(c, selected_block::SelectedBlockAcquireBusinessListing::BusinessListingUuid);
}
