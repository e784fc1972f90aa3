use syndicode::server::action::{ActionDetails, QueuedActionPayload};
use syndicode::server::admin::{
    AccountLookup, GetUserAction, GetUserStage, DeleteAction, DeleteEvent, DeleteStage, BootstrapAdminAction, BootstrapAdminEvent, BootstrapAdminStage, BootstrapAdminUseCase, CreateAction, CreateEvent, CreateStage, CreateUserUseCase, DeleteUserUseCase, GetUserUseCase,
};
use syndicode::server::auth::{
    GetUserUseCase as AuthGetUserUseCase, LoginAction, LoginEvent, LoginStage, LoginUseCase, RegisterAction, RegisterEvent, RegisterStage,
    RegisterUserUseCase,
    ResendAction, ResendEvent, ResendStage, ResendVerificationUseCase, VerificationCheck, VerifyAction, VerifyEvent, VerifyStage, VerifyUserUseCase,
};
use syndicode::server::error::{from_repository, ApplicationError, LimitationError, RepositoryError};
use syndicode::server::user::{User, UserRole, UserStatus};

fn make_user(uuid: u128, role: UserRole) -> User {
    User {
        uuid,
        email: "test@example.com".to_string(),
        role,
        name: "Some-Name".to_string(),
        password_hash: "Password-Hash".to_string(),
        status: UserStatus::Active,
    }
}

#[test]
fn test_execute_as_admin() {
    let admin_uuid: u128 = 1;
    let user_uuid: u128 = 2;
    let lookup = GetUserUseCase::first_lookup(admin_uuid, user_uuid);
    assert_eq!(lookup, AccountLookup::Requester(admin_uuid));
    let next = GetUserUseCase::check_requester(Ok(make_user(admin_uuid, UserRole::Admin)), user_uuid);
    assert_eq!(next, Ok(user_uuid));
    let result = GetUserUseCase::finish(Ok(make_user(user_uuid, UserRole::Player)));
    assert!(result.is_ok());
    assert_eq!(result.unwrap().uuid, user_uuid);

    let (mut uc, a) = GetUserUseCase::start(admin_uuid, user_uuid);
    assert_eq!(a, GetUserAction::GetUser(admin_uuid));
    assert_eq!(uc.step(Ok(make_user(admin_uuid, UserRole::Admin))), GetUserAction::GetUser(user_uuid));
    match uc.step(Ok(make_user(user_uuid, UserRole::Player))) {
        GetUserAction::Finish(Ok(u)) => assert_eq!(u.uuid, user_uuid),
        other => panic!("unexpected {other:?}"),
    }
}

#[test]
fn test_execute_as_self() {
    let user_uuid: u128 = 7;
    assert_eq!(GetUserUseCase::first_lookup(user_uuid, user_uuid), AccountLookup::Target(user_uuid));
    let result = GetUserUseCase::finish(Ok(make_user(user_uuid, UserRole::Player)));
    assert!(result.is_ok());
    assert_eq!(result.unwrap().uuid, user_uuid);
}

#[test]
fn test_execute_unauthorized() {
    let req_user_uuid: u128 = 3;
    let user_uuid: u128 = 4;
    assert_eq!(GetUserUseCase::first_lookup(req_user_uuid, user_uuid), AccountLookup::Requester(req_user_uuid));
    let result = GetUserUseCase::check_requester(Ok(make_user(req_user_uuid, UserRole::Player)), user_uuid);
    assert!(matches!(result, Err(ApplicationError::Unauthorized)));

    let (mut uc, _) = GetUserUseCase::start(req_user_uuid, user_uuid);
    let result = uc.step(Ok(make_user(req_user_uuid, UserRole::Player)));
    assert!(matches!(result, GetUserAction::Finish(Err(ApplicationError::Unauthorized))));
    assert_eq!(uc.stage, GetUserStage::Finished);
}

#[test]
fn pending_admin_may_not_read_other_accounts() {
    let mut admin = make_user(1, UserRole::Admin);
    admin.status = UserStatus::Pending;
    assert_eq!(GetUserUseCase::check_requester(Ok(admin), 2), Err(ApplicationError::Unauthorized));
    assert_eq!(
        GetUserUseCase::check_requester(Err(RepositoryError::NotFound), 2),
        Err(ApplicationError::Database(RepositoryError::NotFound))
    );
    assert_eq!(
        GetUserUseCase::finish(Err(RepositoryError::NotFound)).unwrap_err(),
        ApplicationError::Database(RepositoryError::NotFound)
    );
}

#[test]
fn authenticated_read_checks_role_only() {
    let mut admin = make_user(1, UserRole::Admin);
    admin.status = UserStatus::Pending;
    assert_eq!(AuthGetUserUseCase::check_requester(Ok(admin), 2), Ok(2));
    assert_eq!(
        AuthGetUserUseCase::check_requester(Ok(make_user(1, UserRole::Player)), 2),
        Err(ApplicationError::Unauthorized)
    );
    assert_eq!(AuthGetUserUseCase::first_lookup(5, 5), AccountLookup::Target(5));
    assert_eq!(AuthGetUserUseCase::finish(Ok(make_user(5, UserRole::Player))).unwrap().uuid, 5);
}

#[test]
fn should_verify_user_successfully_with_valid_code() {
    let user_uuid: u128 = 12345;
    assert_eq!(VerifyUserUseCase::check_code(false, true), Ok(()));
    let mut pending = make_user(user_uuid, UserRole::Player);
    pending.name = "testuser".to_string();
    pending.status = UserStatus::Pending;
    let activated = VerifyUserUseCase::activate(pending);
    assert_eq!(activated.uuid, user_uuid);
    assert_eq!(activated.status, UserStatus::Active);
    assert_eq!(activated.name, "testuser");
}

#[test]
fn should_return_error_when_verification_code_expired() {
    match VerifyUserUseCase::check_code(true, true).err().unwrap() {
        ApplicationError::VerificationCodeExpired => (),
        other_err => panic!("Expected VerificationCodeExpired, got {other_err:?}"),
    }
    // An expired code is refused as expired even when it is wrong too.
    assert_eq!(VerifyUserUseCase::check_code(true, false), Err(ApplicationError::VerificationCodeExpired));
}

#[test]
fn should_return_error_when_verification_code_incorrect() {
    match VerifyUserUseCase::check_code(false, false).err().unwrap() {
        ApplicationError::VerificationCodeFalse => (),
        other_err => panic!("Expected VerificationCodeFalse, got {other_err:?}"),
    }
}

#[test]
fn login_hides_which_credential_was_wrong() {
    assert_eq!(
        LoginUseCase::check_account(Err(RepositoryError::NotFound)).unwrap_err(),
        ApplicationError::WrongUserCredentials
    );
    assert_eq!(
        LoginUseCase::check_account(Err(RepositoryError::Database("down".to_string()))).unwrap_err(),
        ApplicationError::WrongUserCredentials
    );
    assert_eq!(LoginUseCase::check_account(Ok(make_user(9, UserRole::Player))).unwrap().uuid, 9);
    assert_eq!(LoginUseCase::check_password(false), Err(ApplicationError::WrongUserCredentials));
    assert_eq!(LoginUseCase::check_password(true), Ok(()));
    assert_eq!(LoginUseCase::finish(Ok("token".to_string())), Ok("token".to_string()));
    assert_eq!(
        LoginUseCase::finish(Err("signing failed".to_string())),
        Err(ApplicationError::Other("signing failed".to_string()))
    );
}

#[test]
fn resend_only_for_pending_accounts() {
    let mut u = make_user(1, UserRole::Player);
    assert_eq!(ResendVerificationUseCase::check_pending(&u), Err(ApplicationError::UserNotPending));
    u.status = UserStatus::Pending;
    assert_eq!(ResendVerificationUseCase::check_pending(&u), Ok(()));
}

#[test]
fn register_creates_pending_player_and_corporation_action() {
    let u = RegisterUserUseCase::new_account(
        11,
        "Player_Name".to_string(),
        "hash".to_string(),
        "player@email.com".to_string(),
    );
    assert_eq!(u.uuid, 11);
    assert_eq!(u.name, "Player_Name");
    assert_eq!(u.email, "player@email.com");
    assert_eq!(u.role, UserRole::Player);
    assert_eq!(u.status, UserStatus::Pending);
    assert_eq!(RegisterUserUseCase::check_creation(Ok(())), Ok(()));
    assert_eq!(
        RegisterUserUseCase::check_creation(Err(RepositoryError::UniqueConstraint)),
        Err(ApplicationError::UniqueConstraint)
    );
    assert_eq!(
        RegisterUserUseCase::check_creation(Err(RepositoryError::NotFound)),
        Err(ApplicationError::Database(RepositoryError::NotFound))
    );
    let p = RegisterUserUseCase::corporation_action(11, "Player-Corp".to_string());
    assert_eq!(
        p,
        QueuedActionPayload {
            request_uuid: 11,
            req_user_uuid: 11,
            details: ActionDetails::CreateCorporation { user_uuid: 11, corporation_name: "Player-Corp".to_string() },
        }
    );
}

#[test]
fn admin_creates_active_accounts() {
    assert_eq!(CreateUserUseCase::check_requester(Ok(make_user(1, UserRole::Admin))), Ok(()));
    assert_eq!(
        CreateUserUseCase::check_requester(Ok(make_user(1, UserRole::Player))),
        Err(ApplicationError::Unauthorized)
    );
    assert_eq!(
        CreateUserUseCase::check_name_free::<u128>(Ok(3)),
        Err(ApplicationError::CorporationNameAlreadyTaken)
    );
    assert_eq!(CreateUserUseCase::check_name_free::<u128>(Err(RepositoryError::NotFound)), Ok(()));
    assert_eq!(
        CreateUserUseCase::check_name_free::<u128>(Err(RepositoryError::UniqueConstraint)),
        Err(ApplicationError::Database(RepositoryError::UniqueConstraint))
    );
    let u = CreateUserUseCase::new_account(
        5,
        "Test_User".to_string(),
        "hash".to_string(),
        "test@mail.com".to_string(),
        UserRole::Player,
    );
    assert_eq!(u.status, UserStatus::Active);
    assert_eq!(u.role, UserRole::Player);
    assert_eq!(u.name, "Test_User");
    let p = CreateUserUseCase::corporation_action(100, 1, 5, "Test-Corp".to_string());
    assert_eq!(p.request_uuid, 100);
    assert_eq!(p.req_user_uuid, 1);
    assert_eq!(
        p.details,
        ActionDetails::CreateCorporation { user_uuid: 5, corporation_name: "Test-Corp".to_string() }
    );
}

#[test]
fn bootstrap_admin_is_active_admin() {
    let u = BootstrapAdminUseCase::admin_account(1, "admin".to_string(), "h".to_string(), "a@b.c".to_string());
    assert_eq!(u.role, UserRole::Admin);
    assert_eq!(u.status, UserStatus::Active);
    assert!(u.is_active_admin());
    assert!(!make_user(2, UserRole::Player).is_active_admin());
}

#[test]
fn delete_user_rules() {
    assert!(!DeleteUserUseCase::needs_requester_check(4, 4));
    assert!(DeleteUserUseCase::needs_requester_check(4, 5));
    assert_eq!(DeleteUserUseCase::check_requester(Ok(make_user(4, UserRole::Admin))), Ok(()));
    assert_eq!(
        DeleteUserUseCase::check_requester(Ok(make_user(4, UserRole::Player))),
        Err(ApplicationError::Unauthorized)
    );
    assert_eq!(
        DeleteUserUseCase::deletion_action(Err(RepositoryError::NotFound), 9, 4),
        Err(ApplicationError::CorporationForUserNotFound)
    );
    assert_eq!(
        DeleteUserUseCase::deletion_action(Err(RepositoryError::Database("x".to_string())), 9, 4),
        Err(ApplicationError::Database(RepositoryError::Database("x".to_string())))
    );
    assert_eq!(
        DeleteUserUseCase::deletion_action(Ok(77), 9, 4),
        Ok(QueuedActionPayload {
            request_uuid: 9,
            req_user_uuid: 4,
            details: ActionDetails::DeleteCorporation { corporation_uuid: 77 },
        })
    );
    assert_eq!(DeleteUserUseCase::finish(Ok(())), Ok(()));
    assert_eq!(
        DeleteUserUseCase::finish(Err(RepositoryError::NotFound)),
        Err(ApplicationError::Database(RepositoryError::NotFound))
    );
}

#[test]
fn repository_errors_become_database_errors() {
    assert_eq!(from_repository::<u8>(Ok(3)), Ok(3));
    assert_eq!(
        from_repository::<u8>(Err(RepositoryError::UniqueConstraint)),
        Err(ApplicationError::Database(RepositoryError::UniqueConstraint))
    );
    assert_eq!(
        ApplicationError::from(RepositoryError::NotFound),
        ApplicationError::Database(RepositoryError::NotFound)
    );
    assert_eq!(
        ApplicationError::from(LimitationError::RateExhausted),
        ApplicationError::Limitation(LimitationError::RateExhausted)
    );
}

#[test]
fn action_order_and_names() {
    let create = ActionDetails::CreateCorporation { user_uuid: 1, corporation_name: "C".to_string() };
    let delete = ActionDetails::DeleteCorporation { corporation_uuid: 1 };
    let spawn = ActionDetails::SpawnUnit;
    let acquire = ActionDetails::AcquireListedBusiness { business_listing_uuid: 2 };
    assert_eq!(create.get_order(), 1);
    assert_eq!(spawn.get_order(), 2);
    assert_eq!(acquire.get_order(), 3);
    assert_eq!(delete.get_order(), 4);
    assert_eq!(create.name(), "CreateCorporation");
    assert_eq!(delete.name(), "DeleteCorporation");
    assert_eq!(spawn.name(), "SpawnUnit");
    assert_eq!(acquire.name(), "AcquireListedBusiness");
}

#[test]
fn register_refuses_taken_corporation_name() {
    assert_eq!(
        RegisterUserUseCase::check_name_free::<u128>(Ok(1)),
        Err(ApplicationError::CorporationNameAlreadyTaken)
    );
    assert_eq!(RegisterUserUseCase::check_name_free::<u128>(Err(RepositoryError::NotFound)), Ok(()));
}

#[test]
fn fresh_accounts_get_version_7_ids() {
    let p = RegisterUserUseCase::new_player("n".to_string(), "h".to_string(), "e@x.y".to_string());
    assert_eq!((p.uuid >> 76) & 0xf, 7);
    assert_eq!((p.uuid >> 62) & 0x3, 2);
    assert_eq!(p.status, UserStatus::Pending);
    let q = RegisterUserUseCase::new_player("m".to_string(), "h".to_string(), "e@x.y".to_string());
    assert_ne!(p.uuid, q.uuid);
    let a = BootstrapAdminUseCase::bootstrap_account("admin".to_string(), "h".to_string(), "a@b.c".to_string());
    assert_eq!((a.uuid >> 76) & 0xf, 7);
    assert!(a.is_active_admin());
    let c = CreateUserUseCase::create_account("u".to_string(), "h".to_string(), "u@b.c".to_string(), UserRole::Player);
    assert_eq!((c.uuid >> 76) & 0xf, 7);
    assert_eq!(c.status, UserStatus::Active);
}

#[test]
fn bootstrap_admin_creation_outcomes() {
    assert_eq!(BootstrapAdminUseCase::check_creation(Ok(())), Ok(()));
    assert_eq!(
        BootstrapAdminUseCase::check_creation(Err(RepositoryError::UniqueConstraint)),
        Err(ApplicationError::UniqueConstraint)
    );
    assert_eq!(
        BootstrapAdminUseCase::check_creation(Err(RepositoryError::Database("x".to_string()))),
        Err(ApplicationError::Database(RepositoryError::Database("x".to_string())))
    );
}

fn pending_user(uuid: u128) -> User {
    let mut u = make_user(uuid, UserRole::Player);
    u.name = "testuser".to_string();
    u.status = UserStatus::Pending;
    u
}

#[test]
fn verification_stores_active_account_and_deletes_code() {
    let (mut uc, a) = VerifyUserUseCase::start("testuser".to_string());
    assert!(matches!(a, VerifyAction::GetUserByName(ref n) if n == "testuser"));
    assert!(matches!(uc.step(VerifyEvent::User(Ok(pending_user(12345)))), VerifyAction::GetVerification(12345)));
    match uc.step(VerifyEvent::Verification(Ok(VerificationCheck { expired: false, correct: true }))) {
        VerifyAction::UpdateUser(u) => {
            assert_eq!(u.uuid, 12345);
            assert_eq!(u.status, UserStatus::Active);
            assert_eq!(u.name, "testuser");
        }
        other => panic!("unexpected {other:?}"),
    }
    assert!(matches!(uc.step(VerifyEvent::Done(Ok(()))), VerifyAction::DeleteVerification(12345)));
    assert!(matches!(uc.step(VerifyEvent::Done(Ok(()))), VerifyAction::Finish(Ok(12345))));
    assert_eq!(uc.stage, VerifyStage::Finished);
}

#[test]
fn verification_stores_nothing_on_a_bad_code() {
    let (mut uc, _) = VerifyUserUseCase::start("testuser".to_string());
    uc.step(VerifyEvent::User(Ok(pending_user(1))));
    assert!(matches!(
        uc.step(VerifyEvent::Verification(Ok(VerificationCheck { expired: true, correct: false }))),
        VerifyAction::Finish(Err(ApplicationError::VerificationCodeExpired))
    ));
    let (mut uc, _) = VerifyUserUseCase::start("testuser".to_string());
    uc.step(VerifyEvent::User(Ok(pending_user(1))));
    assert!(matches!(
        uc.step(VerifyEvent::Verification(Ok(VerificationCheck { expired: false, correct: false }))),
        VerifyAction::Finish(Err(ApplicationError::VerificationCodeFalse))
    ));
    let (mut uc, _) = VerifyUserUseCase::start("nobody".to_string());
    assert!(matches!(
        uc.step(VerifyEvent::User(Err(RepositoryError::NotFound))),
        VerifyAction::Finish(Err(ApplicationError::Database(RepositoryError::NotFound)))
    ));
}

fn start_registration() -> RegisterUserUseCase {
    let (uc, a) = RegisterUserUseCase::start(
        "Player_Name".to_string(),
        "Player_Password".to_string(),
        "player@email.com".to_string(),
        "Player-Corp".to_string(),
    );
    assert_eq!(a, RegisterAction::ValidateAccount);
    assert_eq!((uc.user_uuid >> 76) & 0xf, 7);
    uc
}

#[test]
fn registration_stores_mails_and_queues_in_order() {
    let mut uc = start_registration();
    let id = uc.user_uuid;
    assert_eq!(uc.step(RegisterEvent::Checked(Ok(()))), RegisterAction::HashPassword("Player_Password".to_string()));
    assert_eq!(
        uc.step(RegisterEvent::Hashed(Ok("hash".to_string()))),
        RegisterAction::ValidateCorporationName("Player-Corp".to_string())
    );
    assert_eq!(uc.step(RegisterEvent::Checked(Ok(()))), RegisterAction::LookUpCorporationName("Player-Corp".to_string()));
    match uc.step(RegisterEvent::NameLookup(Err(RepositoryError::NotFound))) {
        RegisterAction::CreateAccount(u) => {
            assert_eq!(u.uuid, id);
            assert_eq!(u.password_hash, "hash");
            assert_eq!(u.status, UserStatus::Pending);
            assert_eq!(u.role, UserRole::Player);
        }
        other => panic!("unexpected {other:?}"),
    }
    assert_eq!(uc.step(RegisterEvent::Created(Ok(()))), RegisterAction::CreateVerification(id));
    assert_eq!(uc.step(RegisterEvent::Done(Ok(()))), RegisterAction::SendVerificationEmail(id));
    assert_eq!(
        uc.step(RegisterEvent::Checked(Ok(()))),
        RegisterAction::Enqueue(QueuedActionPayload {
            request_uuid: id,
            req_user_uuid: id,
            details: ActionDetails::CreateCorporation { user_uuid: id, corporation_name: "Player-Corp".to_string() },
        })
    );
    match uc.step(RegisterEvent::Checked(Ok(()))) {
        RegisterAction::Finish(Ok(u)) => assert_eq!(u.name, "Player_Name"),
        other => panic!("unexpected {other:?}"),
    }
    assert_eq!(uc.stage, RegisterStage::Finished);
}

#[test]
fn registration_stops_before_storing_on_a_taken_name_or_bad_input() {
    let mut uc = start_registration();
    uc.step(RegisterEvent::Checked(Ok(())));
    uc.step(RegisterEvent::Hashed(Ok("hash".to_string())));
    uc.step(RegisterEvent::Checked(Ok(())));
    assert_eq!(
        uc.step(RegisterEvent::NameLookup(Ok(()))),
        RegisterAction::Finish(Err(ApplicationError::CorporationNameAlreadyTaken))
    );
    let mut uc = start_registration();
    assert_eq!(
        uc.step(RegisterEvent::Checked(Err(ApplicationError::UsernameInvalid))),
        RegisterAction::Finish(Err(ApplicationError::UsernameInvalid))
    );
    let mut uc = start_registration();
    uc.step(RegisterEvent::Checked(Ok(())));
    uc.step(RegisterEvent::Hashed(Ok("hash".to_string())));
    uc.step(RegisterEvent::Checked(Ok(())));
    uc.step(RegisterEvent::NameLookup(Err(RepositoryError::NotFound)));
    assert_eq!(
        uc.step(RegisterEvent::Created(Err(RepositoryError::UniqueConstraint))),
        RegisterAction::Finish(Err(ApplicationError::UniqueConstraint))
    );
}

#[test]
fn deletion_queues_the_corporation_before_deleting_the_account() {
    let (mut uc, a) = DeleteUserUseCase::start(9, 1, 4);
    assert_eq!(a, DeleteAction::GetRequester(1));
    assert_eq!(uc.step(DeleteEvent::Requester(Ok(make_user(1, UserRole::Admin)))), DeleteAction::GetCorporationOfUser(4));
    assert_eq!(
        uc.step(DeleteEvent::Corporation(Ok(77))),
        DeleteAction::Enqueue(QueuedActionPayload {
            request_uuid: 9,
            req_user_uuid: 1,
            details: ActionDetails::DeleteCorporation { corporation_uuid: 77 },
        })
    );
    assert_eq!(uc.step(DeleteEvent::Queued(Ok(()))), DeleteAction::DeleteUser(4));
    assert_eq!(uc.step(DeleteEvent::Done(Ok(()))), DeleteAction::Finish(Ok(())));
    assert_eq!(uc.stage, DeleteStage::Finished);
}

#[test]
fn deletion_of_own_account_skips_the_rights_check_and_stops_on_errors() {
    let (mut uc, a) = DeleteUserUseCase::start(9, 4, 4);
    assert_eq!(a, DeleteAction::GetCorporationOfUser(4));
    assert_eq!(
        uc.step(DeleteEvent::Corporation(Err(RepositoryError::NotFound))),
        DeleteAction::Finish(Err(ApplicationError::CorporationForUserNotFound))
    );
    let (mut uc, _) = DeleteUserUseCase::start(9, 1, 4);
    assert_eq!(
        uc.step(DeleteEvent::Requester(Ok(make_user(1, UserRole::Player)))),
        DeleteAction::Finish(Err(ApplicationError::Unauthorized))
    );
}

#[test]
fn login_signs_a_token_only_for_a_matching_password() {
    let (mut uc, a) = LoginUseCase::start("n".to_string(), "pw".to_string());
    assert_eq!(a, LoginAction::GetUserByName("n".to_string()));
    assert_eq!(
        uc.step(LoginEvent::User(Ok(make_user(3, UserRole::Admin)))),
        LoginAction::VerifyPassword { password_hash: "Password-Hash".to_string(), password: "pw".to_string() }
    );
    assert_eq!(uc.step(LoginEvent::PasswordChecked(true)), LoginAction::EncodeToken { user_uuid: 3, role: UserRole::Admin });
    assert_eq!(uc.step(LoginEvent::Token(Ok("jwt".to_string()))), LoginAction::Finish(Ok("jwt".to_string())));
    assert_eq!(uc.stage, LoginStage::Finished);

    let (mut uc, _) = LoginUseCase::start("n".to_string(), "bad".to_string());
    uc.step(LoginEvent::User(Ok(make_user(3, UserRole::Admin))));
    assert_eq!(uc.step(LoginEvent::PasswordChecked(false)), LoginAction::Finish(Err(ApplicationError::WrongUserCredentials)));
    let (mut uc, _) = LoginUseCase::start("nobody".to_string(), "pw".to_string());
    assert_eq!(
        uc.step(LoginEvent::User(Err(RepositoryError::NotFound))),
        LoginAction::Finish(Err(ApplicationError::WrongUserCredentials))
    );
}

#[test]
fn own_account_is_read_directly() {
    let (mut uc, a) = GetUserUseCase::start(7, 7);
    assert_eq!(a, GetUserAction::GetUser(7));
    assert_eq!(uc.stage, GetUserStage::Reading);
    assert_eq!(
        uc.step(Err(RepositoryError::NotFound)),
        GetUserAction::Finish(Err(ApplicationError::Database(RepositoryError::NotFound)))
    );
    // Reading as a logged-in user checks the role only.
    let mut pending_admin = make_user(1, UserRole::Admin);
    pending_admin.status = UserStatus::Pending;
    let (mut uc, _) = AuthGetUserUseCase::start(1, 2);
    assert_eq!(uc.step(Ok(pending_admin)), GetUserAction::GetUser(2));
}

#[test]
fn resend_stores_and_mails_a_code_for_pending_accounts_only() {
    let (mut uc, a) = ResendVerificationUseCase::start("testuser".to_string());
    assert_eq!(a, ResendAction::GetUserByName("testuser".to_string()));
    assert_eq!(uc.step(ResendEvent::User(Ok(pending_user(5)))), ResendAction::UpdateVerification(5));
    assert_eq!(uc.step(ResendEvent::Stored(Ok(()))), ResendAction::SendVerificationEmail(5));
    match uc.step(ResendEvent::Mailed(Ok(()))) {
        ResendAction::Finish(Ok(u)) => assert_eq!(u.uuid, 5),
        other => panic!("unexpected {other:?}"),
    }
    assert_eq!(uc.stage, ResendStage::Finished);
    let (mut uc, _) = ResendVerificationUseCase::start("active".to_string());
    assert_eq!(
        uc.step(ResendEvent::User(Ok(make_user(6, UserRole::Player)))),
        ResendAction::Finish(Err(ApplicationError::UserNotPending))
    );
}

#[test]
fn admin_account_creation_runs_checks_before_storing() {
    let (mut uc, a) = CreateUserUseCase::start(
        100,
        1,
        "Test_User".to_string(),
        "Secret-Password".to_string(),
        "test@mail.com".to_string(),
        UserRole::Player,
        "Test-Corp".to_string(),
    );
    assert_eq!(a, CreateAction::ValidateAccount);
    assert_eq!(uc.stage, CreateStage::ValidatingAccount);
    assert_eq!(uc.step(CreateEvent::Checked(Ok(()))), CreateAction::GetRequester(1));
    assert_eq!(
        uc.step(CreateEvent::Requester(Ok(make_user(1, UserRole::Admin)))),
        CreateAction::ValidateCorporationName("Test-Corp".to_string())
    );
    assert_eq!(uc.step(CreateEvent::Checked(Ok(()))), CreateAction::LookUpCorporationName("Test-Corp".to_string()));
    assert_eq!(
        uc.step(CreateEvent::NameLookup(Err(RepositoryError::NotFound))),
        CreateAction::HashPassword("Secret-Password".to_string())
    );
    let user_uuid = uc.user_uuid;
    match uc.step(CreateEvent::Hashed(Ok("hash".to_string()))) {
        CreateAction::CreateAccount(u) => {
            assert_eq!(u.uuid, user_uuid);
            assert_eq!(u.status, UserStatus::Active);
            assert_eq!(u.password_hash, "hash");
            assert_eq!(u.name, "Test_User");
        }
        other => panic!("unexpected action {:?}", other),
    }
    assert_eq!(
        uc.step(CreateEvent::Created(Ok(()))),
        CreateAction::Enqueue(QueuedActionPayload {
            request_uuid: 100,
            req_user_uuid: 1,
            details: ActionDetails::CreateCorporation { user_uuid, corporation_name: "Test-Corp".to_string() },
        })
    );
    match uc.step(CreateEvent::Checked(Ok(()))) {
        CreateAction::Finish(Ok(u)) => assert_eq!(u.uuid, user_uuid),
        other => panic!("unexpected action {:?}", other),
    }
    assert_eq!(uc.stage, CreateStage::Finished);
}

#[test]
fn admin_account_creation_stops_on_refusals() {
    let start = || {
        CreateUserUseCase::start(
            100,
            1,
            "Test_User".to_string(),
            "Secret-Password".to_string(),
            "test@mail.com".to_string(),
            UserRole::Player,
            "Test-Corp".to_string(),
        )
        .0
    };
    let mut uc = start();
    uc.step(CreateEvent::Checked(Ok(())));
    assert_eq!(
        uc.step(CreateEvent::Requester(Ok(make_user(1, UserRole::Player)))),
        CreateAction::Finish(Err(ApplicationError::Unauthorized))
    );
    let mut uc = start();
    uc.step(CreateEvent::Checked(Ok(())));
    uc.step(CreateEvent::Requester(Ok(make_user(1, UserRole::Admin))));
    uc.step(CreateEvent::Checked(Ok(())));
    assert_eq!(
        uc.step(CreateEvent::NameLookup(Ok(()))),
        CreateAction::Finish(Err(ApplicationError::CorporationNameAlreadyTaken))
    );
    let mut uc = start();
    uc.step(CreateEvent::Checked(Ok(())));
    uc.step(CreateEvent::Requester(Ok(make_user(1, UserRole::Admin))));
    uc.step(CreateEvent::Checked(Ok(())));
    uc.step(CreateEvent::NameLookup(Err(RepositoryError::NotFound)));
    uc.step(CreateEvent::Hashed(Ok("hash".to_string())));
    assert_eq!(
        uc.step(CreateEvent::Created(Err(RepositoryError::UniqueConstraint))),
        CreateAction::Finish(Err(ApplicationError::Database(RepositoryError::UniqueConstraint)))
    );
}

#[test]
fn admin_bootstrap_stores_account_then_corporation() {
    let (mut uc, a) = BootstrapAdminUseCase::start(
        "admin".to_string(),
        "Admin-Password".to_string(),
        "admin@mail.com".to_string(),
        "Admin-Corp".to_string(),
    );
    assert_eq!(a, BootstrapAdminAction::ValidateCredentials);
    assert_eq!(
        uc.step(BootstrapAdminEvent::Checked(Ok(()))),
        BootstrapAdminAction::HashPassword("Admin-Password".to_string())
    );
    assert_eq!(uc.step(BootstrapAdminEvent::Hashed(Ok("hash".to_string()))), BootstrapAdminAction::ValidateEmail);
    let uuid = uc.user_uuid;
    match uc.step(BootstrapAdminEvent::Checked(Ok(()))) {
        BootstrapAdminAction::CreateAccount(u) => {
            assert_eq!(u.uuid, uuid);
            assert_eq!(u.role, UserRole::Admin);
            assert_eq!(u.status, UserStatus::Active);
            assert_eq!(u.password_hash, "hash");
        }
        other => panic!("unexpected action {:?}", other),
    }
    assert_eq!(
        uc.step(BootstrapAdminEvent::Created(Ok(()))),
        BootstrapAdminAction::ValidateCorporationName("Admin-Corp".to_string())
    );
    assert_eq!(
        uc.step(BootstrapAdminEvent::Checked(Ok(()))),
        BootstrapAdminAction::InsertCorporation { user_uuid: uuid, corporation_name: "Admin-Corp".to_string() }
    );
    match uc.step(BootstrapAdminEvent::Inserted(Ok(()))) {
        BootstrapAdminAction::Finish(Ok(u)) => assert_eq!(u.uuid, uuid),
        other => panic!("unexpected action {:?}", other),
    }
    assert_eq!(uc.stage, BootstrapAdminStage::Finished);
}

#[test]
fn admin_bootstrap_reports_taken_account() {
    let (mut uc, _) = BootstrapAdminUseCase::start(
        "admin".to_string(),
        "Admin-Password".to_string(),
        "admin@mail.com".to_string(),
        "Admin-Corp".to_string(),
    );
    uc.step(BootstrapAdminEvent::Checked(Ok(())));
    uc.step(BootstrapAdminEvent::Hashed(Ok("hash".to_string())));
    uc.step(BootstrapAdminEvent::Checked(Ok(())));
    assert_eq!(
        uc.step(BootstrapAdminEvent::Created(Err(RepositoryError::UniqueConstraint))),
        BootstrapAdminAction::Finish(Err(ApplicationError::UniqueConstraint))
    );
    let (mut uc, _) = BootstrapAdminUseCase::start(
        "admin".to_string(),
        "short".to_string(),
        "admin@mail.com".to_string(),
        "Admin-Corp".to_string(),
    );
    assert_eq!(
        uc.step(BootstrapAdminEvent::Checked(Err(ApplicationError::PasswordTooShort(5)))),
        BootstrapAdminAction::Finish(Err(ApplicationError::PasswordTooShort(5)))
    );
    assert_eq!(uc.stage, BootstrapAdminStage::Finished);
}
