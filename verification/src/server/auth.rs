//! The authentication use cases: registering, verifying, logging in and
//! reading one's account.
//!
//! As for the administration use cases, the decisions are here, one
//! function per point where a use case decides, taking the outcome of the
//! previous call.
use crate::server::action::{ActionDetails, QueuedActionPayload};
use crate::server::admin::{first_lookup, get_user_start, get_user_step, AccountLookup, GetUserAction, GetUserStage};
use crate::server::error::{lifted, ApplicationError, RepositoryError};
use crate::server::ids::{is_uuid_v7, new_uuid_v7};
use crate::server::user::{copy_user, User, UserRole, UserStatus};
use vstd::prelude::*;

verus! {

/// The verdict on the requester's account when reading another user's
/// account: administrators only (the account's status is not checked).
pub open spec fn role_authorization(requester: Result<User, RepositoryError>) -> Result<(), ApplicationError> {
    match requester {
        Err(e) => Err(ApplicationError::Database(e)),
        Ok(u) => if u.role == UserRole::Admin {
            Ok(())
        } else {
            Err(ApplicationError::Unauthorized)
        },
    }
}

/// The rules of reading an account as a logged-in user, and the state of
/// one read.
#[derive(Debug, Clone, Copy, PartialEq, Eq, Structural)]
pub struct GetUserUseCase {
    pub stage: GetUserStage,
    pub user_uuid: u128,
}

impl GetUserUseCase {
    /// Starts reading account `user_uuid` for `req_user_uuid`.
    pub fn start(req_user_uuid: u128, user_uuid: u128) -> (r: (Self, GetUserAction))
        ensures
            (r.0.stage, r.1) == get_user_start(req_user_uuid, user_uuid),
            r.0.user_uuid == user_uuid,
    {
        match Self::first_lookup(req_user_uuid, user_uuid) {
            AccountLookup::Requester(r) => (
                GetUserUseCase { stage: GetUserStage::CheckingRequester, user_uuid },
                GetUserAction::GetUser(r),
            ),
            AccountLookup::Target(t) => (GetUserUseCase { stage: GetUserStage::Reading, user_uuid }, GetUserAction::GetUser(t)),
        }
    }

    /// Advances with the account that was read; a requester reading someone
    /// else's account must be an administrator.
    pub fn step(&mut self, read: Result<User, RepositoryError>) -> (a: GetUserAction)
        requires
            old(self).stage != GetUserStage::Finished,
        ensures
            (final(self).stage, a) == get_user_step(old(self).stage, old(self).user_uuid, read, |r| role_authorization(r)),
            final(self).user_uuid == old(self).user_uuid,
    {
        if self.stage == GetUserStage::CheckingRequester {
            match Self::check_requester(read, self.user_uuid) {
                Err(e) => {
                    self.stage = GetUserStage::Finished;
                    GetUserAction::Finish(Err(e))
                },
                Ok(u) => {
                    self.stage = GetUserStage::Reading;
                    GetUserAction::GetUser(u)
                },
            }
        } else {
            self.stage = GetUserStage::Finished;
            GetUserAction::Finish(Self::finish(read))
        }
    }

    /// The first account to read: the requester's when the request is about
    /// someone else's account, the account itself otherwise.
    pub fn first_lookup(req_user_uuid: u128, user_uuid: u128) -> (l: AccountLookup)
        ensures
            l == first_lookup(req_user_uuid, user_uuid),
    {
        crate::server::admin::GetUserUseCase::first_lookup(req_user_uuid, user_uuid)
    }

    /// Checks the requester's account: only an administrator may read
    /// another user's account. Returns the account to read next.
    pub fn check_requester(requester: Result<User, RepositoryError>, user_uuid: u128) -> (r: Result<u128, ApplicationError>)
        ensures
            r == match role_authorization(requester) {
                Ok(()) => Ok(user_uuid),
                Err(e) => Err(e),
            },
    {
        match requester {
            Err(e) => Err(ApplicationError::Database(e)),
            Ok(u) => {
                if u.role == UserRole::Admin {
                    Ok(user_uuid)
                } else {
                    Err(ApplicationError::Unauthorized)
                }
            },
        }
    }

    /// The answer once the requested account has been read.
    pub fn finish(user: Result<User, RepositoryError>) -> (r: Result<User, ApplicationError>)
        ensures
            r == lifted(user),
    {
        crate::server::admin::GetUserUseCase::finish(user)
    }
}

/// The rules of logging in. Every failure to find the account or to match
/// the password is reported the same way, so that a caller cannot tell
/// which of the two was wrong.
#[derive(Debug)]
pub struct LoginUseCase {
    pub stage: LoginStage,
    pub password: String,
    /// The account found, once found.
    pub user_uuid: u128,
    pub role: UserRole,
}

/// What a login waits for.
#[derive(Debug, Clone, Copy, PartialEq, Eq, Structural)]
pub enum LoginStage {
    FindingUser,
    CheckingPassword,
    Signing,
    Finished,
}

/// What the caller of a login has to do next.
#[derive(Debug, PartialEq, Eq)]
pub enum LoginAction {
    /// Read the account with this name.
    GetUserByName(String),
    /// Check `password` against the stored hash.
    VerifyPassword { password_hash: String, password: String },
    /// Sign a token for this user and role.
    EncodeToken { user_uuid: u128, role: UserRole },
    /// The login is over: the token, or why not.
    Finish(Result<String, ApplicationError>),
}

/// The outcome of the last action of a login.
#[derive(Debug)]
pub enum LoginEvent {
    User(Result<User, RepositoryError>),
    /// Whether the password matched the stored hash.
    PasswordChecked(bool),
    /// The signed token, or the signer's failure.
    Token(Result<String, String>),
}

/// The next state and action of a login after `event`: the account is read
/// by name, the password checked, and a token signed; a missing account and
/// a wrong password end it with the same `WrongUserCredentials`.
pub open spec fn login_step(s: LoginUseCase, event: LoginEvent) -> (LoginUseCase, LoginAction) {
    let finished = LoginUseCase { stage: LoginStage::Finished, ..s };
    match event {
        LoginEvent::User(Err(_)) => (finished, LoginAction::Finish(Err(ApplicationError::WrongUserCredentials))),
        LoginEvent::User(Ok(u)) => (
            LoginUseCase { stage: LoginStage::CheckingPassword, user_uuid: u.uuid, role: u.role, ..s },
            LoginAction::VerifyPassword { password_hash: u.password_hash, password: s.password },
        ),
        LoginEvent::PasswordChecked(false) => (
            finished,
            LoginAction::Finish(Err(ApplicationError::WrongUserCredentials)),
        ),
        LoginEvent::PasswordChecked(true) => (
            LoginUseCase { stage: LoginStage::Signing, ..s },
            LoginAction::EncodeToken { user_uuid: s.user_uuid, role: s.role },
        ),
        LoginEvent::Token(Ok(t)) => (finished, LoginAction::Finish(Ok(t))),
        LoginEvent::Token(Err(m)) => (finished, LoginAction::Finish(Err(ApplicationError::Other(m)))),
    }
}

/// Whether `event` is an outcome a login waits for in `stage`.
pub open spec fn login_event_expected(stage: LoginStage, event: LoginEvent) -> bool {
    match stage {
        LoginStage::FindingUser => event is User,
        LoginStage::CheckingPassword => event is PasswordChecked,
        LoginStage::Signing => event is Token,
        LoginStage::Finished => false,
    }
}

/// A token is only signed for an account that was found and whose password
/// matched; a missing account and a wrong password give the same answer.
pub proof fn lemma_login_signs_only_matching_passwords(s: LoginUseCase, event: LoginEvent, e: RepositoryError)
    requires
        login_event_expected(s.stage, event),
    ensures
        login_step(s, event).1 is EncodeToken ==> s.stage == LoginStage::CheckingPassword && event
            == LoginEvent::PasswordChecked(true),
        login_step(s, LoginEvent::User(Err(e))).1 == login_step(s, LoginEvent::PasswordChecked(false)).1,
{
}

impl LoginUseCase {
    /// Starts logging `user_name` in with `password`.
    pub fn start(user_name: String, password: String) -> (r: (Self, LoginAction))
        ensures
            r.0.stage == LoginStage::FindingUser,
            r.0.password == password,
            r.1 == LoginAction::GetUserByName(user_name),
    {
        (
            LoginUseCase { stage: LoginStage::FindingUser, password, user_uuid: 0, role: UserRole::Player },
            LoginAction::GetUserByName(user_name),
        )
    }

    /// Advances with the outcome of the last action.
    pub fn step(&mut self, event: LoginEvent) -> (a: LoginAction)
        requires
            login_event_expected(old(self).stage, event),
        ensures
            (*final(self), a) == login_step(*old(self), event),
    {
        match event {
            LoginEvent::User(found) => match Self::check_account(found) {
                Err(e) => {
                    self.stage = LoginStage::Finished;
                    LoginAction::Finish(Err(e))
                },
                Ok(u) => {
                    self.stage = LoginStage::CheckingPassword;
                    self.user_uuid = u.uuid;
                    self.role = u.role;
                    LoginAction::VerifyPassword { password_hash: u.password_hash, password: self.password.clone() }
                },
            },
            LoginEvent::PasswordChecked(matches) => match Self::check_password(matches) {
                Err(e) => {
                    self.stage = LoginStage::Finished;
                    LoginAction::Finish(Err(e))
                },
                Ok(()) => {
                    self.stage = LoginStage::Signing;
                    LoginAction::EncodeToken { user_uuid: self.user_uuid, role: self.role }
                },
            },
            LoginEvent::Token(token) => {
                self.stage = LoginStage::Finished;
                LoginAction::Finish(Self::finish(token))
            },
        }
    }

    /// The account found by name; any failure to read it counts as wrong
    /// credentials.
    pub fn check_account(found: Result<User, RepositoryError>) -> (r: Result<User, ApplicationError>)
        ensures
            r == match found {
                Ok(u) => Ok(u),
                Err(_) => Err(ApplicationError::WrongUserCredentials),
            },
    {
        match found {
            Ok(u) => Ok(u),
            Err(_) => Err(ApplicationError::WrongUserCredentials),
        }
    }

    /// The outcome of checking the password against the stored hash.
    pub fn check_password(password_matches: bool) -> (r: Result<(), ApplicationError>)
        ensures
            r == if password_matches {
                Ok(())
            } else {
                Err(ApplicationError::WrongUserCredentials)
            },
    {
        if password_matches {
            Ok(())
        } else {
            Err(ApplicationError::WrongUserCredentials)
        }
    }

    /// The token, or the signer's failure (with its description).
    pub fn finish(token: Result<String, String>) -> (r: Result<String, ApplicationError>)
        ensures
            r == match token {
                Ok(t) => Ok(t),
                Err(m) => Err(ApplicationError::Other(m)),
            },
    {
        match token {
            Ok(t) => Ok(t),
            Err(m) => Err(ApplicationError::Other(m)),
        }
    }
}

/// The verdict on a verification code: an expired code is refused first,
/// then a wrong one.
pub open spec fn code_verdict(expired: bool, correct: bool) -> Result<(), ApplicationError> {
    if expired {
        Err(ApplicationError::VerificationCodeExpired)
    } else if !correct {
        Err(ApplicationError::VerificationCodeFalse)
    } else {
        Ok(())
    }
}

/// Whether `after` is `before` with its status set to `status`.
pub open spec fn with_status(before: User, after: User, status: UserStatus) -> bool {
    &&& after.uuid == before.uuid
    &&& after.name == before.name
    &&& after.password_hash == before.password_hash
    &&& after.email == before.email
    &&& after.role == before.role
    &&& after.status == status
}

/// What the stored verification of a user says about a provided code.
#[derive(Debug, Clone, Copy, PartialEq, Eq, Structural)]
pub struct VerificationCheck {
    pub expired: bool,
    pub correct: bool,
}

/// What the verification of a registration waits for.
#[derive(Debug, Clone, Copy, PartialEq, Eq, Structural)]
pub enum VerifyStage {
    FindingUser,
    FindingVerification,
    Updating,
    DeletingVerification,
    Finished,
}

/// What the caller has to do next, all inside one unit of work.
#[derive(Debug)]
pub enum VerifyAction {
    /// Read the user by name.
    GetUserByName(String),
    /// Read the user's stored verification and check the provided code
    /// against it.
    GetVerification(u128),
    /// Store this account.
    UpdateUser(User),
    /// Delete the user's stored verification.
    DeleteVerification(u128),
    /// The verification is over: the verified user's identifier, or why not.
    Finish(Result<u128, ApplicationError>),
}

/// The outcome of the last action.
#[derive(Debug)]
pub enum VerifyEvent {
    User(Result<User, RepositoryError>),
    Verification(Result<VerificationCheck, RepositoryError>),
    Done(Result<(), RepositoryError>),
}

/// The rules of verifying a registration, and the state of one
/// verification: the user found, once found.
#[derive(Debug)]
pub struct VerifyUserUseCase {
    pub stage: VerifyStage,
    pub user_uuid: u128,
    pub user: Option<User>,
}

/// The state after a verification ended.
pub open spec fn verify_finished(s: VerifyUserUseCase) -> VerifyUserUseCase {
    VerifyUserUseCase { stage: VerifyStage::Finished, user: None, ..s }
}

/// The next state and action of a verification after `event`: the user and
/// the stored verification are read; an expired or wrong code ends it
/// before anything is stored; otherwise the account is stored as active,
/// then the stored verification deleted. A failed read or write ends it.
pub open spec fn verify_step(s: VerifyUserUseCase, event: VerifyEvent) -> (VerifyUserUseCase, VerifyAction) {
    match event {
        VerifyEvent::User(Err(e)) => (verify_finished(s), VerifyAction::Finish(Err(ApplicationError::Database(e)))),
        VerifyEvent::User(Ok(u)) => (
            VerifyUserUseCase { stage: VerifyStage::FindingVerification, user_uuid: u.uuid, user: Some(u) },
            VerifyAction::GetVerification(u.uuid),
        ),
        VerifyEvent::Verification(Err(e)) => (
            verify_finished(s),
            VerifyAction::Finish(Err(ApplicationError::Database(e))),
        ),
        VerifyEvent::Verification(Ok(c)) => match code_verdict(c.expired, c.correct) {
            Err(x) => (verify_finished(s), VerifyAction::Finish(Err(x))),
            Ok(()) => (
                VerifyUserUseCase { stage: VerifyStage::Updating, user: None, ..s },
                VerifyAction::UpdateUser(User { status: UserStatus::Active, ..s.user->0 }),
            ),
        },
        VerifyEvent::Done(Err(e)) => (verify_finished(s), VerifyAction::Finish(Err(ApplicationError::Database(e)))),
        VerifyEvent::Done(Ok(())) => if s.stage == VerifyStage::Updating {
            (
                VerifyUserUseCase { stage: VerifyStage::DeletingVerification, ..s },
                VerifyAction::DeleteVerification(s.user_uuid),
            )
        } else {
            (verify_finished(s), VerifyAction::Finish(Ok(s.user_uuid)))
        },
    }
}

/// Whether `event` is an outcome the verification waits for in state `s`.
pub open spec fn verify_event_expected(s: VerifyUserUseCase, event: VerifyEvent) -> bool {
    match s.stage {
        VerifyStage::FindingUser => event is User,
        VerifyStage::FindingVerification => event is Verification && s.user is Some,
        VerifyStage::Updating | VerifyStage::DeletingVerification => event is Done,
        VerifyStage::Finished => false,
    }
}

/// The account is only stored, and the stored verification only deleted,
/// on a correct code that has not expired: an expired or wrong code ends the
/// verification with its error and leaves both alone; the verification is
/// deleted only once the account was stored.
pub proof fn lemma_only_valid_codes_are_stored(s: VerifyUserUseCase, event: VerifyEvent, c: VerificationCheck)
    requires
        verify_event_expected(s, event),
    ensures
        verify_step(s, event).1 is UpdateUser ==> s.stage == VerifyStage::FindingVerification && (
        event matches VerifyEvent::Verification(Ok(d)) && !d.expired && d.correct),
        verify_step(s, event).1 is DeleteVerification ==> s.stage == VerifyStage::Updating && (
        event matches VerifyEvent::Done(Ok(_))),
        c.expired ==> verify_step(s, VerifyEvent::Verification(Ok(c))) == (
            verify_finished(s),
            VerifyAction::Finish(Err(ApplicationError::VerificationCodeExpired)),
        ),
        !c.expired && !c.correct ==> verify_step(s, VerifyEvent::Verification(Ok(c))) == (
            verify_finished(s),
            VerifyAction::Finish(Err(ApplicationError::VerificationCodeFalse)),
        ),
{
}

/// A verification that reads the user and a correct, unexpired code stores
/// the account as active, deletes the stored verification, and returns the
/// user's identifier.
pub proof fn lemma_verification_sequence(u: User)
    ensures
        ({
            let s0 = VerifyUserUseCase { stage: VerifyStage::FindingUser, user_uuid: 0, user: None };
            let (s1, a1) = verify_step(s0, VerifyEvent::User(Ok(u)));
            let (s2, a2) = verify_step(
                s1,
                VerifyEvent::Verification(Ok(VerificationCheck { expired: false, correct: true })),
            );
            let (s3, a3) = verify_step(s2, VerifyEvent::Done(Ok(())));
            let (s4, a4) = verify_step(s3, VerifyEvent::Done(Ok(())));
            &&& a1 == VerifyAction::GetVerification(u.uuid)
            &&& a2 == VerifyAction::UpdateUser(User { status: UserStatus::Active, ..u })
            &&& a3 == VerifyAction::DeleteVerification(u.uuid)
            &&& a4 == VerifyAction::Finish(Ok(u.uuid))
            &&& s4.stage == VerifyStage::Finished
        }),
{
}

impl VerifyUserUseCase {
    /// Starts verifying the registration of the user named `user_name`.
    pub fn start(user_name: String) -> (r: (Self, VerifyAction))
        ensures
            r.0 == (VerifyUserUseCase { stage: VerifyStage::FindingUser, user_uuid: 0, user: None }),
            r.1 == VerifyAction::GetUserByName(user_name),
    {
        (VerifyUserUseCase { stage: VerifyStage::FindingUser, user_uuid: 0, user: None }, VerifyAction::GetUserByName(user_name))
    }

    /// Advances with the outcome of the last action.
    pub fn step(&mut self, event: VerifyEvent) -> (a: VerifyAction)
        requires
            verify_event_expected(*old(self), event),
        ensures
            (*final(self), a) == verify_step(*old(self), event),
    {
        match event {
            VerifyEvent::User(Err(e)) => {
                self.stage = VerifyStage::Finished;
                self.user = None;
                VerifyAction::Finish(Err(ApplicationError::Database(e)))
            },
            VerifyEvent::User(Ok(u)) => {
                let uuid = u.uuid;
                self.stage = VerifyStage::FindingVerification;
                self.user_uuid = uuid;
                self.user = Some(u);
                VerifyAction::GetVerification(uuid)
            },
            VerifyEvent::Verification(Err(e)) => {
                self.stage = VerifyStage::Finished;
                self.user = None;
                VerifyAction::Finish(Err(ApplicationError::Database(e)))
            },
            VerifyEvent::Verification(Ok(c)) => {
                match Self::check_code(c.expired, c.correct) {
                    Err(x) => {
                        self.stage = VerifyStage::Finished;
                        self.user = None;
                        VerifyAction::Finish(Err(x))
                    },
                    Ok(()) => {
                        let user = self.user.take();
                        self.stage = VerifyStage::Updating;
                        match user {
                            Some(u) => VerifyAction::UpdateUser(Self::activate(u)),
                            None => vstd::pervasive::unreached(),
                        }
                    },
                }
            },
            VerifyEvent::Done(Err(e)) => {
                self.stage = VerifyStage::Finished;
                self.user = None;
                VerifyAction::Finish(Err(ApplicationError::Database(e)))
            },
            VerifyEvent::Done(Ok(())) => {
                if self.stage == VerifyStage::Updating {
                    self.stage = VerifyStage::DeletingVerification;
                    VerifyAction::DeleteVerification(self.user_uuid)
                } else {
                    self.stage = VerifyStage::Finished;
                    self.user = None;
                    VerifyAction::Finish(Ok(self.user_uuid))
                }
            },
        }
    }

    /// Checks the stored verification: it must not have expired, and the
    /// provided code must be the right one.
    pub fn check_code(expired: bool, correct: bool) -> (r: Result<(), ApplicationError>)
        ensures
            r == code_verdict(expired, correct),
    {
        if expired {
            Err(ApplicationError::VerificationCodeExpired)
        } else if !correct {
            Err(ApplicationError::VerificationCodeFalse)
        } else {
            Ok(())
        }
    }

    /// The account once verified: active, otherwise unchanged.
    pub fn activate(user: User) -> (u: User)
        ensures
            with_status(user, u, UserStatus::Active),
    {
        User { status: UserStatus::Active, ..user }
    }
}

/// A correct, unexpired code is the only way to activate an account.
pub proof fn lemma_only_valid_codes_activate(expired: bool, correct: bool)
    ensures
        code_verdict(expired, correct) is Ok <==> !expired && correct,
{
}

/// What a resend of the verification code waits for.
#[derive(Debug, Clone, Copy, PartialEq, Eq, Structural)]
pub enum ResendStage {
    FindingUser,
    Storing,
    Mailing,
    Finished,
}

/// What the caller of a resend has to do next.
#[derive(Debug, PartialEq, Eq)]
pub enum ResendAction {
    /// Read the account with this name.
    GetUserByName(String),
    /// Store a new verification code for this user.
    UpdateVerification(u128),
    /// Mail the new code to this user.
    SendVerificationEmail(u128),
    /// The resend is over: the account, or why not.
    Finish(Result<User, ApplicationError>),
}

/// The outcome of the last action of a resend.
#[derive(Debug)]
pub enum ResendEvent {
    User(Result<User, RepositoryError>),
    Stored(Result<(), RepositoryError>),
    Mailed(Result<(), ApplicationError>),
}

/// The rules of sending a new verification code, and the state of one
/// resend: the account found, once found.
#[derive(Debug)]
pub struct ResendVerificationUseCase {
    pub stage: ResendStage,
    pub user: Option<User>,
}

/// The next state and action of a resend after `event`: only an account
/// still waiting for verification gets a new code stored and mailed; any
/// failure ends the resend with it.
pub open spec fn resend_step(s: ResendVerificationUseCase, event: ResendEvent) -> (ResendVerificationUseCase, ResendAction) {
    let finished = ResendVerificationUseCase { stage: ResendStage::Finished, user: None };
    match event {
        ResendEvent::User(Err(e)) => (finished, ResendAction::Finish(Err(ApplicationError::Database(e)))),
        ResendEvent::User(Ok(u)) => if u.status == UserStatus::Pending {
            (ResendVerificationUseCase { stage: ResendStage::Storing, user: Some(u) }, ResendAction::UpdateVerification(u.uuid))
        } else {
            (finished, ResendAction::Finish(Err(ApplicationError::UserNotPending)))
        },
        ResendEvent::Stored(Err(e)) => (finished, ResendAction::Finish(Err(ApplicationError::Database(e)))),
        ResendEvent::Stored(Ok(())) => (
            ResendVerificationUseCase { stage: ResendStage::Mailing, ..s },
            ResendAction::SendVerificationEmail(s.user->0.uuid),
        ),
        ResendEvent::Mailed(Err(e)) => (finished, ResendAction::Finish(Err(e))),
        ResendEvent::Mailed(Ok(())) => (finished, ResendAction::Finish(Ok(s.user->0))),
    }
}

/// Whether `event` is an outcome a resend waits for in state `s`.
pub open spec fn resend_event_expected(s: ResendVerificationUseCase, event: ResendEvent) -> bool {
    match s.stage {
        ResendStage::FindingUser => event is User,
        ResendStage::Storing => event is Stored && s.user is Some,
        ResendStage::Mailing => event is Mailed && s.user is Some,
        ResendStage::Finished => false,
    }
}

/// No code is stored or mailed for an account that is not pending: the
/// resend ends with `UserNotPending` first; a code is only mailed once
/// stored.
pub proof fn lemma_resend_only_for_pending(s: ResendVerificationUseCase, event: ResendEvent, u: User)
    requires
        resend_event_expected(s, event),
    ensures
        u.status != UserStatus::Pending ==> resend_step(s, ResendEvent::User(Ok(u))).1 == ResendAction::Finish(
            Err(ApplicationError::UserNotPending),
        ),
        resend_step(s, event).1 is UpdateVerification ==> (event matches ResendEvent::User(Ok(v))
            && v.status == UserStatus::Pending),
        resend_step(s, event).1 is SendVerificationEmail ==> s.stage == ResendStage::Storing && (
        event matches ResendEvent::Stored(Ok(_))),
{
}

impl ResendVerificationUseCase {
    /// Starts sending a new code to the user named `user_name`.
    pub fn start(user_name: String) -> (r: (Self, ResendAction))
        ensures
            r.0.stage == ResendStage::FindingUser,
            r.0.user is None,
            r.1 == ResendAction::GetUserByName(user_name),
    {
        (ResendVerificationUseCase { stage: ResendStage::FindingUser, user: None }, ResendAction::GetUserByName(user_name))
    }

    /// Advances with the outcome of the last action.
    pub fn step(&mut self, event: ResendEvent) -> (a: ResendAction)
        requires
            resend_event_expected(*old(self), event),
        ensures
            (*final(self), a) == resend_step(*old(self), event),
    {
        match event {
            ResendEvent::User(Err(e)) => {
                self.stage = ResendStage::Finished;
                self.user = None;
                ResendAction::Finish(Err(ApplicationError::Database(e)))
            },
            ResendEvent::User(Ok(u)) => match Self::check_pending(&u) {
                Err(e) => {
                    self.stage = ResendStage::Finished;
                    self.user = None;
                    ResendAction::Finish(Err(e))
                },
                Ok(()) => {
                    let uuid = u.uuid;
                    self.stage = ResendStage::Storing;
                    self.user = Some(u);
                    ResendAction::UpdateVerification(uuid)
                },
            },
            ResendEvent::Stored(Err(e)) => {
                self.stage = ResendStage::Finished;
                self.user = None;
                ResendAction::Finish(Err(ApplicationError::Database(e)))
            },
            ResendEvent::Stored(Ok(())) => {
                self.stage = ResendStage::Mailing;
                match &self.user {
                    Some(u) => ResendAction::SendVerificationEmail(u.uuid),
                    None => vstd::pervasive::unreached(),
                }
            },
            ResendEvent::Mailed(Err(e)) => {
                self.stage = ResendStage::Finished;
                self.user = None;
                ResendAction::Finish(Err(e))
            },
            ResendEvent::Mailed(Ok(())) => {
                self.stage = ResendStage::Finished;
                match self.user.take() {
                    Some(u) => ResendAction::Finish(Ok(u)),
                    None => vstd::pervasive::unreached(),
                }
            },
        }
    }

    /// Only an account still waiting for verification gets a new code.
    pub fn check_pending(user: &User) -> (r: Result<(), ApplicationError>)
        ensures
            r == if user.status == UserStatus::Pending {
                Ok(())
            } else {
                Err(ApplicationError::UserNotPending)
            },
    {
        if user.status == UserStatus::Pending {
            Ok(())
        } else {
            Err(ApplicationError::UserNotPending)
        }
    }
}

/// The verdict on inserting an account: a taken name or address is
/// reported as such, any other failure as a database error.
pub open spec fn creation_verdict(r: Result<(), RepositoryError>) -> Result<(), ApplicationError> {
    match r {
        Ok(()) => Ok(()),
        Err(RepositoryError::UniqueConstraint) => Err(ApplicationError::UniqueConstraint),
        Err(e) => Err(ApplicationError::Database(e)),
    }
}

/// What a registration waits for.
#[derive(Debug, Clone, Copy, PartialEq, Eq, Structural)]
pub enum RegisterStage {
    ValidatingAccount,
    Hashing,
    ValidatingCorporationName,
    CheckingName,
    Creating,
    CreatingVerification,
    Mailing,
    Enqueueing,
    Finished,
}

/// What the caller of a registration has to do next.
#[derive(Debug, PartialEq, Eq)]
pub enum RegisterAction {
    /// Check the user name, password and email against the account rules.
    ValidateAccount,
    /// Hash this password.
    HashPassword(String),
    /// Check this corporation name against the naming rules.
    ValidateCorporationName(String),
    /// Look a corporation with this name up.
    LookUpCorporationName(String),
    /// In a unit of work: store this account ...
    CreateAccount(User),
    /// ... and, in the same unit of work, a new verification for this user.
    CreateVerification(u128),
    /// Mail the new verification code to this user.
    SendVerificationEmail(u128),
    /// Queue this action (the creation of the player's corporation).
    Enqueue(QueuedActionPayload),
    /// The registration is over: the new account, or why not.
    Finish(Result<User, ApplicationError>),
}

/// The outcome of the last action of a registration.
#[derive(Debug)]
pub enum RegisterEvent {
    /// A check, the mail or the queueing succeeded or failed.
    Checked(Result<(), ApplicationError>),
    /// The password hash, or why it could not be made.
    Hashed(Result<String, ApplicationError>),
    /// The corporation name lookup: `Ok` when a corporation has the name.
    NameLookup(Result<(), RepositoryError>),
    /// Storing the account.
    Created(Result<(), RepositoryError>),
    /// Storing the verification.
    Done(Result<(), RepositoryError>),
}

/// The rules of registering as a new player, and the state of one
/// registration.
#[derive(Debug)]
pub struct RegisterUserUseCase {
    pub stage: RegisterStage,
    pub user_uuid: u128,
    pub user_name: String,
    pub password: String,
    pub email: String,
    pub corporation_name: String,
    /// The new account, once its password is hashed.
    pub user: Option<User>,
}

/// The state after a registration ended.
pub open spec fn register_finished(s: RegisterUserUseCase) -> RegisterUserUseCase {
    RegisterUserUseCase { stage: RegisterStage::Finished, user: None, ..s }
}

/// The new player account of registration `s` with password hash `h`.
pub open spec fn registered_account(s: RegisterUserUseCase, h: String) -> User {
    User {
        uuid: s.user_uuid,
        name: s.user_name,
        password_hash: h,
        email: s.email,
        role: UserRole::Player,
        status: UserStatus::Pending,
    }
}

/// The next state and action of a registration after `event`: the account
/// data is checked, the password hashed, the corporation name checked and
/// looked up; only a free name lets the account and its verification be
/// stored, then the code mailed and the corporation's creation queued. Any
/// failure ends the registration with it.
pub open spec fn register_step(s: RegisterUserUseCase, event: RegisterEvent) -> (RegisterUserUseCase, RegisterAction) {
    match event {
        RegisterEvent::Checked(Err(e)) => (register_finished(s), RegisterAction::Finish(Err(e))),
        RegisterEvent::Hashed(Err(e)) => (register_finished(s), RegisterAction::Finish(Err(e))),
        RegisterEvent::Done(Err(e)) => (register_finished(s), RegisterAction::Finish(Err(ApplicationError::Database(e)))),
        RegisterEvent::Checked(Ok(())) => match s.stage {
            RegisterStage::ValidatingAccount => (
                RegisterUserUseCase { stage: RegisterStage::Hashing, ..s },
                RegisterAction::HashPassword(s.password),
            ),
            RegisterStage::ValidatingCorporationName => (
                RegisterUserUseCase { stage: RegisterStage::CheckingName, ..s },
                RegisterAction::LookUpCorporationName(s.corporation_name),
            ),
            RegisterStage::Mailing => (
                RegisterUserUseCase { stage: RegisterStage::Enqueueing, ..s },
                RegisterAction::Enqueue(
                    QueuedActionPayload {
                        request_uuid: s.user_uuid,
                        req_user_uuid: s.user_uuid,
                        details: ActionDetails::CreateCorporation {
                            user_uuid: s.user_uuid,
                            corporation_name: s.corporation_name,
                        },
                    },
                ),
            ),
            _ => (register_finished(s), RegisterAction::Finish(Ok(s.user->0))),
        },
        RegisterEvent::Hashed(Ok(h)) => (
            RegisterUserUseCase {
                stage: RegisterStage::ValidatingCorporationName,
                user: Some(registered_account(s, h)),
                ..s
            },
            RegisterAction::ValidateCorporationName(s.corporation_name),
        ),
        RegisterEvent::NameLookup(r) => match r {
            Ok(()) => (register_finished(s), RegisterAction::Finish(Err(ApplicationError::CorporationNameAlreadyTaken))),
            Err(RepositoryError::NotFound) => (
                RegisterUserUseCase { stage: RegisterStage::Creating, ..s },
                RegisterAction::CreateAccount(s.user->0),
            ),
            Err(e) => (register_finished(s), RegisterAction::Finish(Err(ApplicationError::Database(e)))),
        },
        RegisterEvent::Created(r) => match creation_verdict(r) {
            Err(e) => (register_finished(s), RegisterAction::Finish(Err(e))),
            Ok(()) => (
                RegisterUserUseCase { stage: RegisterStage::CreatingVerification, ..s },
                RegisterAction::CreateVerification(s.user_uuid),
            ),
        },
        RegisterEvent::Done(Ok(())) => (
            RegisterUserUseCase { stage: RegisterStage::Mailing, ..s },
            RegisterAction::SendVerificationEmail(s.user_uuid),
        ),
    }
}

/// Whether `event` is an outcome the registration waits for in state `s`.
pub open spec fn register_event_expected(s: RegisterUserUseCase, event: RegisterEvent) -> bool {
    match s.stage {
        RegisterStage::ValidatingAccount | RegisterStage::ValidatingCorporationName | RegisterStage::Mailing => event is Checked,
        RegisterStage::Enqueueing => event is Checked && s.user is Some,
        RegisterStage::Hashing => event is Hashed,
        RegisterStage::CheckingName => event is NameLookup && s.user is Some,
        RegisterStage::Creating => event is Created,
        RegisterStage::CreatingVerification => event is Done,
        RegisterStage::Finished => false,
    }
}

/// Nothing is stored, mailed or queued unless everything before succeeded:
/// the account is only stored once the corporation name was found free,
/// the code only mailed once the account and its verification are stored,
/// and the corporation only queued once the code is mailed. A taken name
/// ends the registration with `CorporationNameAlreadyTaken`, and a failed
/// check with its error.
pub proof fn lemma_register_stores_only_after_checks(
    s: RegisterUserUseCase,
    event: RegisterEvent,
    e: ApplicationError,
)
    requires
        register_event_expected(s, event),
    ensures
        register_step(s, event).1 is CreateAccount ==> s.stage == RegisterStage::CheckingName && event
            == RegisterEvent::NameLookup(Err(RepositoryError::NotFound)),
        register_step(s, event).1 is CreateVerification ==> s.stage == RegisterStage::Creating && (
        event matches RegisterEvent::Created(Ok(_))),
        register_step(s, event).1 is SendVerificationEmail ==> s.stage == RegisterStage::CreatingVerification && (
        event matches RegisterEvent::Done(Ok(_))),
        register_step(s, event).1 is Enqueue ==> s.stage == RegisterStage::Mailing && (
        event matches RegisterEvent::Checked(Ok(_))),
        register_step(s, RegisterEvent::NameLookup(Ok(()))).1 == RegisterAction::Finish(
            Err(ApplicationError::CorporationNameAlreadyTaken),
        ),
        register_step(s, RegisterEvent::Checked(Err(e))) == (
            register_finished(s),
            RegisterAction::Finish(Err(e)),
        ),
{
}

/// A registration whose every step succeeds checks, hashes, checks and
/// looks up the name, stores the account and its verification, mails the
/// code, queues the corporation's creation and returns the pending player
/// account.
pub proof fn lemma_register_sequence(s0: RegisterUserUseCase, h: String)
    requires
        s0.stage == RegisterStage::ValidatingAccount,
    ensures
        ({
            let (s1, a1) = register_step(s0, RegisterEvent::Checked(Ok(())));
            let (s2, a2) = register_step(s1, RegisterEvent::Hashed(Ok(h)));
            let (s3, a3) = register_step(s2, RegisterEvent::Checked(Ok(())));
            let (s4, a4) = register_step(s3, RegisterEvent::NameLookup(Err(RepositoryError::NotFound)));
            let (s5, a5) = register_step(s4, RegisterEvent::Created(Ok(())));
            let (s6, a6) = register_step(s5, RegisterEvent::Done(Ok(())));
            let (s7, a7) = register_step(s6, RegisterEvent::Checked(Ok(())));
            let (s8, a8) = register_step(s7, RegisterEvent::Checked(Ok(())));
            &&& a1 == RegisterAction::HashPassword(s0.password)
            &&& a2 == RegisterAction::ValidateCorporationName(s0.corporation_name)
            &&& a3 == RegisterAction::LookUpCorporationName(s0.corporation_name)
            &&& a4 == RegisterAction::CreateAccount(registered_account(s0, h))
            &&& a5 == RegisterAction::CreateVerification(s0.user_uuid)
            &&& a6 == RegisterAction::SendVerificationEmail(s0.user_uuid)
            &&& a7 is Enqueue
            &&& a8 == RegisterAction::Finish(Ok(registered_account(s0, h)))
            &&& s8.stage == RegisterStage::Finished
        }),
{
}

impl RegisterUserUseCase {
    /// Starts registering a player with these details, under a fresh
    /// identifier: the account data is checked first.
    pub fn start(user_name: String, password: String, email: String, corporation_name: String) -> (r: (
        Self,
        RegisterAction,
    ))
        ensures
            r.0 == (RegisterUserUseCase {
                stage: RegisterStage::ValidatingAccount,
                user_uuid: r.0.user_uuid,
                user_name,
                password,
                email,
                corporation_name,
                user: None,
            }),
            is_uuid_v7(r.0.user_uuid),
            r.1 == RegisterAction::ValidateAccount,
    {
        let user_uuid = new_uuid_v7();
        (
            RegisterUserUseCase {
                stage: RegisterStage::ValidatingAccount,
                user_uuid,
                user_name,
                password,
                email,
                corporation_name,
                user: None,
            },
            RegisterAction::ValidateAccount,
        )
    }

    fn finish(&mut self) -> (u: Option<User>)
        ensures
            *final(self) == register_finished(*old(self)),
            u == old(self).user,
    {
        self.stage = RegisterStage::Finished;
        self.user.take()
    }

    /// Advances with the outcome of the last action.
    pub fn step(&mut self, event: RegisterEvent) -> (a: RegisterAction)
        requires
            register_event_expected(*old(self), event),
        ensures
            (*final(self), a) == register_step(*old(self), event),
    {
        match event {
            RegisterEvent::Checked(Err(e)) => {
                self.finish();
                RegisterAction::Finish(Err(e))
            },
            RegisterEvent::Hashed(Err(e)) => {
                self.finish();
                RegisterAction::Finish(Err(e))
            },
            RegisterEvent::Done(Err(e)) => {
                self.finish();
                RegisterAction::Finish(Err(ApplicationError::Database(e)))
            },
            RegisterEvent::Checked(Ok(())) => {
                match self.stage {
                    RegisterStage::ValidatingAccount => {
                        self.stage = RegisterStage::Hashing;
                        RegisterAction::HashPassword(self.password.clone())
                    },
                    RegisterStage::ValidatingCorporationName => {
                        self.stage = RegisterStage::CheckingName;
                        RegisterAction::LookUpCorporationName(self.corporation_name.clone())
                    },
                    RegisterStage::Mailing => {
                        self.stage = RegisterStage::Enqueueing;
                        RegisterAction::Enqueue(
                            Self::corporation_action(self.user_uuid, self.corporation_name.clone()),
                        )
                    },
                    _ => {
                        match self.finish() {
                            Some(u) => RegisterAction::Finish(Ok(u)),
                            None => vstd::pervasive::unreached(),
                        }
                    },
                }
            },
            RegisterEvent::Hashed(Ok(h)) => {
                let user = User {
                    uuid: self.user_uuid,
                    name: self.user_name.clone(),
                    password_hash: h,
                    email: self.email.clone(),
                    role: UserRole::Player,
                    status: UserStatus::Pending,
                };
                self.stage = RegisterStage::ValidatingCorporationName;
                self.user = Some(user);
                RegisterAction::ValidateCorporationName(self.corporation_name.clone())
            },
            RegisterEvent::NameLookup(r) => {
                match r {
                    Ok(()) => {
                        self.finish();
                        RegisterAction::Finish(Err(ApplicationError::CorporationNameAlreadyTaken))
                    },
                    Err(RepositoryError::NotFound) => {
                        self.stage = RegisterStage::Creating;
                        match &self.user {
                            Some(u) => RegisterAction::CreateAccount(copy_user(u)),
                            None => vstd::pervasive::unreached(),
                        }
                    },
                    Err(e) => {
                        self.finish();
                        RegisterAction::Finish(Err(ApplicationError::Database(e)))
                    },
                }
            },
            RegisterEvent::Created(r) => {
                match Self::check_creation(r) {
                    Err(e) => {
                        self.finish();
                        RegisterAction::Finish(Err(e))
                    },
                    Ok(()) => {
                        self.stage = RegisterStage::CreatingVerification;
                        RegisterAction::CreateVerification(self.user_uuid)
                    },
                }
            },
            RegisterEvent::Done(Ok(())) => {
                self.stage = RegisterStage::Mailing;
                RegisterAction::SendVerificationEmail(self.user_uuid)
            },
        }
    }

    /// The new account: a player, pending verification.
    pub fn new_account(uuid: u128, name: String, password_hash: String, email: String) -> (u: User)
        ensures
            u.uuid == uuid,
            u.name@ == name@,
            u.password_hash@ == password_hash@,
            u.email@ == email@,
            u.role == UserRole::Player,
            u.status == UserStatus::Pending,
    {
        User { uuid, name, password_hash, email, role: UserRole::Player, status: UserStatus::Pending }
    }

    /// The new account under a fresh identifier: a player, pending
    /// verification.
    pub fn new_player(name: String, password_hash: String, email: String) -> (u: User)
        ensures
            is_uuid_v7(u.uuid),
            u.name@ == name@,
            u.password_hash@ == password_hash@,
            u.email@ == email@,
            u.role == UserRole::Player,
            u.status == UserStatus::Pending,
    {
        let uuid = new_uuid_v7();
        Self::new_account(uuid, name, password_hash, email)
    }

    /// The outcome of looking the corporation name up: the name must not be
    /// taken yet.
    pub fn check_name_free<T>(lookup: Result<T, RepositoryError>) -> (r: Result<(), ApplicationError>)
        ensures
            r == match lookup {
                Ok(_) => Err(ApplicationError::CorporationNameAlreadyTaken),
                Err(RepositoryError::NotFound) => Ok(()),
                Err(e) => Err(ApplicationError::Database(e)),
            },
    {
        crate::server::admin::CreateUserUseCase::check_name_free(lookup)
    }

    /// The outcome of inserting the account.
    pub fn check_creation(r: Result<(), RepositoryError>) -> (out: Result<(), ApplicationError>)
        ensures
            out == creation_verdict(r),
    {
        match r {
            Ok(()) => Ok(()),
            Err(RepositoryError::UniqueConstraint) => Err(ApplicationError::UniqueConstraint),
            Err(e) => Err(ApplicationError::Database(e)),
        }
    }

    /// The action that creates the new player's corporation; the player is
    /// both the requester and the request's id.
    pub fn corporation_action(user_uuid: u128, corporation_name: String) -> (p: QueuedActionPayload)
        ensures
            p == (QueuedActionPayload {
                request_uuid: user_uuid,
                req_user_uuid: user_uuid,
                details: ActionDetails::CreateCorporation { user_uuid, corporation_name },
            }),
    {
        QueuedActionPayload {
            request_uuid: user_uuid,
            req_user_uuid: user_uuid,
            details: ActionDetails::CreateCorporation { user_uuid, corporation_name },
        }
    }
}

/// How a login ends: a missing account, a wrong password and a failed
/// signature each end it with their error (the first two with the same
/// one); it only succeeds with the token signed in answer to the signature,
/// and the token is signed for the account found, once its stored hash was
/// checked against the password given.
pub proof fn lemma_login_outcomes(s: LoginUseCase, event: LoginEvent, r: RepositoryError, m: String, u: User)
    ensures
        login_step(s, LoginEvent::User(Err(r))).1 == LoginAction::Finish(Err(ApplicationError::WrongUserCredentials)),
        login_step(s, LoginEvent::PasswordChecked(false)).1 == LoginAction::Finish(
            Err(ApplicationError::WrongUserCredentials),
        ),
        login_step(s, LoginEvent::Token(Err(m))).1 == LoginAction::Finish(Err(ApplicationError::Other(m))),
        login_step(s, event).1 matches LoginAction::Finish(Ok(t)) ==> event == LoginEvent::Token(Ok(t)),
        login_step(s, LoginEvent::User(Ok(u))).1 == (LoginAction::VerifyPassword {
            password_hash: u.password_hash,
            password: s.password,
        }),
        ({
            let s1 = login_step(s, LoginEvent::User(Ok(u))).0;
            login_step(s1, LoginEvent::PasswordChecked(true)).1 == (LoginAction::EncodeToken {
                user_uuid: u.uuid,
                role: u.role,
            })
        }),
        login_step(s, event).1 is Finish <==> login_step(s, event).0.stage == LoginStage::Finished,
{
}

/// How a verification ends: a failure to read the account, its stored
/// verification or to store either ends it with that failure as a database
/// error; it only succeeds once the stored verification was deleted, and
/// then with the identifier of the account found.
pub proof fn lemma_verification_outcomes(s: VerifyUserUseCase, event: VerifyEvent, r: RepositoryError, u: User)
    requires
        verify_event_expected(s, event),
    ensures
        verify_step(s, VerifyEvent::User(Err(r))).1 == VerifyAction::Finish(Err(ApplicationError::Database(r))),
        verify_step(s, VerifyEvent::Verification(Err(r))).1 == VerifyAction::Finish(
            Err(ApplicationError::Database(r)),
        ),
        verify_step(s, VerifyEvent::Done(Err(r))).1 == VerifyAction::Finish(Err(ApplicationError::Database(r))),
        verify_step(s, event).1 matches VerifyAction::Finish(Ok(id)) ==> s.stage == VerifyStage::DeletingVerification
            && id == s.user_uuid && (event matches VerifyEvent::Done(Ok(_))),
        verify_step(s, VerifyEvent::User(Ok(u))).1 == VerifyAction::GetVerification(u.uuid),
        verify_step(s, VerifyEvent::User(Ok(u))).0.user_uuid == u.uuid,
        verify_step(s, event).1 matches VerifyAction::UpdateUser(v) ==> v.status == UserStatus::Active && v.uuid
            == s.user->0.uuid && v.name == s.user->0.name && v.password_hash == s.user->0.password_hash && v.email
            == s.user->0.email && v.role == s.user->0.role,
        verify_step(s, event).1 is Finish <==> verify_step(s, event).0.stage == VerifyStage::Finished,
{
}

/// How a resend ends: a failure to read the account or to store the code
/// ends it as a database error, a failed mail with its own error; it only
/// succeeds once the code was mailed, and then with the account found.
pub proof fn lemma_resend_outcomes(s: ResendVerificationUseCase, event: ResendEvent, r: RepositoryError, a: ApplicationError)
    requires
        resend_event_expected(s, event),
    ensures
        resend_step(s, ResendEvent::User(Err(r))).1 == ResendAction::Finish(Err(ApplicationError::Database(r))),
        resend_step(s, ResendEvent::Stored(Err(r))).1 == ResendAction::Finish(Err(ApplicationError::Database(r))),
        resend_step(s, ResendEvent::Mailed(Err(a))).1 == ResendAction::Finish(Err(a)),
        resend_step(s, event).1 matches ResendAction::Finish(Ok(u)) ==> s.stage == ResendStage::Mailing && Some(u)
            == s.user && (event matches ResendEvent::Mailed(Ok(_))),
        resend_step(s, event).1 matches ResendAction::SendVerificationEmail(id) ==> id == s.user->0.uuid,
        resend_step(s, event).1 is Finish <==> resend_step(s, event).0.stage == ResendStage::Finished,
{
}

/// How a registration ends: a failed check, hash, mail or queueing ends it
/// with that failure; a taken corporation name with
/// `CorporationNameAlreadyTaken`; a taken account (a unique constraint) with
/// `UniqueConstraint`; any other storage failure as a database error. It
/// only succeeds once the corporation's creation was queued, with the new
/// account; and that account is a pending player with the name, email and
/// hashed password given.
pub proof fn lemma_register_outcomes(
    s: RegisterUserUseCase,
    event: RegisterEvent,
    a: ApplicationError,
    r: RepositoryError,
    h: String,
)
    requires
        register_event_expected(s, event),
    ensures
        register_step(s, RegisterEvent::Checked(Err(a))).1 == RegisterAction::Finish(Err(a)),
        register_step(s, RegisterEvent::Hashed(Err(a))).1 == RegisterAction::Finish(Err(a)),
        register_step(s, RegisterEvent::Done(Err(r))).1 == RegisterAction::Finish(Err(ApplicationError::Database(r))),
        register_step(s, RegisterEvent::NameLookup(Ok(()))).1 == RegisterAction::Finish(
            Err(ApplicationError::CorporationNameAlreadyTaken),
        ),
        r != RepositoryError::NotFound ==> register_step(s, RegisterEvent::NameLookup(Err(r))).1 == RegisterAction::Finish(
            Err(ApplicationError::Database(r)),
        ),
        register_step(s, RegisterEvent::Created(Err(RepositoryError::UniqueConstraint))).1 == RegisterAction::Finish(
            Err(ApplicationError::UniqueConstraint),
        ),
        r != RepositoryError::UniqueConstraint ==> register_step(s, RegisterEvent::Created(Err(r))).1
            == RegisterAction::Finish(Err(ApplicationError::Database(r))),
        register_step(s, event).1 matches RegisterAction::Finish(Ok(u)) ==> s.stage == RegisterStage::Enqueueing && Some(u)
            == s.user && (event matches RegisterEvent::Checked(Ok(_))),
        register_step(s, RegisterEvent::Hashed(Ok(h))).0.user matches Some(u) && u.status == UserStatus::Pending && u.role
            == UserRole::Player && u.uuid == s.user_uuid && u.name == s.user_name && u.email == s.email
            && u.password_hash == h,
        register_step(s, event).1 is Finish <==> register_step(s, event).0.stage == RegisterStage::Finished,
{
}

} // verus!
