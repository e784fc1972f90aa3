//! The administration use cases: reading, creating and deleting accounts.
//!
//! Each use case alternates calls to repositories with decisions; the
//! decisions are here, one function per point where the use case decides,
//! taking the outcome of the previous call.
use crate::server::action::{ActionDetails, QueuedActionPayload};
use crate::server::auth::creation_verdict;
use crate::server::error::{from_repository, lifted, ApplicationError, RepositoryError};
use crate::server::ids::{is_uuid_v7, new_uuid_v7};
use crate::server::user::{copy_user, is_active_admin, User, UserRole, UserStatus};
use vstd::prelude::*;

verus! {

/// Which account a use case reads next.
#[derive(Debug, Clone, Copy, PartialEq, Eq, Structural)]
pub enum AccountLookup {
    /// The requesting user's account, to check their rights.
    Requester(u128),
    /// The account the request is about.
    Target(u128),
}

/// The first account to read: the requester's when the request is about
/// someone else's account, the account itself otherwise.
pub open spec fn first_lookup(req_user_uuid: u128, user_uuid: u128) -> AccountLookup {
    if req_user_uuid != user_uuid {
        AccountLookup::Requester(req_user_uuid)
    } else {
        AccountLookup::Target(user_uuid)
    }
}

/// The verdict on the requester's account: only an active administrator
/// may act on other users' accounts; a failed read is a database error.
pub open spec fn admin_authorization(requester: Result<User, RepositoryError>) -> Result<(), ApplicationError> {
    match requester {
        Err(e) => Err(ApplicationError::Database(e)),
        Ok(u) => if is_active_admin(u) {
            Ok(())
        } else {
            Err(ApplicationError::Unauthorized)
        },
    }
}

/// What a read of an account waits for.
#[derive(Debug, Clone, Copy, PartialEq, Eq, Structural)]
pub enum GetUserStage {
    /// The requester's account, to check their rights.
    CheckingRequester,
    /// The account asked for.
    Reading,
    Finished,
}

/// What the caller of a read of an account has to do next.
#[derive(Debug, PartialEq, Eq)]
pub enum GetUserAction {
    /// Read this account.
    GetUser(u128),
    /// The read is over: the account, or why not.
    Finish(Result<User, ApplicationError>),
}

/// The first stage and action of a read of account `user_uuid` by
/// `req_user_uuid`: the requester's account first when it is someone
/// else's.
pub open spec fn get_user_start(req_user_uuid: u128, user_uuid: u128) -> (GetUserStage, GetUserAction) {
    match first_lookup(req_user_uuid, user_uuid) {
        AccountLookup::Requester(r) => (GetUserStage::CheckingRequester, GetUserAction::GetUser(r)),
        AccountLookup::Target(t) => (GetUserStage::Reading, GetUserAction::GetUser(t)),
    }
}

/// The next stage and action of a read after the account `read` came back,
/// given the verdict `authorization` on a requester's account: an
/// unauthorized requester never gets the account read.
pub open spec fn get_user_step(
    stage: GetUserStage,
    user_uuid: u128,
    read: Result<User, RepositoryError>,
    authorization: spec_fn(Result<User, RepositoryError>) -> Result<(), ApplicationError>,
) -> (GetUserStage, GetUserAction) {
    if stage == GetUserStage::CheckingRequester {
        match authorization(read) {
            Err(e) => (GetUserStage::Finished, GetUserAction::Finish(Err(e))),
            Ok(()) => (GetUserStage::Reading, GetUserAction::GetUser(user_uuid)),
        }
    } else {
        (GetUserStage::Finished, GetUserAction::Finish(lifted(read)))
    }
}

/// The rules of reading an account as an administrator, and the state of
/// one read.
#[derive(Debug, Clone, Copy, PartialEq, Eq, Structural)]
pub struct GetUserUseCase {
    pub stage: GetUserStage,
    pub user_uuid: u128,
}

/// Over a whole read by someone else than the owner: the account asked for
/// is only read once the requester turned out to be an active
/// administrator.
pub proof fn lemma_get_user_reads_only_after_authorization(user_uuid: u128, read: Result<User, RepositoryError>)
    ensures
        get_user_step(GetUserStage::CheckingRequester, user_uuid, read, |r| admin_authorization(r)).1
            == GetUserAction::GetUser(user_uuid) <==> (read matches Ok(u) && is_active_admin(u)),
{
}

impl GetUserUseCase {
    /// Starts reading account `user_uuid` for `req_user_uuid`.
    pub fn start(req_user_uuid: u128, user_uuid: u128) -> (r: (Self, GetUserAction))
        ensures
            (r.0.stage, r.1) == get_user_start(req_user_uuid, user_uuid),
            r.0.user_uuid == user_uuid,
    {
        match Self::first_lookup(req_user_uuid, user_uuid) {
            AccountLookup::Requester(r) => (
                GetUserUseCase { stage: GetUserStage::CheckingRequester, user_uuid },
                GetUserAction::GetUser(r),
            ),
            AccountLookup::Target(t) => (GetUserUseCase { stage: GetUserStage::Reading, user_uuid }, GetUserAction::GetUser(t)),
        }
    }

    /// Advances with the account that was read.
    pub fn step(&mut self, read: Result<User, RepositoryError>) -> (a: GetUserAction)
        requires
            old(self).stage != GetUserStage::Finished,
        ensures
            (final(self).stage, a) == get_user_step(old(self).stage, old(self).user_uuid, read, |r| admin_authorization(r)),
            final(self).user_uuid == old(self).user_uuid,
    {
        if self.stage == GetUserStage::CheckingRequester {
            match Self::check_requester(read, self.user_uuid) {
                Err(e) => {
                    self.stage = GetUserStage::Finished;
                    GetUserAction::Finish(Err(e))
                },
                Ok(u) => {
                    self.stage = GetUserStage::Reading;
                    GetUserAction::GetUser(u)
                },
            }
        } else {
            self.stage = GetUserStage::Finished;
            GetUserAction::Finish(Self::finish(read))
        }
    }

    /// The first account to read.
    pub fn first_lookup(req_user_uuid: u128, user_uuid: u128) -> (l: AccountLookup)
        ensures
            l == first_lookup(req_user_uuid, user_uuid),
    {
        if req_user_uuid != user_uuid {
            AccountLookup::Requester(req_user_uuid)
        } else {
            AccountLookup::Target(user_uuid)
        }
    }

    /// Checks the requester's account: only an active administrator may
    /// read another user's account. Returns the account to read next.
    pub fn check_requester(requester: Result<User, RepositoryError>, user_uuid: u128) -> (r: Result<u128, ApplicationError>)
        ensures
            r == match admin_authorization(requester) {
                Ok(()) => Ok(user_uuid),
                Err(e) => Err(e),
            },
    {
        match requester {
            Err(e) => Err(ApplicationError::Database(e)),
            Ok(u) => {
                if u.is_active_admin() {
                    Ok(user_uuid)
                } else {
                    Err(ApplicationError::Unauthorized)
                }
            },
        }
    }

    /// The answer once the requested account has been read.
    pub fn finish(user: Result<User, RepositoryError>) -> (r: Result<User, ApplicationError>)
        ensures
            r == lifted(user),
    {
        match user {
            Ok(u) => Ok(u),
            Err(e) => Err(ApplicationError::Database(e)),
        }
    }
}

/// Only an active administrator or the account's owner get as far as
/// reading an account: when the requester is someone else and not an
/// active administrator, the use case stops with `Unauthorized` before the
/// account is read.
pub proof fn lemma_only_admins_read_other_accounts(
    req_user_uuid: u128,
    user_uuid: u128,
    requester: User,
)
    requires
        req_user_uuid != user_uuid,
        !is_active_admin(requester),
    ensures
        first_lookup(req_user_uuid, user_uuid) == AccountLookup::Requester(req_user_uuid),
        admin_authorization(Ok(requester)) == Err::<(), ApplicationError>(ApplicationError::Unauthorized),
{
}

/// The corporation lookup of a deletion: a missing corporation is reported
/// as such, other failures as database errors; otherwise the action that
/// deletes the corporation.
pub open spec fn deletion_action(
    corporation: Result<u128, RepositoryError>,
    request_uuid: u128,
    req_user_uuid: u128,
) -> Result<QueuedActionPayload, ApplicationError> {
    match corporation {
        Err(RepositoryError::NotFound) => Err(ApplicationError::CorporationForUserNotFound),
        Err(e) => Err(ApplicationError::Database(e)),
        Ok(corporation_uuid) => Ok(
            QueuedActionPayload {
                request_uuid,
                req_user_uuid,
                details: ActionDetails::DeleteCorporation { corporation_uuid },
            },
        ),
    }
}

/// The rules of deleting an account: the owner or an active administrator
/// may delete it; the user's corporation is queued for deletion, then the
/// account is deleted.
#[derive(Debug, Clone, Copy, PartialEq, Eq, Structural)]
pub struct DeleteUserUseCase {
    pub stage: DeleteStage,
    pub request_uuid: u128,
    pub req_user_uuid: u128,
    pub user_uuid: u128,
}

/// What a deletion waits for.
#[derive(Debug, Clone, Copy, PartialEq, Eq, Structural)]
pub enum DeleteStage {
    CheckingRequester,
    FindingCorporation,
    Enqueueing,
    Deleting,
    Finished,
}

/// What the caller of a deletion has to do next.
#[derive(Debug, PartialEq, Eq)]
pub enum DeleteAction {
    /// Read this user (the requester) to check their rights.
    GetRequester(u128),
    /// Read the corporation of this user.
    GetCorporationOfUser(u128),
    /// Queue this action (the deletion of the user's corporation).
    Enqueue(QueuedActionPayload),
    /// Delete this user's account.
    DeleteUser(u128),
    /// The deletion is over, with this result.
    Finish(Result<(), ApplicationError>),
}

/// The outcome of the last action of a deletion.
#[derive(Debug)]
pub enum DeleteEvent {
    Requester(Result<User, RepositoryError>),
    /// The identifier of the user's corporation.
    Corporation(Result<u128, RepositoryError>),
    Queued(Result<(), ApplicationError>),
    Done(Result<(), RepositoryError>),
}

/// The first stage and action of a deletion: the requester's rights are
/// checked when the account is someone else's.
pub open spec fn delete_start(request_uuid: u128, req_user_uuid: u128, user_uuid: u128) -> (DeleteUserUseCase, DeleteAction) {
    let s = DeleteUserUseCase { stage: DeleteStage::CheckingRequester, request_uuid, req_user_uuid, user_uuid };
    if req_user_uuid != user_uuid {
        (s, DeleteAction::GetRequester(req_user_uuid))
    } else {
        (DeleteUserUseCase { stage: DeleteStage::FindingCorporation, ..s }, DeleteAction::GetCorporationOfUser(user_uuid))
    }
}

/// The next stage and action of a deletion after `event`: only an active
/// administrator may delete someone else's account; the user's corporation
/// is looked up and its deletion queued, and only then is the account
/// deleted. Any failure ends the deletion with it.
pub open spec fn delete_step(s: DeleteUserUseCase, event: DeleteEvent) -> (DeleteUserUseCase, DeleteAction) {
    let finished = DeleteUserUseCase { stage: DeleteStage::Finished, ..s };
    match event {
        DeleteEvent::Requester(r) => match admin_authorization(r) {
            Err(e) => (finished, DeleteAction::Finish(Err(e))),
            Ok(()) => (
                DeleteUserUseCase { stage: DeleteStage::FindingCorporation, ..s },
                DeleteAction::GetCorporationOfUser(s.user_uuid),
            ),
        },
        DeleteEvent::Corporation(r) => match deletion_action(r, s.request_uuid, s.req_user_uuid) {
            Err(e) => (finished, DeleteAction::Finish(Err(e))),
            Ok(p) => (DeleteUserUseCase { stage: DeleteStage::Enqueueing, ..s }, DeleteAction::Enqueue(p)),
        },
        DeleteEvent::Queued(Err(e)) => (finished, DeleteAction::Finish(Err(e))),
        DeleteEvent::Queued(Ok(())) => (
            DeleteUserUseCase { stage: DeleteStage::Deleting, ..s },
            DeleteAction::DeleteUser(s.user_uuid),
        ),
        DeleteEvent::Done(r) => (finished, DeleteAction::Finish(lifted(r))),
    }
}

/// Whether `event` is an outcome a deletion waits for in `stage`.
pub open spec fn delete_event_expected(stage: DeleteStage, event: DeleteEvent) -> bool {
    match stage {
        DeleteStage::CheckingRequester => event is Requester,
        DeleteStage::FindingCorporation => event is Corporation,
        DeleteStage::Enqueueing => event is Queued,
        DeleteStage::Deleting => event is Done,
        DeleteStage::Finished => false,
    }
}

/// An account is only deleted once the deletion of its corporation is
/// queued, and a requester who is not an active administrator cannot get
/// someone else's corporation queued or account deleted: the deletion ends
/// with `Unauthorized` first.
pub proof fn lemma_delete_only_after_queueing(s: DeleteUserUseCase, event: DeleteEvent, requester: User)
    requires
        delete_event_expected(s.stage, event),
    ensures
        delete_step(s, event).1 is DeleteUser ==> s.stage == DeleteStage::Enqueueing && (
        event matches DeleteEvent::Queued(Ok(_))),
        delete_step(s, event).1 is Enqueue ==> s.stage == DeleteStage::FindingCorporation,
        !is_active_admin(requester) ==> delete_step(s, DeleteEvent::Requester(Ok(requester))).1
            == DeleteAction::Finish(Err(ApplicationError::Unauthorized)),
{
}

impl DeleteUserUseCase {
    /// Starts deleting the account `user_uuid` at the request of
    /// `req_user_uuid`.
    pub fn start(request_uuid: u128, req_user_uuid: u128, user_uuid: u128) -> (r: (Self, DeleteAction))
        ensures
            r == delete_start(request_uuid, req_user_uuid, user_uuid),
    {
        let s = DeleteUserUseCase { stage: DeleteStage::CheckingRequester, request_uuid, req_user_uuid, user_uuid };
        if Self::needs_requester_check(req_user_uuid, user_uuid) {
            (s, DeleteAction::GetRequester(req_user_uuid))
        } else {
            (DeleteUserUseCase { stage: DeleteStage::FindingCorporation, ..s }, DeleteAction::GetCorporationOfUser(user_uuid))
        }
    }

    /// Advances with the outcome of the last action.
    pub fn step(&mut self, event: DeleteEvent) -> (a: DeleteAction)
        requires
            delete_event_expected(old(self).stage, event),
        ensures
            (*final(self), a) == delete_step(*old(self), event),
    {
        let (stage, action) = match event {
            DeleteEvent::Requester(r) => match Self::check_requester(r) {
                Err(e) => (DeleteStage::Finished, DeleteAction::Finish(Err(e))),
                Ok(()) => (DeleteStage::FindingCorporation, DeleteAction::GetCorporationOfUser(self.user_uuid)),
            },
            DeleteEvent::Corporation(r) => match Self::deletion_action(r, self.request_uuid, self.req_user_uuid) {
                Err(e) => (DeleteStage::Finished, DeleteAction::Finish(Err(e))),
                Ok(p) => (DeleteStage::Enqueueing, DeleteAction::Enqueue(p)),
            },
            DeleteEvent::Queued(Err(e)) => (DeleteStage::Finished, DeleteAction::Finish(Err(e))),
            DeleteEvent::Queued(Ok(())) => (DeleteStage::Deleting, DeleteAction::DeleteUser(self.user_uuid)),
            DeleteEvent::Done(r) => (DeleteStage::Finished, DeleteAction::Finish(Self::finish(r))),
        };
        self.stage = stage;
        action
    }

    /// Whether the requester's account must be read to check their rights
    /// (they delete someone else's account).
    pub fn needs_requester_check(req_user_uuid: u128, user_uuid: u128) -> (b: bool)
        ensures
            b == (req_user_uuid != user_uuid),
    {
        req_user_uuid != user_uuid
    }

    /// Checks the requester's account: only an active administrator may
    /// delete another user's account.
    pub fn check_requester(requester: Result<User, RepositoryError>) -> (r: Result<(), ApplicationError>)
        ensures
            r == admin_authorization(requester),
    {
        match requester {
            Err(e) => Err(ApplicationError::Database(e)),
            Ok(u) => {
                if u.is_active_admin() {
                    Ok(())
                } else {
                    Err(ApplicationError::Unauthorized)
                }
            },
        }
    }

    /// The action to queue once the user's corporation has been looked up.
    pub fn deletion_action(
        corporation: Result<u128, RepositoryError>,
        request_uuid: u128,
        req_user_uuid: u128,
    ) -> (r: Result<QueuedActionPayload, ApplicationError>)
        ensures
            r == deletion_action(corporation, request_uuid, req_user_uuid),
    {
        match corporation {
            Err(RepositoryError::NotFound) => Err(ApplicationError::CorporationForUserNotFound),
            Err(e) => Err(ApplicationError::Database(e)),
            Ok(corporation_uuid) => Ok(
                QueuedActionPayload {
                    request_uuid,
                    req_user_uuid,
                    details: ActionDetails::DeleteCorporation { corporation_uuid },
                },
            ),
        }
    }

    /// The answer once the account has been deleted.
    pub fn finish(deleted: Result<(), RepositoryError>) -> (r: Result<(), ApplicationError>)
        ensures
            r == lifted(deleted),
    {
        match deleted {
            Ok(()) => Ok(()),
            Err(e) => Err(ApplicationError::Database(e)),
        }
    }
}

/// The account an administrator creates: active from the start, with the
/// given role.
pub open spec fn created_account(
    uuid: u128,
    name: Seq<char>,
    password_hash: Seq<char>,
    email: Seq<char>,
    role: UserRole,
    u: User,
) -> bool {
    &&& u.uuid == uuid
    &&& u.name@ == name
    &&& u.password_hash@ == password_hash
    &&& u.email@ == email
    &&& u.role == role
    &&& u.status == UserStatus::Active
}

/// What the creation of an account by an administrator waits for.
#[derive(Debug, Clone, Copy, PartialEq, Eq, Structural)]
pub enum CreateStage {
    ValidatingAccount,
    CheckingRequester,
    ValidatingCorporationName,
    CheckingName,
    Hashing,
    Creating,
    Enqueueing,
    Finished,
}

/// What the caller of an account creation has to do next.
#[derive(Debug, PartialEq, Eq)]
pub enum CreateAction {
    /// Check the user name, password and email against the account rules.
    ValidateAccount,
    /// Read this user (the requester) to check their rights.
    GetRequester(u128),
    /// Check this corporation name against the naming rules.
    ValidateCorporationName(String),
    /// Look a corporation with this name up.
    LookUpCorporationName(String),
    /// Hash this password.
    HashPassword(String),
    /// Store this account.
    CreateAccount(User),
    /// Queue this action (the creation of the user's corporation).
    Enqueue(QueuedActionPayload),
    /// The creation is over: the new account, or why not.
    Finish(Result<User, ApplicationError>),
}

/// The outcome of the last action of an account creation.
#[derive(Debug)]
pub enum CreateEvent {
    /// A check or the queueing succeeded or failed.
    Checked(Result<(), ApplicationError>),
    Requester(Result<User, RepositoryError>),
    /// The corporation name lookup: `Ok` when a corporation has the name.
    NameLookup(Result<(), RepositoryError>),
    Hashed(Result<String, ApplicationError>),
    Created(Result<(), RepositoryError>),
}

/// The rules of creating an account as an administrator, and the state of
/// one creation.
#[derive(Debug)]
pub struct CreateUserUseCase {
    pub stage: CreateStage,
    pub request_uuid: u128,
    pub req_user_uuid: u128,
    pub user_uuid: u128,
    pub user_name: String,
    pub password: String,
    pub email: String,
    pub role: UserRole,
    pub corporation_name: String,
    /// The new account, once its password is hashed.
    pub user: Option<User>,
}

/// The account that creation `s` stores with password hash `h`.
pub open spec fn created_user(s: CreateUserUseCase, h: String) -> User {
    User { uuid: s.user_uuid, name: s.user_name, password_hash: h, email: s.email, role: s.role, status: UserStatus::Active }
}

/// The next state and action of an account creation after `event`: the
/// account data is checked, then the requester must be an active
/// administrator, the corporation name valid and free; only then is the
/// password hashed, the account stored and the corporation's creation
/// queued. Any failure ends the creation with it.
pub open spec fn create_step(s: CreateUserUseCase, event: CreateEvent) -> (CreateUserUseCase, CreateAction) {
    let finished = CreateUserUseCase { stage: CreateStage::Finished, user: None, ..s };
    match event {
        CreateEvent::Checked(Err(e)) => (finished, CreateAction::Finish(Err(e))),
        CreateEvent::Checked(Ok(())) => match s.stage {
            CreateStage::ValidatingAccount => (
                CreateUserUseCase { stage: CreateStage::CheckingRequester, ..s },
                CreateAction::GetRequester(s.req_user_uuid),
            ),
            CreateStage::ValidatingCorporationName => (
                CreateUserUseCase { stage: CreateStage::CheckingName, ..s },
                CreateAction::LookUpCorporationName(s.corporation_name),
            ),
            _ => (finished, CreateAction::Finish(Ok(s.user->0))),
        },
        CreateEvent::Requester(r) => match admin_authorization(r) {
            Err(e) => (finished, CreateAction::Finish(Err(e))),
            Ok(()) => (
                CreateUserUseCase { stage: CreateStage::ValidatingCorporationName, ..s },
                CreateAction::ValidateCorporationName(s.corporation_name),
            ),
        },
        CreateEvent::NameLookup(r) => match r {
            Ok(()) => (finished, CreateAction::Finish(Err(ApplicationError::CorporationNameAlreadyTaken))),
            Err(RepositoryError::NotFound) => (
                CreateUserUseCase { stage: CreateStage::Hashing, ..s },
                CreateAction::HashPassword(s.password),
            ),
            Err(e) => (finished, CreateAction::Finish(Err(ApplicationError::Database(e)))),
        },
        CreateEvent::Hashed(Err(e)) => (finished, CreateAction::Finish(Err(e))),
        CreateEvent::Hashed(Ok(h)) => (
            CreateUserUseCase { stage: CreateStage::Creating, user: Some(created_user(s, h)), ..s },
            CreateAction::CreateAccount(created_user(s, h)),
        ),
        CreateEvent::Created(r) => match lifted(r) {
            Err(e) => (finished, CreateAction::Finish(Err(e))),
            Ok(()) => (
                CreateUserUseCase { stage: CreateStage::Enqueueing, ..s },
                CreateAction::Enqueue(
                    QueuedActionPayload {
                        request_uuid: s.request_uuid,
                        req_user_uuid: s.req_user_uuid,
                        details: ActionDetails::CreateCorporation {
                            user_uuid: s.user_uuid,
                            corporation_name: s.corporation_name,
                        },
                    },
                ),
            ),
        },
    }
}

/// Whether `event` is an outcome an account creation waits for in state
/// `s`.
pub open spec fn create_event_expected(s: CreateUserUseCase, event: CreateEvent) -> bool {
    match s.stage {
        CreateStage::ValidatingAccount | CreateStage::ValidatingCorporationName => event is Checked,
        CreateStage::Enqueueing => event is Checked && s.user is Some,
        CreateStage::CheckingRequester => event is Requester,
        CreateStage::CheckingName => event is NameLookup,
        CreateStage::Hashing => event is Hashed,
        CreateStage::Creating => event is Created,
        CreateStage::Finished => false,
    }
}

/// No account is stored unless the requester is an active administrator
/// and the corporation name is free, and the corporation is only queued
/// once the account is stored.
pub proof fn lemma_create_stores_only_after_checks(s: CreateUserUseCase, event: CreateEvent, requester: User)
    requires
        create_event_expected(s, event),
    ensures
        create_step(s, event).1 is HashPassword ==> s.stage == CreateStage::CheckingName && event
            == CreateEvent::NameLookup(Err(RepositoryError::NotFound)),
        create_step(s, event).1 is CreateAccount ==> s.stage == CreateStage::Hashing,
        create_step(s, event).1 is Enqueue ==> s.stage == CreateStage::Creating && (
        event matches CreateEvent::Created(Ok(_))),
        !is_active_admin(requester) ==> create_step(s, CreateEvent::Requester(Ok(requester))).1
            == CreateAction::Finish(Err(ApplicationError::Unauthorized)),
        create_step(s, CreateEvent::NameLookup(Ok(()))).1 == CreateAction::Finish(
            Err(ApplicationError::CorporationNameAlreadyTaken),
        ),
{
}

impl CreateUserUseCase {
    /// Starts creating an account with these details at the request of
    /// `req_user_uuid`, under a fresh identifier: the account data is
    /// checked first.
    pub fn start(
        request_uuid: u128,
        req_user_uuid: u128,
        user_name: String,
        password: String,
        email: String,
        role: UserRole,
        corporation_name: String,
    ) -> (r: (Self, CreateAction))
        ensures
            r.0 == (CreateUserUseCase {
                stage: CreateStage::ValidatingAccount,
                request_uuid,
                req_user_uuid,
                user_uuid: r.0.user_uuid,
                user_name,
                password,
                email,
                role,
                corporation_name,
                user: None,
            }),
            is_uuid_v7(r.0.user_uuid),
            r.1 == CreateAction::ValidateAccount,
    {
        let user_uuid = new_uuid_v7();
        (
            CreateUserUseCase {
                stage: CreateStage::ValidatingAccount,
                request_uuid,
                req_user_uuid,
                user_uuid,
                user_name,
                password,
                email,
                role,
                corporation_name,
                user: None,
            },
            CreateAction::ValidateAccount,
        )
    }

    fn end(&mut self)
        ensures
            *final(self) == (CreateUserUseCase { stage: CreateStage::Finished, user: None, ..*old(self) }),
    {
        self.stage = CreateStage::Finished;
        self.user = None;
    }

    /// Advances with the outcome of the last action.
    pub fn step(&mut self, event: CreateEvent) -> (a: CreateAction)
        requires
            create_event_expected(*old(self), event),
        ensures
            (*final(self), a) == create_step(*old(self), event),
    {
        match event {
            CreateEvent::Checked(Err(e)) => {
                self.end();
                CreateAction::Finish(Err(e))
            },
            CreateEvent::Checked(Ok(())) => match self.stage {
                CreateStage::ValidatingAccount => {
                    self.stage = CreateStage::CheckingRequester;
                    CreateAction::GetRequester(self.req_user_uuid)
                },
                CreateStage::ValidatingCorporationName => {
                    self.stage = CreateStage::CheckingName;
                    CreateAction::LookUpCorporationName(self.corporation_name.clone())
                },
                _ => {
                    self.stage = CreateStage::Finished;
                    match self.user.take() {
                        Some(u) => CreateAction::Finish(Ok(u)),
                        None => vstd::pervasive::unreached(),
                    }
                },
            },
            CreateEvent::Requester(r) => match Self::check_requester(r) {
                Err(e) => {
                    self.end();
                    CreateAction::Finish(Err(e))
                },
                Ok(()) => {
                    self.stage = CreateStage::ValidatingCorporationName;
                    CreateAction::ValidateCorporationName(self.corporation_name.clone())
                },
            },
            CreateEvent::NameLookup(r) => match r {
                Ok(()) => {
                    self.end();
                    CreateAction::Finish(Err(ApplicationError::CorporationNameAlreadyTaken))
                },
                Err(RepositoryError::NotFound) => {
                    self.stage = CreateStage::Hashing;
                    CreateAction::HashPassword(self.password.clone())
                },
                Err(e) => {
                    self.end();
                    CreateAction::Finish(Err(ApplicationError::Database(e)))
                },
            },
            CreateEvent::Hashed(Err(e)) => {
                self.end();
                CreateAction::Finish(Err(e))
            },
            CreateEvent::Hashed(Ok(h)) => {
                let user = User {
                    uuid: self.user_uuid,
                    name: self.user_name.clone(),
                    password_hash: h,
                    email: self.email.clone(),
                    role: self.role,
                    status: UserStatus::Active,
                };
                let copy = copy_user(&user);
                self.stage = CreateStage::Creating;
                self.user = Some(user);
                CreateAction::CreateAccount(copy)
            },
            CreateEvent::Created(r) => match from_repository(r) {
                Err(e) => {
                    self.end();
                    CreateAction::Finish(Err(e))
                },
                Ok(()) => {
                    self.stage = CreateStage::Enqueueing;
                    CreateAction::Enqueue(
                        Self::corporation_action(
                            self.request_uuid,
                            self.req_user_uuid,
                            self.user_uuid,
                            self.corporation_name.clone(),
                        ),
                    )
                },
            },
        }
    }

    /// Checks the requester's account: only an active administrator may
    /// create accounts.
    pub fn check_requester(requester: Result<User, RepositoryError>) -> (r: Result<(), ApplicationError>)
        ensures
            r == admin_authorization(requester),
    {
        DeleteUserUseCase::check_requester(requester)
    }

    /// The outcome of looking the corporation name up: the name must not be
    /// taken yet.
    pub fn check_name_free<T>(lookup: Result<T, RepositoryError>) -> (r: Result<(), ApplicationError>)
        ensures
            r == match lookup {
                Ok(_) => Err(ApplicationError::CorporationNameAlreadyTaken),
                Err(RepositoryError::NotFound) => Ok(()),
                Err(e) => Err(ApplicationError::Database(e)),
            },
    {
        match lookup {
            Ok(_) => Err(ApplicationError::CorporationNameAlreadyTaken),
            Err(RepositoryError::NotFound) => Ok(()),
            Err(e) => Err(ApplicationError::Database(e)),
        }
    }

    /// The new account.
    pub fn new_account(
        uuid: u128,
        name: String,
        password_hash: String,
        email: String,
        role: UserRole,
    ) -> (u: User)
        ensures
            created_account(uuid, name@, password_hash@, email@, role, u),
    {
        User { uuid, name, password_hash, email, role, status: UserStatus::Active }
    }

    /// The new account, under a fresh identifier.
    pub fn create_account(name: String, password_hash: String, email: String, role: UserRole) -> (u: User)
        ensures
            created_account(u.uuid, name@, password_hash@, email@, role, u),
            is_uuid_v7(u.uuid),
    {
        let uuid = new_uuid_v7();
        Self::new_account(uuid, name, password_hash, email, role)
    }

    /// The action that creates the new user's corporation.
    pub fn corporation_action(
        request_uuid: u128,
        req_user_uuid: u128,
        user_uuid: u128,
        corporation_name: String,
    ) -> (p: QueuedActionPayload)
        ensures
            p == (QueuedActionPayload {
                request_uuid,
                req_user_uuid,
                details: ActionDetails::CreateCorporation { user_uuid, corporation_name },
            }),
    {
        QueuedActionPayload {
            request_uuid,
            req_user_uuid,
            details: ActionDetails::CreateCorporation { user_uuid, corporation_name },
        }
    }
}


/// What the bootstrap of the administrator account waits for.
#[derive(Debug, Clone, Copy, PartialEq, Eq, Structural)]
pub enum BootstrapAdminStage {
    ValidatingCredentials,
    Hashing,
    ValidatingEmail,
    Creating,
    ValidatingCorporationName,
    Inserting,
    Finished,
}

/// What the caller of the administrator bootstrap has to do next. The
/// account and its corporation are written in one transaction: a
/// `Finish(Err(..))` after `CreateAccount` rolls it back.
#[derive(Debug, PartialEq, Eq)]
pub enum BootstrapAdminAction {
    /// Check the user name and the password against the account rules.
    ValidateCredentials,
    /// Hash this password.
    HashPassword(String),
    /// Check the email address against the account rules.
    ValidateEmail,
    /// Store this account.
    CreateAccount(User),
    /// Check this corporation name against the naming rules.
    ValidateCorporationName(String),
    /// Store a corporation with this name, owned by this user.
    InsertCorporation { user_uuid: u128, corporation_name: String },
    /// The bootstrap is over: the administrator account, or why not.
    Finish(Result<User, ApplicationError>),
}

/// The outcome of the last action of the administrator bootstrap.
#[derive(Debug)]
pub enum BootstrapAdminEvent {
    /// A check succeeded or failed.
    Checked(Result<(), ApplicationError>),
    Hashed(Result<String, ApplicationError>),
    Created(Result<(), RepositoryError>),
    Inserted(Result<(), RepositoryError>),
}

/// The rules of creating the administrator account when the server is
/// first bootstrapped, and the state of one such creation.
#[derive(Debug)]
pub struct BootstrapAdminUseCase {
    pub stage: BootstrapAdminStage,
    pub user_uuid: u128,
    pub user_name: String,
    pub password: String,
    pub email: String,
    pub corporation_name: String,
    /// The administrator account, once its password is hashed.
    pub user: Option<User>,
}

/// The administrator account that bootstrap `s` stores with password hash
/// `h`.
pub open spec fn bootstrapped_admin(s: BootstrapAdminUseCase, h: String) -> User {
    User { uuid: s.user_uuid, name: s.user_name, password_hash: h, email: s.email, role: UserRole::Admin, status: UserStatus::Active }
}

/// The next state and action of the administrator bootstrap after `event`:
/// name and password are checked, the password hashed, the email checked,
/// the account stored (a taken name or address reported as such), the
/// corporation name checked and the corporation stored. Any failure ends
/// the bootstrap with it.
pub open spec fn bootstrap_admin_step(s: BootstrapAdminUseCase, event: BootstrapAdminEvent) -> (
    BootstrapAdminUseCase,
    BootstrapAdminAction,
) {
    let finished = BootstrapAdminUseCase { stage: BootstrapAdminStage::Finished, user: None, ..s };
    match event {
        BootstrapAdminEvent::Checked(Err(e)) => (finished, BootstrapAdminAction::Finish(Err(e))),
        BootstrapAdminEvent::Checked(Ok(())) => match s.stage {
            BootstrapAdminStage::ValidatingCredentials => (
                BootstrapAdminUseCase { stage: BootstrapAdminStage::Hashing, ..s },
                BootstrapAdminAction::HashPassword(s.password),
            ),
            BootstrapAdminStage::ValidatingEmail => (
                BootstrapAdminUseCase { stage: BootstrapAdminStage::Creating, ..s },
                BootstrapAdminAction::CreateAccount(s.user->0),
            ),
            _ => (
                BootstrapAdminUseCase { stage: BootstrapAdminStage::Inserting, ..s },
                BootstrapAdminAction::InsertCorporation { user_uuid: s.user_uuid, corporation_name: s.corporation_name },
            ),
        },
        BootstrapAdminEvent::Hashed(Err(e)) => (finished, BootstrapAdminAction::Finish(Err(e))),
        BootstrapAdminEvent::Hashed(Ok(h)) => (
            BootstrapAdminUseCase { stage: BootstrapAdminStage::ValidatingEmail, user: Some(bootstrapped_admin(s, h)), ..s },
            BootstrapAdminAction::ValidateEmail,
        ),
        BootstrapAdminEvent::Created(r) => match creation_verdict(r) {
            Err(e) => (finished, BootstrapAdminAction::Finish(Err(e))),
            Ok(()) => (
                BootstrapAdminUseCase { stage: BootstrapAdminStage::ValidatingCorporationName, ..s },
                BootstrapAdminAction::ValidateCorporationName(s.corporation_name),
            ),
        },
        BootstrapAdminEvent::Inserted(r) => match lifted(r) {
            Err(e) => (finished, BootstrapAdminAction::Finish(Err(e))),
            Ok(()) => (finished, BootstrapAdminAction::Finish(Ok(s.user->0))),
        },
    }
}

/// Whether `event` is an outcome the administrator bootstrap waits for in
/// state `s`.
pub open spec fn bootstrap_admin_event_expected(s: BootstrapAdminUseCase, event: BootstrapAdminEvent) -> bool {
    match s.stage {
        BootstrapAdminStage::ValidatingCredentials => event is Checked,
        BootstrapAdminStage::ValidatingEmail | BootstrapAdminStage::ValidatingCorporationName => event is Checked
            && s.user is Some,
        BootstrapAdminStage::Hashing => event is Hashed,
        BootstrapAdminStage::Creating => event is Created && s.user is Some,
        BootstrapAdminStage::Inserting => event is Inserted && s.user is Some,
        BootstrapAdminStage::Finished => false,
    }
}

/// The administrator account is stored only after name, password and email
/// passed their checks, as an active administrator; the corporation only
/// after the account was stored and its name passed the naming rules; and
/// the bootstrap succeeds only once the corporation is stored.
pub proof fn lemma_bootstrap_admin_stores_only_after_checks(s: BootstrapAdminUseCase, event: BootstrapAdminEvent)
    requires
        bootstrap_admin_event_expected(s, event),
        s.user matches Some(u) ==> u.role == UserRole::Admin && u.status == UserStatus::Active,
    ensures
        bootstrap_admin_step(s, event).1 matches BootstrapAdminAction::CreateAccount(u) ==> s.stage
            == BootstrapAdminStage::ValidatingEmail && (event matches BootstrapAdminEvent::Checked(Ok(_)))
            && u.role == UserRole::Admin && u.status == UserStatus::Active,
        bootstrap_admin_step(s, event).1 is InsertCorporation ==> s.stage
            == BootstrapAdminStage::ValidatingCorporationName && (event matches BootstrapAdminEvent::Checked(Ok(_))),
        bootstrap_admin_step(s, event).1 matches BootstrapAdminAction::Finish(Ok(_)) ==> s.stage
            == BootstrapAdminStage::Inserting && (event matches BootstrapAdminEvent::Inserted(Ok(_))),
        bootstrap_admin_step(s, event).0.user matches Some(u) ==> u.role == UserRole::Admin && u.status
            == UserStatus::Active,
{
}

impl BootstrapAdminUseCase {
    /// Starts bootstrapping the administrator account with these details,
    /// under a fresh identifier: name and password are checked first.
    pub fn start(user_name: String, password: String, email: String, corporation_name: String) -> (r: (
        Self,
        BootstrapAdminAction,
    ))
        ensures
            r.0 == (BootstrapAdminUseCase {
                stage: BootstrapAdminStage::ValidatingCredentials,
                user_uuid: r.0.user_uuid,
                user_name,
                password,
                email,
                corporation_name,
                user: None,
            }),
            is_uuid_v7(r.0.user_uuid),
            r.1 == BootstrapAdminAction::ValidateCredentials,
    {
        let user_uuid = new_uuid_v7();
        (
            BootstrapAdminUseCase {
                stage: BootstrapAdminStage::ValidatingCredentials,
                user_uuid,
                user_name,
                password,
                email,
                corporation_name,
                user: None,
            },
            BootstrapAdminAction::ValidateCredentials,
        )
    }

    fn end(&mut self)
        ensures
            *final(self) == (BootstrapAdminUseCase { stage: BootstrapAdminStage::Finished, user: None, ..*old(self) }),
    {
        self.stage = BootstrapAdminStage::Finished;
        self.user = None;
    }

    /// Advances with the outcome of the last action.
    pub fn step(&mut self, event: BootstrapAdminEvent) -> (a: BootstrapAdminAction)
        requires
            bootstrap_admin_event_expected(*old(self), event),
        ensures
            (*final(self), a) == bootstrap_admin_step(*old(self), event),
    {
        match event {
            BootstrapAdminEvent::Checked(Err(e)) => {
                self.end();
                BootstrapAdminAction::Finish(Err(e))
            },
            BootstrapAdminEvent::Hashed(Err(e)) => {
                self.end();
                BootstrapAdminAction::Finish(Err(e))
            },
            BootstrapAdminEvent::Checked(Ok(())) => match self.stage {
                BootstrapAdminStage::ValidatingCredentials => {
                    self.stage = BootstrapAdminStage::Hashing;
                    BootstrapAdminAction::HashPassword(self.password.clone())
                },
                BootstrapAdminStage::ValidatingEmail => {
                    self.stage = BootstrapAdminStage::Creating;
                    match &self.user {
                        Some(u) => BootstrapAdminAction::CreateAccount(copy_user(u)),
                        None => vstd::pervasive::unreached(),
                    }
                },
                _ => {
                    self.stage = BootstrapAdminStage::Inserting;
                    BootstrapAdminAction::InsertCorporation {
                        user_uuid: self.user_uuid,
                        corporation_name: self.corporation_name.clone(),
                    }
                },
            },
            BootstrapAdminEvent::Hashed(Ok(h)) => {
                let user = User {
                    uuid: self.user_uuid,
                    name: self.user_name.clone(),
                    password_hash: h,
                    email: self.email.clone(),
                    role: UserRole::Admin,
                    status: UserStatus::Active,
                };
                self.stage = BootstrapAdminStage::ValidatingEmail;
                self.user = Some(user);
                BootstrapAdminAction::ValidateEmail
            },
            BootstrapAdminEvent::Created(r) => match Self::check_creation(r) {
                Err(e) => {
                    self.end();
                    BootstrapAdminAction::Finish(Err(e))
                },
                Ok(()) => {
                    self.stage = BootstrapAdminStage::ValidatingCorporationName;
                    BootstrapAdminAction::ValidateCorporationName(self.corporation_name.clone())
                },
            },
            BootstrapAdminEvent::Inserted(r) => match from_repository(r) {
                Err(e) => {
                    self.end();
                    BootstrapAdminAction::Finish(Err(e))
                },
                Ok(()) => {
                    self.stage = BootstrapAdminStage::Finished;
                    match self.user.take() {
                        Some(u) => BootstrapAdminAction::Finish(Ok(u)),
                        None => vstd::pervasive::unreached(),
                    }
                },
            },
        }
    }

    /// The administrator account: active from the start.
    pub fn admin_account(uuid: u128, name: String, password_hash: String, email: String) -> (u: User)
        ensures
            created_account(uuid, name@, password_hash@, email@, UserRole::Admin, u),
    {
        User { uuid, name, password_hash, email, role: UserRole::Admin, status: UserStatus::Active }
    }

    /// The outcome of inserting the administrator account: a taken name or
    /// address is reported as such, any other failure as a database error.
    pub fn check_creation(r: Result<(), RepositoryError>) -> (out: Result<(), ApplicationError>)
        ensures
            out == crate::server::auth::creation_verdict(r),
    {
        crate::server::auth::RegisterUserUseCase::check_creation(r)
    }

    /// The administrator account, under a fresh identifier.
    pub fn bootstrap_account(name: String, password_hash: String, email: String) -> (u: User)
        ensures
            created_account(u.uuid, name@, password_hash@, email@, UserRole::Admin, u),
            is_uuid_v7(u.uuid),
    {
        let uuid = new_uuid_v7();
        Self::admin_account(uuid, name, password_hash, email)
    }
}

/// Who may act on other accounts: exactly an administrator whose account
/// is active; a requester who cannot be read is reported as a database
/// error.
pub proof fn lemma_admin_authorization(u: User, r: RepositoryError)
    ensures
        admin_authorization(Ok(u)) is Ok <==> u.role == UserRole::Admin && u.status == UserStatus::Active,
        !(u.role == UserRole::Admin && u.status == UserStatus::Active) ==> admin_authorization(Ok(u)) == Err::<
            (),
            ApplicationError,
        >(ApplicationError::Unauthorized),
        admin_authorization(Err(r)) == Err::<(), ApplicationError>(ApplicationError::Database(r)),
{
}

/// A read of an account: someone else's account starts with the
/// requester's, one's own account is read directly; a requester who is not
/// an active administrator ends the read with the refusal and the account
/// is never read; the read ends with the account read, or its failure as a
/// database error.
pub proof fn lemma_get_user_outcomes(req_user_uuid: u128, user_uuid: u128, read: Result<User, RepositoryError>, r: RepositoryError)
    ensures
        req_user_uuid != user_uuid ==> get_user_start(req_user_uuid, user_uuid) == (
            GetUserStage::CheckingRequester,
            GetUserAction::GetUser(req_user_uuid),
        ),
        req_user_uuid == user_uuid ==> get_user_start(req_user_uuid, user_uuid) == (
            GetUserStage::Reading,
            GetUserAction::GetUser(user_uuid),
        ),
        get_user_step(GetUserStage::Reading, user_uuid, read, |x| admin_authorization(x)).1 == GetUserAction::Finish(
            match read {
                Ok(u) => Ok(u),
                Err(e) => Err(ApplicationError::Database(e)),
            },
        ),
        get_user_step(GetUserStage::CheckingRequester, user_uuid, Err(r), |x| admin_authorization(x)).1
            == GetUserAction::Finish(Err(ApplicationError::Database(r))),
        (read matches Ok(u) && !(u.role == UserRole::Admin && u.status == UserStatus::Active)) ==> get_user_step(
            GetUserStage::CheckingRequester,
            user_uuid,
            read,
            |x| admin_authorization(x),
        ).1 == GetUserAction::Finish(Err(ApplicationError::Unauthorized)),
{
}

/// A deletion: someone else's account starts with checking the requester,
/// one's own with finding the corporation; only an active administrator
/// gets past the check; a user without a corporation ends it with
/// `CorporationForUserNotFound`; the deletion queued is that of the
/// user's corporation, asked for under the request's identifiers; any
/// failure ends the deletion with it, and it only succeeds once the
/// account was deleted.
pub proof fn lemma_delete_outcomes(
    s: DeleteUserUseCase,
    event: DeleteEvent,
    request_uuid: u128,
    req_user_uuid: u128,
    user_uuid: u128,
    corporation_uuid: u128,
    r: RepositoryError,
    a: ApplicationError,
)
    ensures
        req_user_uuid != user_uuid ==> delete_start(request_uuid, req_user_uuid, user_uuid).1 == DeleteAction::GetRequester(
            req_user_uuid,
        ),
        req_user_uuid == user_uuid ==> delete_start(request_uuid, req_user_uuid, user_uuid).1
            == DeleteAction::GetCorporationOfUser(user_uuid),
        delete_step(s, DeleteEvent::Corporation(Err(RepositoryError::NotFound))).1 == DeleteAction::Finish(
            Err(ApplicationError::CorporationForUserNotFound),
        ),
        r != RepositoryError::NotFound ==> delete_step(s, DeleteEvent::Corporation(Err(r))).1 == DeleteAction::Finish(
            Err(ApplicationError::Database(r)),
        ),
        delete_step(s, DeleteEvent::Corporation(Ok(corporation_uuid))).1 == DeleteAction::Enqueue(
            QueuedActionPayload {
                request_uuid: s.request_uuid,
                req_user_uuid: s.req_user_uuid,
                details: ActionDetails::DeleteCorporation { corporation_uuid },
            },
        ),
        delete_step(s, DeleteEvent::Requester(Err(r))).1 == DeleteAction::Finish(Err(ApplicationError::Database(r))),
        delete_step(s, DeleteEvent::Queued(Err(a))).1 == DeleteAction::Finish(Err(a)),
        delete_step(s, DeleteEvent::Done(Err(r))).1 == DeleteAction::Finish(Err(ApplicationError::Database(r))),
        delete_step(s, DeleteEvent::Queued(Ok(()))).1 == DeleteAction::DeleteUser(s.user_uuid),
        delete_step(s, event).1 matches DeleteAction::Finish(Ok(_)) ==> (event matches DeleteEvent::Done(Ok(_))),
        delete_step(s, event).1 is Finish <==> delete_step(s, event).0.stage == DeleteStage::Finished,
{
}

/// How an account creation by an administrator ends: a failed check, hash
/// or queueing with that failure, a refused requester with the refusal, a
/// taken corporation name with `CorporationNameAlreadyTaken`, a storage
/// failure as a database error; it only succeeds once the corporation's
/// creation was queued, with the new account, which is active, has the
/// role asked for, and the name, email and hashed password given.
pub proof fn lemma_create_outcomes(
    s: CreateUserUseCase,
    event: CreateEvent,
    a: ApplicationError,
    r: RepositoryError,
    h: String,
    u: User,
)
    requires
        create_event_expected(s, event),
    ensures
        create_step(s, CreateEvent::Checked(Err(a))).1 == CreateAction::Finish(Err(a)),
        create_step(s, CreateEvent::Hashed(Err(a))).1 == CreateAction::Finish(Err(a)),
        create_step(s, CreateEvent::Requester(Err(r))).1 == CreateAction::Finish(Err(ApplicationError::Database(r))),
        create_step(s, CreateEvent::Created(Err(r))).1 == CreateAction::Finish(Err(ApplicationError::Database(r))),
        r != RepositoryError::NotFound ==> create_step(s, CreateEvent::NameLookup(Err(r))).1 == CreateAction::Finish(
            Err(ApplicationError::Database(r)),
        ),
        create_step(s, event).1 matches CreateAction::Finish(Ok(u)) ==> s.stage == CreateStage::Enqueueing && Some(u)
            == s.user && (event matches CreateEvent::Checked(Ok(_))),
        create_step(s, CreateEvent::Hashed(Ok(h))).1 matches CreateAction::CreateAccount(u) && u.status
            == UserStatus::Active && u.role == s.role && u.uuid == s.user_uuid && u.name == s.user_name && u.email
            == s.email && u.password_hash == h,
        create_step(s, CreateEvent::Requester(Ok(u))).1 is ValidateCorporationName <==> u.role == UserRole::Admin
            && u.status == UserStatus::Active,
        create_step(s, event).1 matches CreateAction::GetRequester(id) ==> id == s.req_user_uuid,
        create_step(s, event).1 is Finish <==> create_step(s, event).0.stage == CreateStage::Finished,
{
}

/// How the bootstrap of the administrator ends: a failed check or hash with
/// that failure, a taken account (a unique constraint) with
/// `UniqueConstraint`, another storage failure as a database error; it only
/// succeeds once the corporation was stored, with the account, an active
/// administrator with the name, email and hashed password given.
pub proof fn lemma_bootstrap_admin_outcomes(
    s: BootstrapAdminUseCase,
    event: BootstrapAdminEvent,
    a: ApplicationError,
    r: RepositoryError,
    h: String,
)
    requires
        bootstrap_admin_event_expected(s, event),
    ensures
        bootstrap_admin_step(s, BootstrapAdminEvent::Checked(Err(a))).1 == BootstrapAdminAction::Finish(Err(a)),
        bootstrap_admin_step(s, BootstrapAdminEvent::Hashed(Err(a))).1 == BootstrapAdminAction::Finish(Err(a)),
        bootstrap_admin_step(s, BootstrapAdminEvent::Created(Err(RepositoryError::UniqueConstraint))).1
            == BootstrapAdminAction::Finish(Err(ApplicationError::UniqueConstraint)),
        r != RepositoryError::UniqueConstraint ==> bootstrap_admin_step(s, BootstrapAdminEvent::Created(Err(r))).1
            == BootstrapAdminAction::Finish(Err(ApplicationError::Database(r))),
        bootstrap_admin_step(s, BootstrapAdminEvent::Inserted(Err(r))).1 == BootstrapAdminAction::Finish(
            Err(ApplicationError::Database(r)),
        ),
        bootstrap_admin_step(s, event).1 matches BootstrapAdminAction::Finish(Ok(u)) ==> s.stage
            == BootstrapAdminStage::Inserting && Some(u) == s.user && (event matches BootstrapAdminEvent::Inserted(Ok(_))),
        bootstrap_admin_step(s, BootstrapAdminEvent::Hashed(Ok(h))).0.user matches Some(u) && u.status
            == UserStatus::Active && u.role == UserRole::Admin && u.uuid == s.user_uuid && u.name == s.user_name
            && u.email == s.email && u.password_hash == h,
        bootstrap_admin_step(s, event).1 is Finish <==> bootstrap_admin_step(s, event).0.stage
            == BootstrapAdminStage::Finished,
{
}

} // verus!
