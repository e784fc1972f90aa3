//! Actions queued for the game tick processor. Identifiers (UUIDs) are held
//! as their 128-bit values.
use vstd::prelude::*;

verus! {

/// What a queued action does.
#[derive(Debug, Clone, PartialEq, Eq)]
pub enum ActionDetails {
    CreateCorporation { user_uuid: u128, corporation_name: String },
    DeleteCorporation { corporation_uuid: u128 },
    SpawnUnit,
    AcquireListedBusiness { business_listing_uuid: u128 },
}

/// The order in which actions of one tick are applied: corporations are
/// created first and deleted last.
pub open spec fn action_order(d: ActionDetails) -> u16 {
    match d {
        ActionDetails::CreateCorporation { .. } => 1,
        ActionDetails::SpawnUnit => 2,
        ActionDetails::AcquireListedBusiness { .. } => 3,
        ActionDetails::DeleteCorporation { .. } => 4,
    }
}

/// The name of each kind of action.
pub open spec fn action_name(d: ActionDetails) -> Seq<char> {
    match d {
        ActionDetails::CreateCorporation { .. } => "CreateCorporation"@,
        ActionDetails::DeleteCorporation { .. } => "DeleteCorporation"@,
        ActionDetails::SpawnUnit => "SpawnUnit"@,
        ActionDetails::AcquireListedBusiness { .. } => "AcquireListedBusiness"@,
    }
}

impl ActionDetails {
    /// The position of this kind of action in a tick's processing order.
    pub fn get_order(&self) -> (o: u16)
        ensures
            o == action_order(*self),
    {
        match self {
            ActionDetails::CreateCorporation { .. } => 1,
            ActionDetails::SpawnUnit => 2,
            ActionDetails::AcquireListedBusiness { .. } => 3,
            ActionDetails::DeleteCorporation { .. } => 4,
        }
    }

    /// The name of this kind of action.
    pub fn name(&self) -> (s: &'static str)
        ensures
            s@ == action_name(*self),
    {
        match self {
            ActionDetails::CreateCorporation { .. } => "CreateCorporation",
            ActionDetails::DeleteCorporation { .. } => "DeleteCorporation",
            ActionDetails::SpawnUnit => "SpawnUnit",
            ActionDetails::AcquireListedBusiness { .. } => "AcquireListedBusiness",
        }
    }
}

/// Creating a corporation comes before every other kind of action, and
/// deleting one after every other kind; different kinds never share a
/// position.
pub proof fn lemma_action_order_is_strict(a: ActionDetails, b: ActionDetails)
    ensures
        a is CreateCorporation && !(b is CreateCorporation) ==> action_order(a) < action_order(b),
        a is DeleteCorporation && !(b is DeleteCorporation) ==> action_order(a) > action_order(b),
        action_order(a) == action_order(b) ==> (a is CreateCorporation <==> b is CreateCorporation)
            && (a is DeleteCorporation <==> b is DeleteCorporation) && (a is SpawnUnit <==> b is SpawnUnit)
            && (a is AcquireListedBusiness <==> b is AcquireListedBusiness),
{
}

/// A request turned into an action: who asked, under which request id, and
/// what to do.
#[derive(Debug, Clone, PartialEq, Eq)]
pub struct QueuedActionPayload {
    pub request_uuid: u128,
    pub req_user_uuid: u128,
    pub details: ActionDetails,
}

/// A payload with the id the queue gave it.
#[derive(Debug, Clone, PartialEq, Eq)]
pub struct QueuedAction {
    pub id: String,
    pub payload: QueuedActionPayload,
}

} // verus!
