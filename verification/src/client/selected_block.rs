//! Focus cycling of the input fields of every service form.
use vstd::prelude::*;

verus! {

/// The input field that has focus in the registration form.
#[derive(Debug, Clone, Copy, PartialEq, Eq, Structural)]
pub enum SelectedBlockRegister {
    UserName,
    UserPassword,
    Email,
    CorporationName,
}

impl SelectedBlockRegister {
    /// The field that follows `self` when moving forward (wrapping around).
    pub open spec fn next(self) -> Self {
        match self {
            SelectedBlockRegister::UserName => SelectedBlockRegister::UserPassword,
            SelectedBlockRegister::UserPassword => SelectedBlockRegister::Email,
            SelectedBlockRegister::Email => SelectedBlockRegister::CorporationName,
            SelectedBlockRegister::CorporationName => SelectedBlockRegister::UserName,
        }
    }

    /// The field that precedes `self` (wrapping around).
    pub open spec fn prev(self) -> Self {
        match self {
            SelectedBlockRegister::UserName => SelectedBlockRegister::CorporationName,
            SelectedBlockRegister::UserPassword => SelectedBlockRegister::UserName,
            SelectedBlockRegister::Email => SelectedBlockRegister::UserPassword,
            SelectedBlockRegister::CorporationName => SelectedBlockRegister::Email,
        }
    }

    /// Moves the focus to the next field.
    pub fn advance(&mut self)
        ensures
            *final(self) == old(self).next(),
    {
        *self = match self {
            SelectedBlockRegister::UserName => SelectedBlockRegister::UserPassword,
            SelectedBlockRegister::UserPassword => SelectedBlockRegister::Email,
            SelectedBlockRegister::Email => SelectedBlockRegister::CorporationName,
            SelectedBlockRegister::CorporationName => SelectedBlockRegister::UserName,
        };
    }

    /// Moves the focus to the previous field.
    pub fn previous(&mut self)
        ensures
            *final(self) == old(self).prev(),
    {
        *self = match self {
            SelectedBlockRegister::UserName => SelectedBlockRegister::CorporationName,
            SelectedBlockRegister::UserPassword => SelectedBlockRegister::UserName,
            SelectedBlockRegister::Email => SelectedBlockRegister::UserPassword,
            SelectedBlockRegister::CorporationName => SelectedBlockRegister::Email,
        };
    }

    /// Moving back after moving forward returns to the same field, and the
    /// other way round.
    pub proof fn lemma_previous_undoes_advance(b: Self)
        ensures
            b.next().prev() == b,
            b.prev().next() == b,
    {
    }

    /// Moving forward four times visits every field once and comes back.
    pub proof fn lemma_advance_cycles(b: Self)
        ensures
            b.next().next().next().next() == b,
            b.next() != b,
            b.next().next() != b,
            b.next().next().next() != b,
    {
    }
}

impl Default for SelectedBlockRegister {
    fn default() -> (r: Self)
        ensures
            r == SelectedBlockRegister::UserName,
    {
        SelectedBlockRegister::UserName
    }
}

/// The input field that has focus in the verification form.
#[derive(Debug, Clone, Copy, PartialEq, Eq, Structural)]
pub enum SelectedBlockVerify {
    UserName,
    Code,
}

impl SelectedBlockVerify {
    /// The field that follows `self` when moving forward (wrapping around).
    pub open spec fn next(self) -> Self {
        match self {
            SelectedBlockVerify::UserName => SelectedBlockVerify::Code,
            SelectedBlockVerify::Code => SelectedBlockVerify::UserName,
        }
    }

    /// The field that precedes `self` (wrapping around).
    pub open spec fn prev(self) -> Self {
        match self {
            SelectedBlockVerify::UserName => SelectedBlockVerify::Code,
            SelectedBlockVerify::Code => SelectedBlockVerify::UserName,
        }
    }

    /// Moves the focus to the next field.
    pub fn advance(&mut self)
        ensures
            *final(self) == old(self).next(),
    {
        *self = match self {
            SelectedBlockVerify::UserName => SelectedBlockVerify::Code,
            SelectedBlockVerify::Code => SelectedBlockVerify::UserName,
        };
    }

    /// Moves the focus to the previous field.
    pub fn previous(&mut self)
        ensures
            *final(self) == old(self).prev(),
    {
        *self = match self {
            SelectedBlockVerify::UserName => SelectedBlockVerify::Code,
            SelectedBlockVerify::Code => SelectedBlockVerify::UserName,
        };
    }

    /// Moving back after moving forward returns to the same field, and the
    /// other way round.
    pub proof fn lemma_previous_undoes_advance(b: Self)
        ensures
            b.next().prev() == b,
            b.prev().next() == b,
    {
    }

    /// Moving forward twice visits every field once and comes back.
    pub proof fn lemma_advance_cycles(b: Self)
        ensures
            b.next().next() == b,
            b.next() != b,
    {
    }
}

impl Default for SelectedBlockVerify {
    fn default() -> (r: Self)
        ensures
            r == SelectedBlockVerify::UserName,
    {
        SelectedBlockVerify::UserName
    }
}

/// The input field that has focus in the resend-verification form.
#[derive(Debug, Clone, Copy, PartialEq, Eq, Structural)]
pub enum SelectedBlockResend {
    UserName,
}

impl SelectedBlockResend {
    /// The field that follows `self` when moving forward (wrapping around).
    pub open spec fn next(self) -> Self {
        match self {
            SelectedBlockResend::UserName => SelectedBlockResend::UserName,
        }
    }

    /// The field that precedes `self` (wrapping around).
    pub open spec fn prev(self) -> Self {
        match self {
            SelectedBlockResend::UserName => SelectedBlockResend::UserName,
        }
    }

    /// Moves the focus to the next field.
    pub fn advance(&mut self)
        ensures
            *final(self) == old(self).next(),
    {
        *self = match self {
            SelectedBlockResend::UserName => SelectedBlockResend::UserName,
        };
    }

    /// Moves the focus to the previous field.
    pub fn previous(&mut self)
        ensures
            *final(self) == old(self).prev(),
    {
        *self = match self {
            SelectedBlockResend::UserName => SelectedBlockResend::UserName,
        };
    }

    /// Moving back after moving forward returns to the same field, and the
    /// other way round.
    pub proof fn lemma_previous_undoes_advance(b: Self)
        ensures
            b.next().prev() == b,
            b.prev().next() == b,
    {
    }

    /// With a single field, moving forward stays on it.
    pub proof fn lemma_advance_cycles(b: Self)
        ensures
            b.next() == b,
    {
    }
}

impl Default for SelectedBlockResend {
    fn default() -> (r: Self)
        ensures
            r == SelectedBlockResend::UserName,
    {
        SelectedBlockResend::UserName
    }
}

/// The input field that has focus in the login form.
#[derive(Debug, Clone, Copy, PartialEq, Eq, Structural)]
pub enum SelectedBlockLogin {
    UserName,
    UserPassword,
}

impl SelectedBlockLogin {
    /// The field that follows `self` when moving forward (wrapping around).
    pub open spec fn next(self) -> Self {
        match self {
            SelectedBlockLogin::UserName => SelectedBlockLogin::UserPassword,
            SelectedBlockLogin::UserPassword => SelectedBlockLogin::UserName,
        }
    }

    /// The field that precedes `self` (wrapping around).
    pub open spec fn prev(self) -> Self {
        match self {
            SelectedBlockLogin::UserName => SelectedBlockLogin::UserPassword,
            SelectedBlockLogin::UserPassword => SelectedBlockLogin::UserName,
        }
    }

    /// Moves the focus to the next field.
    pub fn advance(&mut self)
        ensures
            *final(self) == old(self).next(),
    {
        *self = match self {
            SelectedBlockLogin::UserName => SelectedBlockLogin::UserPassword,
            SelectedBlockLogin::UserPassword => SelectedBlockLogin::UserName,
        };
    }

    /// Moves the focus to the previous field.
    pub fn previous(&mut self)
        ensures
            *final(self) == old(self).prev(),
    {
        *self = match self {
            SelectedBlockLogin::UserName => SelectedBlockLogin::UserPassword,
            SelectedBlockLogin::UserPassword => SelectedBlockLogin::UserName,
        };
    }

    /// Moving back after moving forward returns to the same field, and the
    /// other way round.
    pub proof fn lemma_previous_undoes_advance(b: Self)
        ensures
            b.next().prev() == b,
            b.prev().next() == b,
    {
    }

    /// Moving forward twice visits every field once and comes back.
    pub proof fn lemma_advance_cycles(b: Self)
        ensures
            b.next().next() == b,
            b.next() != b,
    {
    }
}

impl Default for SelectedBlockLogin {
    fn default() -> (r: Self)
        ensures
            r == SelectedBlockLogin::UserName,
    {
        SelectedBlockLogin::UserName
    }
}

/// The input field that has focus in the create-user form.
#[derive(Debug, Clone, Copy, PartialEq, Eq, Structural)]
pub enum SelectedBlockCreateUser {
    UserName,
    UserPassword,
    UserEmail,
    UserRole,
    CorporationName,
}

impl SelectedBlockCreateUser {
    /// The field that follows `self` when moving forward (wrapping around).
    pub open spec fn next(self) -> Self {
        match self {
            SelectedBlockCreateUser::UserName => SelectedBlockCreateUser::UserPassword,
            SelectedBlockCreateUser::UserPassword => SelectedBlockCreateUser::UserEmail,
            SelectedBlockCreateUser::UserEmail => SelectedBlockCreateUser::UserRole,
            SelectedBlockCreateUser::UserRole => SelectedBlockCreateUser::CorporationName,
            SelectedBlockCreateUser::CorporationName => SelectedBlockCreateUser::UserName,
        }
    }

    /// The field that precedes `self` (wrapping around).
    pub open spec fn prev(self) -> Self {
        match self {
            SelectedBlockCreateUser::UserName => SelectedBlockCreateUser::CorporationName,
            SelectedBlockCreateUser::UserPassword => SelectedBlockCreateUser::UserName,
            SelectedBlockCreateUser::UserEmail => SelectedBlockCreateUser::UserPassword,
            SelectedBlockCreateUser::UserRole => SelectedBlockCreateUser::UserEmail,
            SelectedBlockCreateUser::CorporationName => SelectedBlockCreateUser::UserRole,
        }
    }

    /// Moves the focus to the next field.
    pub fn advance(&mut self)
        ensures
            *final(self) == old(self).next(),
    {
        *self = match self {
            SelectedBlockCreateUser::UserName => SelectedBlockCreateUser::UserPassword,
            SelectedBlockCreateUser::UserPassword => SelectedBlockCreateUser::UserEmail,
            SelectedBlockCreateUser::UserEmail => SelectedBlockCreateUser::UserRole,
            SelectedBlockCreateUser::UserRole => SelectedBlockCreateUser::CorporationName,
            SelectedBlockCreateUser::CorporationName => SelectedBlockCreateUser::UserName,
        };
    }

    /// Moves the focus to the previous field.
    pub fn previous(&mut self)
        ensures
            *final(self) == old(self).prev(),
    {
        *self = match self {
            SelectedBlockCreateUser::UserName => SelectedBlockCreateUser::CorporationName,
            SelectedBlockCreateUser::UserPassword => SelectedBlockCreateUser::UserName,
            SelectedBlockCreateUser::UserEmail => SelectedBlockCreateUser::UserPassword,
            SelectedBlockCreateUser::UserRole => SelectedBlockCreateUser::UserEmail,
            SelectedBlockCreateUser::CorporationName => SelectedBlockCreateUser::UserRole,
        };
    }

    /// Moving back after moving forward returns to the same field, and the
    /// other way round.
    pub proof fn lemma_previous_undoes_advance(b: Self)
        ensures
            b.next().prev() == b,
            b.prev().next() == b,
    {
    }

    /// Moving forward five times visits every field once and comes back.
    pub proof fn lemma_advance_cycles(b: Self)
        ensures
            b.next().next().next().next().next() == b,
            b.next() != b,
            b.next().next() != b,
            b.next().next().next() != b,
            b.next().next().next().next() != b,
    {
    }
}

impl Default for SelectedBlockCreateUser {
    fn default() -> (r: Self)
        ensures
            r == SelectedBlockCreateUser::UserName,
    {
        SelectedBlockCreateUser::UserName
    }
}

/// The input field that has focus in the get-user form.
#[derive(Debug, Clone, Copy, PartialEq, Eq, Structural)]
pub enum SelectedBlockGetUser {
    UserUuid,
}

impl SelectedBlockGetUser {
    /// The field that follows `self` when moving forward (wrapping around).
    pub open spec fn next(self) -> Self {
        match self {
            SelectedBlockGetUser::UserUuid => SelectedBlockGetUser::UserUuid,
        }
    }

    /// The field that precedes `self` (wrapping around).
    pub open spec fn prev(self) -> Self {
        match self {
            SelectedBlockGetUser::UserUuid => SelectedBlockGetUser::UserUuid,
        }
    }

    /// Moves the focus to the next field.
    pub fn advance(&mut self)
        ensures
            *final(self) == old(self).next(),
    {
        *self = match self {
            SelectedBlockGetUser::UserUuid => SelectedBlockGetUser::UserUuid,
        };
    }

    /// Moves the focus to the previous field.
    pub fn previous(&mut self)
        ensures
            *final(self) == old(self).prev(),
    {
        *self = match self {
            SelectedBlockGetUser::UserUuid => SelectedBlockGetUser::UserUuid,
        };
    }

    /// Moving back after moving forward returns to the same field, and the
    /// other way round.
    pub proof fn lemma_previous_undoes_advance(b: Self)
        ensures
            b.next().prev() == b,
            b.prev().next() == b,
    {
    }

    /// With a single field, moving forward stays on it.
    pub proof fn lemma_advance_cycles(b: Self)
        ensures
            b.next() == b,
    {
    }
}

impl Default for SelectedBlockGetUser {
    fn default() -> (r: Self)
        ensures
            r == SelectedBlockGetUser::UserUuid,
    {
        SelectedBlockGetUser::UserUuid
    }
}

/// The input field that has focus in the delete-user form.
#[derive(Debug, Clone, Copy, PartialEq, Eq, Structural)]
pub enum SelectedBlockDeleteUser {
    UserUuid,
}

impl SelectedBlockDeleteUser {
    /// The field that follows `self` when moving forward (wrapping around).
    pub open spec fn next(self) -> Self {
        match self {
            SelectedBlockDeleteUser::UserUuid => SelectedBlockDeleteUser::UserUuid,
        }
    }

    /// The field that precedes `self` (wrapping around).
    pub open spec fn prev(self) -> Self {
        match self {
            SelectedBlockDeleteUser::UserUuid => SelectedBlockDeleteUser::UserUuid,
        }
    }

    /// Moves the focus to the next field.
    pub fn advance(&mut self)
        ensures
            *final(self) == old(self).next(),
    {
        *self = match self {
            SelectedBlockDeleteUser::UserUuid => SelectedBlockDeleteUser::UserUuid,
        };
    }

    /// Moves the focus to the previous field.
    pub fn previous(&mut self)
        ensures
            *final(self) == old(self).prev(),
    {
        *self = match self {
            SelectedBlockDeleteUser::UserUuid => SelectedBlockDeleteUser::UserUuid,
        };
    }

    /// Moving back after moving forward returns to the same field, and the
    /// other way round.
    pub proof fn lemma_previous_undoes_advance(b: Self)
        ensures
            b.next().prev() == b,
            b.prev().next() == b,
    {
    }

    /// With a single field, moving forward stays on it.
    pub proof fn lemma_advance_cycles(b: Self)
        ensures
            b.next() == b,
    {
    }
}

impl Default for SelectedBlockDeleteUser {
    fn default() -> (r: Self)
        ensures
            r == SelectedBlockDeleteUser::UserUuid,
    {
        SelectedBlockDeleteUser::UserUuid
    }
}

/// The input field that has focus in the business-listing query form.
#[derive(Debug, Clone, Copy, PartialEq, Eq, Structural)]
pub enum SelectedBlockQueryBusinessListings {
    MinAskingPrice,
    MaxAskingPrice,
    SellerCorporationUuid,
    MarketUuid,
    MinOperationalExpenses,
    MaxOperationalExpenses,
    SortBy,
    SortDirection,
    Limit,
    Offset,
}

impl SelectedBlockQueryBusinessListings {
    /// The field that follows `self` when moving forward (wrapping around).
    pub open spec fn next(self) -> Self {
        match self {
            SelectedBlockQueryBusinessListings::MinAskingPrice => SelectedBlockQueryBusinessListings::MaxAskingPrice,
            SelectedBlockQueryBusinessListings::MaxAskingPrice => SelectedBlockQueryBusinessListings::SellerCorporationUuid,
            SelectedBlockQueryBusinessListings::SellerCorporationUuid => SelectedBlockQueryBusinessListings::MarketUuid,
            SelectedBlockQueryBusinessListings::MarketUuid => SelectedBlockQueryBusinessListings::MinOperationalExpenses,
            SelectedBlockQueryBusinessListings::MinOperationalExpenses => SelectedBlockQueryBusinessListings::MaxOperationalExpenses,
            SelectedBlockQueryBusinessListings::MaxOperationalExpenses => SelectedBlockQueryBusinessListings::SortBy,
            SelectedBlockQueryBusinessListings::SortBy => SelectedBlockQueryBusinessListings::SortDirection,
            SelectedBlockQueryBusinessListings::SortDirection => SelectedBlockQueryBusinessListings::Limit,
            SelectedBlockQueryBusinessListings::Limit => SelectedBlockQueryBusinessListings::Offset,
            SelectedBlockQueryBusinessListings::Offset => SelectedBlockQueryBusinessListings::MinAskingPrice,
        }
    }

    /// The field that precedes `self` (wrapping around).
    pub open spec fn prev(self) -> Self {
        match self {
            SelectedBlockQueryBusinessListings::MinAskingPrice => SelectedBlockQueryBusinessListings::Offset,
            SelectedBlockQueryBusinessListings::MaxAskingPrice => SelectedBlockQueryBusinessListings::MinAskingPrice,
            SelectedBlockQueryBusinessListings::SellerCorporationUuid => SelectedBlockQueryBusinessListings::MaxAskingPrice,
            SelectedBlockQueryBusinessListings::MarketUuid => SelectedBlockQueryBusinessListings::SellerCorporationUuid,
            SelectedBlockQueryBusinessListings::MinOperationalExpenses => SelectedBlockQueryBusinessListings::MarketUuid,
            SelectedBlockQueryBusinessListings::MaxOperationalExpenses => SelectedBlockQueryBusinessListings::MinOperationalExpenses,
            SelectedBlockQueryBusinessListings::SortBy => SelectedBlockQueryBusinessListings::MaxOperationalExpenses,
            SelectedBlockQueryBusinessListings::SortDirection => SelectedBlockQueryBusinessListings::SortBy,
            SelectedBlockQueryBusinessListings::Limit => SelectedBlockQueryBusinessListings::SortDirection,
            SelectedBlockQueryBusinessListings::Offset => SelectedBlockQueryBusinessListings::Limit,
        }
    }

    /// Moves the focus to the next field.
    pub fn advance(&mut self)
        ensures
            *final(self) == old(self).next(),
    {
        *self = match self {
            SelectedBlockQueryBusinessListings::MinAskingPrice => SelectedBlockQueryBusinessListings::MaxAskingPrice,
            SelectedBlockQueryBusinessListings::MaxAskingPrice => SelectedBlockQueryBusinessListings::SellerCorporationUuid,
            SelectedBlockQueryBusinessListings::SellerCorporationUuid => SelectedBlockQueryBusinessListings::MarketUuid,
            SelectedBlockQueryBusinessListings::MarketUuid => SelectedBlockQueryBusinessListings::MinOperationalExpenses,
            SelectedBlockQueryBusinessListings::MinOperationalExpenses => SelectedBlockQueryBusinessListings::MaxOperationalExpenses,
            SelectedBlockQueryBusinessListings::MaxOperationalExpenses => SelectedBlockQueryBusinessListings::SortBy,
            SelectedBlockQueryBusinessListings::SortBy => SelectedBlockQueryBusinessListings::SortDirection,
            SelectedBlockQueryBusinessListings::SortDirection => SelectedBlockQueryBusinessListings::Limit,
            SelectedBlockQueryBusinessListings::Limit => SelectedBlockQueryBusinessListings::Offset,
            SelectedBlockQueryBusinessListings::Offset => SelectedBlockQueryBusinessListings::MinAskingPrice,
        };
    }

    /// Moves the focus to the previous field.
    pub fn previous(&mut self)
        ensures
            *final(self) == old(self).prev(),
    {
        *self = match self {
            SelectedBlockQueryBusinessListings::MinAskingPrice => SelectedBlockQueryBusinessListings::Offset,
            SelectedBlockQueryBusinessListings::MaxAskingPrice => SelectedBlockQueryBusinessListings::MinAskingPrice,
            SelectedBlockQueryBusinessListings::SellerCorporationUuid => SelectedBlockQueryBusinessListings::MaxAskingPrice,
            SelectedBlockQueryBusinessListings::MarketUuid => SelectedBlockQueryBusinessListings::SellerCorporationUuid,
            SelectedBlockQueryBusinessListings::MinOperationalExpenses => SelectedBlockQueryBusinessListings::MarketUuid,
            SelectedBlockQueryBusinessListings::MaxOperationalExpenses => SelectedBlockQueryBusinessListings::MinOperationalExpenses,
            SelectedBlockQueryBusinessListings::SortBy => SelectedBlockQueryBusinessListings::MaxOperationalExpenses,
            SelectedBlockQueryBusinessListings::SortDirection => SelectedBlockQueryBusinessListings::SortBy,
            SelectedBlockQueryBusinessListings::Limit => SelectedBlockQueryBusinessListings::SortDirection,
            SelectedBlockQueryBusinessListings::Offset => SelectedBlockQueryBusinessListings::Limit,
        };
    }

    /// Moving back after moving forward returns to the same field, and the
    /// other way round.
    pub proof fn lemma_previous_undoes_advance(b: Self)
        ensures
            b.next().prev() == b,
            b.prev().next() == b,
    {
    }

    /// Moving forward ten times visits every field once and comes back.
    pub proof fn lemma_advance_cycles(b: Self)
        ensures
            b.next().next().next().next().next().next().next().next().next().next() == b,
            b.next() != b,
            b.next().next() != b,
            b.next().next().next() != b,
            b.next().next().next().next() != b,
            b.next().next().next().next().next() != b,
            b.next().next().next().next().next().next() != b,
            b.next().next().next().next().next().next().next() != b,
            b.next().next().next().next().next().next().next().next() != b,
            b.next().next().next().next().next().next().next().next().next() != b,
    {
    }
}

impl Default for SelectedBlockQueryBusinessListings {
    fn default() -> (r: Self)
        ensures
            r == SelectedBlockQueryBusinessListings::MinAskingPrice,
    {
        SelectedBlockQueryBusinessListings::MinAskingPrice
    }
}

/// The input field that has focus in the acquire-listing form.
#[derive(Debug, Clone, Copy, PartialEq, Eq, Structural)]
pub enum SelectedBlockAcquireBusinessListing {
    BusinessListingUuid,
}

impl SelectedBlockAcquireBusinessListing {
    /// The field that follows `self` when moving forward (wrapping around).
    pub open spec fn next(self) -> Self {
        match self {
            SelectedBlockAcquireBusinessListing::BusinessListingUuid => SelectedBlockAcquireBusinessListing::BusinessListingUuid,
        }
    }

    /// The field that precedes `self` (wrapping around).
    pub open spec fn prev(self) -> Self {
        match self {
            SelectedBlockAcquireBusinessListing::BusinessListingUuid => SelectedBlockAcquireBusinessListing::BusinessListingUuid,
        }
    }

    /// Moves the focus to the next field.
    pub fn advance(&mut self)
        ensures
            *final(self) == old(self).next(),
    {
        *self = match self {
            SelectedBlockAcquireBusinessListing::BusinessListingUuid => SelectedBlockAcquireBusinessListing::BusinessListingUuid,
        };
    }

    /// Moves the focus to the previous field.
    pub fn previous(&mut self)
        ensures
            *final(self) == old(self).prev(),
    {
        *self = match self {
            SelectedBlockAcquireBusinessListing::BusinessListingUuid => SelectedBlockAcquireBusinessListing::BusinessListingUuid,
        };
    }

    /// Moving back after moving forward returns to the same field, and the
    /// other way round.
    pub proof fn lemma_previous_undoes_advance(b: Self)
        ensures
            b.next().prev() == b,
            b.prev().next() == b,
    {
    }

    /// With a single field, moving forward stays on it.
    pub proof fn lemma_advance_cycles(b: Self)
        ensures
            b.next() == b,
    {
    }
}

impl Default for SelectedBlockAcquireBusinessListing {
    fn default() -> (r: Self)
        ensures
            r == SelectedBlockAcquireBusinessListing::BusinessListingUuid,
    {
        SelectedBlockAcquireBusinessListing::BusinessListingUuid
    }
}

} // verus!
