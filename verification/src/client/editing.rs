//! Focus cycling of the input fields shown in the editing popup.
use vstd::prelude::*;

verus! {

/// The input field that has focus in the registration form.
#[derive(Debug, Clone, Copy, PartialEq, Eq, Structural)]
pub enum SelectedBlockRegister {
    UserName,
    UserPassword,
    Email,
    CorporationName,
}

impl SelectedBlockRegister {
    /// The field that follows `self` when moving forward (wrapping around).
    pub open spec fn next(self) -> Self {
        match self {
            SelectedBlockRegister::UserName => SelectedBlockRegister::UserPassword,
            SelectedBlockRegister::UserPassword => SelectedBlockRegister::Email,
            SelectedBlockRegister::Email => SelectedBlockRegister::CorporationName,
            SelectedBlockRegister::CorporationName => SelectedBlockRegister::UserName,
        }
    }

    /// The field that precedes `self` (wrapping around).
    pub open spec fn prev(self) -> Self {
        match self {
            SelectedBlockRegister::UserName => SelectedBlockRegister::CorporationName,
            SelectedBlockRegister::UserPassword => SelectedBlockRegister::UserName,
            SelectedBlockRegister::Email => SelectedBlockRegister::UserPassword,
            SelectedBlockRegister::CorporationName => SelectedBlockRegister::Email,
        }
    }

    /// Moves the focus to the next field.
    pub fn advance(&mut self)
        ensures
            *final(self) == old(self).next(),
    {
        *self = match self {
            SelectedBlockRegister::UserName => SelectedBlockRegister::UserPassword,
            SelectedBlockRegister::UserPassword => SelectedBlockRegister::Email,
            SelectedBlockRegister::Email => SelectedBlockRegister::CorporationName,
            SelectedBlockRegister::CorporationName => SelectedBlockRegister::UserName,
        };
    }

    /// Moves the focus to the previous field.
    pub fn previous(&mut self)
        ensures
            *final(self) == old(self).prev(),
    {
        *self = match self {
            SelectedBlockRegister::UserName => SelectedBlockRegister::CorporationName,
            SelectedBlockRegister::UserPassword => SelectedBlockRegister::UserName,
            SelectedBlockRegister::Email => SelectedBlockRegister::UserPassword,
            SelectedBlockRegister::CorporationName => SelectedBlockRegister::Email,
        };
    }

    /// Moving back after moving forward returns to the same field, and the
    /// other way round.
    pub proof fn lemma_previous_undoes_advance(b: Self)
        ensures
            b.next().prev() == b,
            b.prev().next() == b,
    {
    }

    /// Moving forward four times visits every field once and comes back.
    pub proof fn lemma_advance_cycles(b: Self)
        ensures
            b.next().next().next().next() == b,
            b.next() != b,
            b.next().next() != b,
            b.next().next().next() != b,
    {
    }
}

impl Default for SelectedBlockRegister {
    fn default() -> (r: Self)
        ensures
            r == SelectedBlockRegister::UserName,
    {
        SelectedBlockRegister::UserName
    }
}

/// The input field that has focus in the verification form.
#[derive(Debug, Clone, Copy, PartialEq, Eq, Structural)]
pub enum SelectedBlockVerify {
    UserName,
    Code,
}

impl SelectedBlockVerify {
    /// The field that follows `self` when moving forward (wrapping around).
    pub open spec fn next(self) -> Self {
        match self {
            SelectedBlockVerify::UserName => SelectedBlockVerify::Code,
            SelectedBlockVerify::Code => SelectedBlockVerify::UserName,
        }
    }

    /// The field that precedes `self` (wrapping around).
    pub open spec fn prev(self) -> Self {
        match self {
            SelectedBlockVerify::UserName => SelectedBlockVerify::Code,
            SelectedBlockVerify::Code => SelectedBlockVerify::UserName,
        }
    }

    /// Moves the focus to the next field.
    pub fn advance(&mut self)
        ensures
            *final(self) == old(self).next(),
    {
        *self = match self {
            SelectedBlockVerify::UserName => SelectedBlockVerify::Code,
            SelectedBlockVerify::Code => SelectedBlockVerify::UserName,
        };
    }

    /// Moves the focus to the previous field.
    pub fn previous(&mut self)
        ensures
            *final(self) == old(self).prev(),
    {
        *self = match self {
            SelectedBlockVerify::UserName => SelectedBlockVerify::Code,
            SelectedBlockVerify::Code => SelectedBlockVerify::UserName,
        };
    }

    /// Moving back after moving forward returns to the same field, and the
    /// other way round.
    pub proof fn lemma_previous_undoes_advance(b: Self)
        ensures
            b.next().prev() == b,
            b.prev().next() == b,
    {
    }

    /// Moving forward twice visits every field once and comes back.
    pub proof fn lemma_advance_cycles(b: Self)
        ensures
            b.next().next() == b,
            b.next() != b,
    {
    }
}

impl Default for SelectedBlockVerify {
    fn default() -> (r: Self)
        ensures
            r == SelectedBlockVerify::UserName,
    {
        SelectedBlockVerify::UserName
    }
}

/// The input field that has focus in the resend-verification form.
#[derive(Debug, Clone, Copy, PartialEq, Eq, Structural)]
pub enum SelectedBlockResend {
    UserName,
}

impl SelectedBlockResend {
    /// The field that follows `self` when moving forward (wrapping around).
    pub open spec fn next(self) -> Self {
        match self {
            SelectedBlockResend::UserName => SelectedBlockResend::UserName,
        }
    }

    /// The field that precedes `self` (wrapping around).
    pub open spec fn prev(self) -> Self {
        match self {
            SelectedBlockResend::UserName => SelectedBlockResend::UserName,
        }
    }

    /// Moves the focus to the next field.
    pub fn advance(&mut self)
        ensures
            *final(self) == old(self).next(),
    {
        *self = match self {
            SelectedBlockResend::UserName => SelectedBlockResend::UserName,
        };
    }

    /// Moves the focus to the previous field.
    pub fn previous(&mut self)
        ensures
            *final(self) == old(self).prev(),
    {
        *self = match self {
            SelectedBlockResend::UserName => SelectedBlockResend::UserName,
        };
    }

    /// Moving back after moving forward returns to the same field, and the
    /// other way round.
    pub proof fn lemma_previous_undoes_advance(b: Self)
        ensures
            b.next().prev() == b,
            b.prev().next() == b,
    {
    }

    /// With a single field, moving forward stays on it.
    pub proof fn lemma_advance_cycles(b: Self)
        ensures
            b.next() == b,
    {
    }
}

impl Default for SelectedBlockResend {
    fn default() -> (r: Self)
        ensures
            r == SelectedBlockResend::UserName,
    {
        SelectedBlockResend::UserName
    }
}

/// The input field that has focus in the login form.
#[derive(Debug, Clone, Copy, PartialEq, Eq, Structural)]
pub enum SelectedBlockLogin {
    UserName,
    UserPassword,
}

impl SelectedBlockLogin {
    /// The field that follows `self` when moving forward (wrapping around).
    pub open spec fn next(self) -> Self {
        match self {
            SelectedBlockLogin::UserName => SelectedBlockLogin::UserPassword,
            SelectedBlockLogin::UserPassword => SelectedBlockLogin::UserName,
        }
    }

    /// The field that precedes `self` (wrapping around).
    pub open spec fn prev(self) -> Self {
        match self {
            SelectedBlockLogin::UserName => SelectedBlockLogin::UserPassword,
            SelectedBlockLogin::UserPassword => SelectedBlockLogin::UserName,
        }
    }

    /// Moves the focus to the next field.
    pub fn advance(&mut self)
        ensures
            *final(self) == old(self).next(),
    {
        *self = match self {
            SelectedBlockLogin::UserName => SelectedBlockLogin::UserPassword,
            SelectedBlockLogin::UserPassword => SelectedBlockLogin::UserName,
        };
    }

    /// Moves the focus to the previous field.
    pub fn previous(&mut self)
        ensures
            *final(self) == old(self).prev(),
    {
        *self = match self {
            SelectedBlockLogin::UserName => SelectedBlockLogin::UserPassword,
            SelectedBlockLogin::UserPassword => SelectedBlockLogin::UserName,
        };
    }

    /// Moving back after moving forward returns to the same field, and the
    /// other way round.
    pub proof fn lemma_previous_undoes_advance(b: Self)
        ensures
            b.next().prev() == b,
            b.prev().next() == b,
    {
    }

    /// Moving forward twice visits every field once and comes back.
    pub proof fn lemma_advance_cycles(b: Self)
        ensures
            b.next().next() == b,
            b.next() != b,
    {
    }
}

impl Default for SelectedBlockLogin {
    fn default() -> (r: Self)
        ensures
            r == SelectedBlockLogin::UserName,
    {
        SelectedBlockLogin::UserName
    }
}

} // verus!
