use crate::text::{decimal_digits, push_decimal};
use vstd::prelude::*;

verus! {

/// A storage failure that fits no other error.
#[derive(Clone, Copy, Debug, PartialEq, Eq, Structural)]
pub struct SomethingWentWrongError;

/// The chat user has never been registered.
#[derive(Clone, Copy, Debug, PartialEq, Eq, Structural)]
pub struct UserNotFoundError;

/// No class with that identifier belongs to the user.
#[derive(Clone, Copy, Debug, PartialEq, Eq, Structural)]
pub struct ClassNotFoundError;

/// A deduction was asked of a class with nothing left; holds the quantity
/// that was found.
#[derive(Clone, Copy, Debug, PartialEq, Eq, Structural)]
pub struct NotEnoughClassQuantityToChargeError(pub u8);

/// The user already has a class of that name.
#[derive(Clone, Copy, Debug, PartialEq, Eq, Structural)]
pub struct DuplicateClassNameError;

/// Why a business operation failed.
#[derive(Clone, Copy, Debug, PartialEq, Eq, Structural)]
pub enum ServiceError {
    SomethingWentWrong(SomethingWentWrongError),
    UserNotFound(UserNotFoundError),
    ClassNotFound(ClassNotFoundError),
    NotEnoughClassQuantityToDeduct(NotEnoughClassQuantityToChargeError),
    DuplicateClassName(DuplicateClassNameError),
}

impl SomethingWentWrongError {
    /// What the user is told.
    pub open spec fn message(self) -> Seq<char> {
        "Произошла непредвиденная ошибка"@
    }

    /// What the user is told.
    pub fn to_string(&self) -> (text: String)
        ensures
            text@ == self.message(),
    {
        "Произошла непредвиденная ошибка".to_owned()
    }
}

impl UserNotFoundError {
    /// What the user is told.
    pub open spec fn message(self) -> Seq<char> {
        "Не удалось найти пользователя"@
    }

    /// What the user is told.
    pub fn to_string(&self) -> (text: String)
        ensures
            text@ == self.message(),
    {
        "Не удалось найти пользователя".to_owned()
    }
}

impl ClassNotFoundError {
    /// What the user is told.
    pub open spec fn message(self) -> Seq<char> {
        "Не удалось найти занятие"@
    }

    /// What the user is told.
    pub fn to_string(&self) -> (text: String)
        ensures
            text@ == self.message(),
    {
        "Не удалось найти занятие".to_owned()
    }
}

impl NotEnoughClassQuantityToChargeError {
    /// What the user is told: the refusal, then the quantity that was
    /// found.
    pub open spec fn message(self) -> Seq<char> {
        "Не удалось списать занятие. Количество доступных занятий "@ + decimal_digits(self.0 as nat)
    }

    /// What the user is told.
    pub fn to_string(&self) -> (text: String)
        ensures
            text@ == self.message(),
    {
        let mut text = "Не удалось списать занятие. Количество доступных занятий ".to_owned();
        push_decimal(&mut text, self.0 as u64);
        text
    }
}

impl DuplicateClassNameError {
    /// What the user is told.
    pub open spec fn message(self) -> Seq<char> {
        "Занятие с таким именем же существует. Пожалуйста, выберите другое имя."@
    }

    /// What the user is told.
    pub fn to_string(&self) -> (text: String)
        ensures
            text@ == self.message(),
    {
        "Занятие с таким именем же существует. Пожалуйста, выберите другое имя.".to_owned()
    }
}

impl ServiceError {
    /// What the user is told.
    pub open spec fn message(self) -> Seq<char> {
        match self {
            ServiceError::SomethingWentWrong(e) => e.message(),
            ServiceError::UserNotFound(e) => e.message(),
            ServiceError::ClassNotFound(e) => e.message(),
            ServiceError::NotEnoughClassQuantityToDeduct(e) => e.message(),
            ServiceError::DuplicateClassName(e) => e.message(),
        }
    }

    /// What the user is told.
    pub fn to_string(&self) -> (text: String)
        ensures
            text@ == self.message(),
    {
        match self {
            ServiceError::SomethingWentWrong(e) => e.to_string(),
            ServiceError::UserNotFound(e) => e.to_string(),
            ServiceError::ClassNotFound(e) => e.to_string(),
            ServiceError::NotEnoughClassQuantityToDeduct(e) => e.to_string(),
            ServiceError::DuplicateClassName(e) => e.to_string(),
        }
    }
}

} // verus!
