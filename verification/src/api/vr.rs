//! Values of the host's virtual reality interface.

use vstd::prelude::*;
use vstd::string::*;
use crate::util::str_eq;

verus! {

/// One of the two eyes.
#[derive(Clone, Copy, Debug, PartialEq, Eq, Structural)]
pub enum Eye {
    Left,
    Right,
}

impl Eye {
    /// The number by which the host knows the eye.
    pub open spec fn code_of(self) -> i32 {
        match self {
            Eye::Left => 0,
            Eye::Right => 1,
        }
    }

    /// The number by which the host knows the eye.
    pub fn code(&self) -> (code: i32)
        ensures
            code == self.code_of(),
    {
        match self {
            Eye::Left => 0,
            Eye::Right => 1,
        }
    }
}

/// What aiming or movement follows.
#[derive(Clone, Copy, Debug, PartialEq, Eq, Structural)]
pub enum AimMethod {
    Game,
    Head,
    RightController,
    LeftController,
    TwoHandedRight,
    TwoHandedLeft,
}

impl AimMethod {
    /// The number by which the host knows the method.
    pub open spec fn code_of(self) -> u32 {
        match self {
            AimMethod::Game => 0,
            AimMethod::Head => 1,
            AimMethod::RightController => 2,
            AimMethod::LeftController => 3,
            AimMethod::TwoHandedRight => 4,
            AimMethod::TwoHandedLeft => 5,
        }
    }

    /// The method that the host knows by the number `code`, if there is one.
    pub open spec fn of_code(code: u32) -> Option<AimMethod> {
        if code == 0 {
            Some(AimMethod::Game)
        } else if code == 1 {
            Some(AimMethod::Head)
        } else if code == 2 {
            Some(AimMethod::RightController)
        } else if code == 3 {
            Some(AimMethod::LeftController)
        } else if code == 4 {
            Some(AimMethod::TwoHandedRight)
        } else if code == 5 {
            Some(AimMethod::TwoHandedLeft)
        } else {
            None
        }
    }

    /// The number by which the host knows the method.
    pub fn code(&self) -> (code: u32)
        ensures
            code == self.code_of(),
    {
        match self {
            AimMethod::Game => 0,
            AimMethod::Head => 1,
            AimMethod::RightController => 2,
            AimMethod::LeftController => 3,
            AimMethod::TwoHandedRight => 4,
            AimMethod::TwoHandedLeft => 5,
        }
    }

    /// The method that the host reported by its number, or nothing for a
    /// number that stands for no method.
    pub fn from_code(code: u32) -> (method: Option<AimMethod>)
        ensures
            method == Self::of_code(code),
    {
        if code == 0 {
            Some(AimMethod::Game)
        } else if code == 1 {
            Some(AimMethod::Head)
        } else if code == 2 {
            Some(AimMethod::RightController)
        } else if code == 3 {
            Some(AimMethod::LeftController)
        } else if code == 4 {
            Some(AimMethod::TwoHandedRight)
        } else if code == 5 {
            Some(AimMethod::TwoHandedLeft)
        } else {
            None
        }
    }
}

/// A value that is kept in the host's configuration as a text.
pub trait ModValue: Sized {
    /// The text that stands for the value.
    spec fn text(&self) -> Seq<char>;

    /// True when `value` is what the text `text` is read as.
    spec fn reads(text: Seq<char>, value: Self) -> bool;

    /// The text that stands for the value.
    fn serialize(self) -> (text: String)
        ensures
            text@ == self.text(),
    ;

    /// Reads a text from the configuration.
    fn deserialize(value: &str) -> (read: Self)
        ensures
            Self::reads(value@, read),
    ;
}

impl ModValue for String {
    open spec fn text(&self) -> Seq<char> {
        self@
    }

    open spec fn reads(text: Seq<char>, value: Self) -> bool {
        value@ == text
    }

    fn serialize(self) -> (text: String) {
        self
    }

    fn deserialize(value: &str) -> (read: Self) {
        String::from_str(value)
    }
}

impl ModValue for bool {
    open spec fn text(&self) -> Seq<char> {
        if *self {
            "true"@
        } else {
            "false"@
        }
    }

    open spec fn reads(text: Seq<char>, value: Self) -> bool {
        value == (text == "true"@)
    }

    fn serialize(self) -> (text: String) {
        if self {
            String::from_str("true")
        } else {
            String::from_str("false")
        }
    }

    fn deserialize(value: &str) -> (read: Self) {
        str_eq(value, "true")
    }
}

} // verus!
