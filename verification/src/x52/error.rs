//! Errors of the display driver.

use vstd::prelude::*;
use vstd::string::*;

verus! {

/// The classes of driver errors that the manager tells apart.
#[derive(Clone, Copy, Debug, PartialEq, Eq, Structural)]
pub enum ErrorClass {
    /// The driver was handed an invalid parameter: the session handle is null.
    InvalidParam,
    /// The driver found no device behind the session handle.
    NoDevice,
    /// Any other error.
    Other,
}

/// An error reported by the display driver.
#[derive(Debug)]
pub struct X52Error {
    code: i32,
    class: ErrorClass,
    message: String,
}

impl Clone for X52Error {
    fn clone(&self) -> (copy: X52Error)
        ensures
            copy == *self,
    {
        X52Error { code: self.code, class: self.class, message: self.message.clone() }
    }
}

impl X52Error {
    /// The driver's error code.
    pub closed spec fn error_code(&self) -> i32 {
        self.code
    }

    /// The class of the error.
    pub closed spec fn error_class(&self) -> ErrorClass {
        self.class
    }

    /// The driver's description of the error.
    pub closed spec fn text(&self) -> Seq<char> {
        self.message@
    }

    /// Whether the error says that the session no longer leads to a device:
    /// the handle is invalid or the device is absent.
    pub open spec fn device_absent(&self) -> bool {
        self.error_class() != ErrorClass::Other
    }

    /// The error that stands for a driver's error code, with the class of
    /// the code and the driver's description of it.
    pub fn from_error_code(code: i32, class: ErrorClass, message: String) -> (error: X52Error)
        ensures
            error.error_code() == code,
            error.error_class() == class,
            error.text() == message@,
    {
        X52Error { code, class, message }
    }

    /// What a driver call's return code stands for: zero is success, and any
    /// other code is the error of [`X52Error::from_error_code`].
    pub fn check(code: i32, class: ErrorClass, message: String) -> (outcome: Result<(), X52Error>)
        ensures
            code == 0 ==> outcome is Ok,
            code != 0 ==> (outcome matches Err(error) && error.error_code() == code
                && error.error_class() == class && error.text() == message@),
    {
        if code == 0 {
            Ok(())
        } else {
            Err(X52Error::from_error_code(code, class, message))
        }
    }

    /// The driver's error code.
    pub fn code(&self) -> (code: i32)
        ensures
            code == self.error_code(),
    {
        self.code
    }

    /// The driver's description of the error.
    pub fn message(&self) -> (message: String)
        ensures
            message@ == self.text(),
    {
        self.message.clone()
    }

    /// Whether the session no longer leads to a device, which a fresh
    /// session may mend.
    pub fn is_device_absent(&self) -> (absent: bool)
        ensures
            absent == self.device_absent(),
    {
        match self.class {
            ErrorClass::InvalidParam => true,
            ErrorClass::NoDevice => true,
            ErrorClass::Other => false,
        }
    }
}

} // verus!
