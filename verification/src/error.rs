//! The error taxonomy shared by every operation of the controller.

use vstd::prelude::*;

verus! {

/// Why an operation on a channel did not complete.
#[derive(Clone, Copy, Debug, PartialEq, Eq, Structural)]
pub enum Error {
    /// No amplifier module is installed in the addressed slot.
    NotPresent,
    /// A value lies outside the range that a converter can represent.
    Bounds,
    /// A transaction with a device on the bus failed.
    Interface,
    /// A request or a stored configuration payload is malformed.
    Invalid,
    /// The requested path is intentionally unfinished.
    NotImplemented,
}

/// How a peripheral driver reports a failed transaction.
#[derive(Clone, Copy, Debug, PartialEq, Eq, Structural)]
pub enum DeviceFault {
    /// The device refused the value as unrepresentable.
    Range,
    /// The bus transaction itself failed.
    Bus,
}

impl Error {
    /// The variant's name, as it appears in a response message.
    pub open spec fn spec_name(self) -> Seq<char> {
        match self {
            Error::NotPresent => "NotPresent"@,
            Error::Bounds => "Bounds"@,
            Error::Interface => "Interface"@,
            Error::Invalid => "Invalid"@,
            Error::NotImplemented => "NotImplemented"@,
        }
    }

    /// The variant's name, as it appears in a response message.
    pub fn name(&self) -> (text: &'static str)
        ensures
            text@ == self.spec_name(),
            text@.len() <= 14,
    {
        proof {
            reveal_strlit("NotPresent");
            reveal_strlit("Bounds");
            reveal_strlit("Interface");
            reveal_strlit("Invalid");
            reveal_strlit("NotImplemented");
        }
        match self {
            Error::NotPresent => "NotPresent",
            Error::Bounds => "Bounds",
            Error::Interface => "Interface",
            Error::Invalid => "Invalid",
            Error::NotImplemented => "NotImplemented",
        }
    }

    /// The error that a device fault surfaces as.
    pub open spec fn spec_from_fault(fault: DeviceFault) -> Error {
        match fault {
            DeviceFault::Range => Error::Bounds,
            DeviceFault::Bus => Error::Interface,
        }
    }

    /// Maps a device fault to the error reported to the caller: a refused
    /// value is a bounds error, a failed transaction an interface error.
    pub fn from_fault(fault: DeviceFault) -> (error: Error)
        ensures
            error == Error::spec_from_fault(fault),
    {
        match fault {
            DeviceFault::Range => Error::Bounds,
            DeviceFault::Bus => Error::Interface,
        }
    }

    /// What the answer of a device surfaces as: its value, or the error
    /// that its fault maps to.
    pub open spec fn spec_surface<T>(answer: Result<T, DeviceFault>) -> Result<T, Error> {
        match answer {
            Ok(value) => Ok(value),
            Err(fault) => Err(Error::spec_from_fault(fault)),
        }
    }

    /// Surfaces the answer of a device to the caller: its value, or the
    /// error that its fault maps to.
    pub fn surface<T>(answer: Result<T, DeviceFault>) -> (result: Result<T, Error>)
        ensures
            result == Error::spec_surface(answer),
    {
        match answer {
            Ok(value) => Ok(value),
            Err(fault) => Err(Error::from_fault(fault)),
        }
    }
}

} // verus!
