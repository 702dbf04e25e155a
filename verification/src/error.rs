//! Errors reported by the driver.
use vstd::prelude::*;

verus! {

/// Error type for AS5048A operations
#[derive(Debug, PartialEq, Eq)]
pub enum Error<E> {
    /// Communication error with the sensor
    Communication(E),
    /// Parity error in received data
    ParityError,
    /// Error flag set by the sensor (invalid command or parity error)
    SensorError,
}

impl<E: Clone> Clone for Error<E> {
    fn clone(&self) -> (copy: Self)
        ensures
            match *self {
                Error::Communication(inner) => copy matches Error::Communication(other)
                    && cloned::<E>(inner, other),
                Error::ParityError => copy == Error::<E>::ParityError,
                Error::SensorError => copy == Error::<E>::SensorError,
            },
    {
        match self {
            Error::Communication(e) => Error::Communication(e.clone()),
            Error::ParityError => Error::ParityError,
            Error::SensorError => Error::SensorError,
        }
    }
}

} // verus!
