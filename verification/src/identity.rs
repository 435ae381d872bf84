//! Describing the identity of the device that the software runs on.
//!
//! A board offers a unique identifier through an implementation of
//! [`DeviceId`]. Obtaining it fails rather than produce a dummy identifier.

use vstd::prelude::*;
use core::convert::Infallible;
use core::marker::PhantomData;

verus! {

/// Marks a trait as implemented only by the ports of this system, so that
/// items can be added to it later.
pub trait Sealed {

}

/// The reason why no identifier could be obtained.
pub trait Error: Sealed {

}

impl Sealed for Infallible {

}

impl Error for Infallible {

}

/// The unique identifier that a board offers.
pub trait DeviceId: Sized + Sealed {
    /// The reason that [`Self::get`] gives when it fails.
    type Error: Error;

    /// Obtains the identifier of the device.
    fn get() -> Result<Self, Self::Error>;

    /// The identifier in serialised form.
    fn bytes(&self) -> Vec<u8>;
}

/// A type without values that implements [`DeviceId`] and always fails.
pub struct NoDeviceId<E: Error + Default>(Infallible, PhantomData<E>);

impl<E: Error + Default> Sealed for NoDeviceId<E> {

}

impl<E: Error + Default> DeviceId for NoDeviceId<E> {
    type Error = E;

    fn get() -> (id: Result<Self, E>)
        ensures
            id matches Err(reason) && call_ensures(E::default, (), reason),
    {
        Err(E::default())
    }

    fn bytes(&self) -> (bytes: Vec<u8>)
        ensures
            bytes@.len() == 0,
    {
        Vec::new()
    }
}

/// A device identifier may exist on this platform, but reading it is not
/// implemented.
#[derive(Clone, Copy, PartialEq, Eq, Structural, Debug)]
pub struct NotImplemented;

impl NotImplemented {
    /// What this error says, in words.
    pub fn to_string(&self) -> (text: String)
        ensures
            text@ == "Device ID not implemented on this platform"@,
    {
        "Device ID not implemented on this platform".to_owned()
    }
}

impl Default for NotImplemented {
    fn default() -> (error: Self)
        ensures
            error == NotImplemented,
    {
        NotImplemented
    }
}

impl Sealed for NotImplemented {

}

impl Error for NotImplemented {

}

/// No device identifier is available on this platform.
#[derive(Clone, Copy, PartialEq, Eq, Structural, Debug)]
pub struct NotAvailable;

impl NotAvailable {
    /// What this error says, in words.
    pub fn to_string(&self) -> (text: String)
        ensures
            text@ == "Device ID not available on this platform"@,
    {
        "Device ID not available on this platform".to_owned()
    }
}

impl Default for NotAvailable {
    fn default() -> (error: Self)
        ensures
            error == NotAvailable,
    {
        NotAvailable
    }
}

impl Sealed for NotAvailable {

}

impl Error for NotAvailable {

}

/// What [`device_id_bytes`] makes of what [`DeviceId::get`] returned: the
/// serialised form of the identifier, or the reason why there is none.
pub fn bytes_of<I: DeviceId>(id: Result<I, I::Error>) -> (bytes: Result<Vec<u8>, I::Error>)
    ensures
        match id {
            Ok(device) => bytes matches Ok(serialised) && call_ensures(
                I::bytes,
                (&device,),
                serialised,
            ),
            Err(reason) => bytes == Err::<Vec<u8>, I::Error>(reason),
        },
{
    match id {
        Ok(device) => Ok(device.bytes()),
        Err(reason) => Err(reason),
    }
}

/// Obtains the unique identifier of the device in its serialised form, from
/// the board's implementation `I` of [`DeviceId`].
pub fn device_id_bytes<I: DeviceId>() -> (bytes: Result<Vec<u8>, I::Error>)
    ensures
        exists|id: Result<I, I::Error>|
            call_ensures(I::get, (), id) && match id {
                Ok(device) => bytes matches Ok(serialised) && call_ensures(
                    I::bytes,
                    (&device,),
                    serialised,
                ),
                Err(reason) => bytes == Err::<Vec<u8>, I::Error>(reason),
            },
{
    bytes_of(I::get())
}

} // verus!
