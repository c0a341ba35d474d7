//! Outside types that the library's signatures and fields carry.
use vstd::prelude::*;

verus! {

/// Declares embassy-usb-driver's `EndpointType`, with its four variants,
/// which the endpoint allocator reads and stores.
#[verifier::external_type_specification]
pub struct ExEndpointType(embassy_usb_driver::EndpointType);

/// Declares embassy-usb-driver's `Direction` (`Out`, `In`).
#[verifier::external_type_specification]
pub struct ExDirection(embassy_usb_driver::Direction);

/// Declares embassy-usb-driver's `Event`, the bus events that a poll
/// reports.
#[verifier::external_type_specification]
pub struct ExEvent(embassy_usb_driver::Event);

/// Declares embassy-usb-driver's `EndpointError` (`BufferOverflow`,
/// `Disabled`).
#[verifier::external_type_specification]
pub struct ExEndpointError(embassy_usb_driver::EndpointError);

/// Declares embassy-usb-driver's unit struct `EndpointAllocError`.
#[verifier::external_type_specification]
pub struct ExEndpointAllocError(embassy_usb_driver::EndpointAllocError);

/// Declares embedded-storage's `NorFlashErrorKind` (`NotAligned`,
/// `OutOfBounds`, `Other`).
#[verifier::external_type_specification]
pub struct ExNorFlashErrorKind(embedded_storage::nor_flash::NorFlashErrorKind);

/// Declares embassy-time-queue-utils' `Queue` of waiting tasks, carried
/// through opaque.
#[verifier::external_type_specification]
#[verifier::external_body]
pub struct ExQueue(embassy_time_queue_utils::Queue);

} // verus!
