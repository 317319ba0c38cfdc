//! Enclave access gateway: serializes and marshals calls from an untrusted
//! host into a hardware-isolated enclave running a contract virtual machine.
//!
//! The gateway arbitrates exclusive access to the enclave handle (doorbell),
//! copies byte buffers across the trust boundary (marshaller), invokes the
//! contract lifecycle calls with gas accounting (dispatcher), and selects
//! which enclave backend serves allocation and query calls (router).

pub mod doorbell;
pub mod gateway;
pub mod marshal;
pub mod protocol;
pub mod router;
