//! The gateway itself: one uniform call surface over the two enclave
//! backends.
//!
//! A lifecycle call flows through the gateway in a fixed order: the router
//! resolves the target backend, the doorbell grants exclusive access, the
//! marshaller has already copied the buffers in, one boundary call crosses
//! into the enclave, and the response is settled into a result and a billed
//! gas figure while the access token is surrendered — exactly once, on
//! every exit path.
//!
//! The boundary crossing itself is the host's: it performs the raw call
//! with the enclave identifier and buffers a [`CallTicket`] carries, and
//! hands the observed [`BoundaryResponse`] back to [`Gateway::finish_call`].
//! Everything the gateway decides — routing, arbitration, buffer
//! discipline, gas billing — is stated and checked here, whatever the
//! enclave answers.

use vstd::prelude::*;

use crate::doorbell::{AccessDoorbell, AccessResponse, AccessToken, EnclaveHandle};
use crate::marshal::{EnclaveBuffer, EnclaveMemory};
use crate::protocol::{
    billed_gas, settle_result, spec_billed_gas, spec_settle_result, BoundaryResponse, CallResult,
    GasBudget, StatusCode,
};
use crate::router::{
    route_allocate, route_operation, spec_route_allocate, spec_route_operation, Configuration,
    Operation, Variant,
};

verus! {

/// Opaque caller-supplied context threaded through the mutating lifecycle
/// calls so that the enclave can reach back into the host for side effects
/// such as storage access. The gateway never inspects it; the cookie
/// identifies the host-side context object.
#[derive(Clone, Copy, PartialEq, Eq, Structural, Debug)]
pub struct ExecutionContext {
    /// Host-side identifier of the context object.
    pub cookie: u64,
}

/// One enclave backend: the doorbell that serializes entry and the
/// enclave-side memory that holds marshalled buffers.
pub struct EnclaveUnit {
    doorbell: AccessDoorbell,
    memory: EnclaveMemory,
}

impl EnclaveUnit {
    /// The backend's doorbell.
    pub closed spec fn spec_doorbell(&self) -> AccessDoorbell {
        self.doorbell
    }

    /// The backend's enclave-side memory.
    pub closed spec fn spec_memory(&self) -> EnclaveMemory {
        self.memory
    }

    /// The enclave variant this backend is.
    pub open spec fn spec_variant(&self) -> Variant {
        self.spec_doorbell().spec_variant()
    }

    /// The doorbell guards a loaded enclave, and doorbell and memory belong
    /// to the same enclave variant.
    pub open spec fn wf(&self) -> bool {
        &&& self.spec_doorbell().wf()
        &&& self.spec_memory().spec_variant() == self.spec_variant()
    }

    /// Same variant and same enclave handle.
    pub open spec fn same_backend(&self, other: &EnclaveUnit) -> bool {
        &&& self.spec_variant() == other.spec_variant()
        &&& self.spec_doorbell().spec_handle() == other.spec_doorbell().spec_handle()
    }

    /// Same backend in the same observable state: doorbell position and
    /// marshalled contents included.
    pub open spec fn state_eq(&self, other: &EnclaveUnit) -> bool {
        &&& self.same_backend(other)
        &&& self.spec_doorbell().is_held() == other.spec_doorbell().is_held()
        &&& self.spec_memory().contents() == other.spec_memory().contents()
    }

    fn new(variant: Variant, handle: EnclaveHandle) -> (u: EnclaveUnit)
        requires
            handle.loaded,
        ensures
            u.wf(),
            u.spec_variant() == variant,
            u.spec_doorbell().spec_handle() == handle,
            !u.spec_doorbell().is_held(),
            u.spec_memory().contents() == Seq::<Seq<u8>>::empty(),
    {
        EnclaveUnit {
            doorbell: AccessDoorbell::new(variant, handle),
            memory: EnclaveMemory::new(variant),
        }
    }

    /// Marshal a buffer into this backend. The doorbell is taken internally
    /// and without blocking — allocation is invoked from within an already
    /// serialized call context — and surrendered before returning.
    fn allocate(&mut self, buffer: &[u8]) -> (r: Result<EnclaveBuffer, StatusCode>)
        requires
            old(self).wf(),
        ensures
            final(self).wf(),
            final(self).same_backend(&old(self)),
            final(self).spec_doorbell().is_held() == old(self).spec_doorbell().is_held(),
            old(self).spec_doorbell().is_held() ==> {
                &&& r matches Err(e) && e is Busy
                &&& final(self).state_eq(&old(self))
            },
            !old(self).spec_doorbell().is_held() ==> (r matches Ok(b) && {
                &&& b.variant == old(self).spec_variant()
                &&& b.pointer == old(self).spec_memory().contents().len()
                &&& b.length == buffer@.len()
                &&& final(self).spec_memory().contents() == old(
                    self,
                ).spec_memory().contents().push(buffer@)
                &&& final(self).spec_memory().valid_buffer(b)
            }),
    {
        let access = self.doorbell.get_access(false);
        match access {
            AccessResponse::Granted(token) => {
                let b = self.memory.allocate(buffer);
                self.doorbell.release_access(token);
                Ok(b)
            },
            AccessResponse::Busy => Err(StatusCode::Busy),
            AccessResponse::Wait => Err(StatusCode::Busy),
        }
    }
}

/// Exclusive right to issue one boundary call: the access token for the
/// routed backend together with everything the host must pass into the raw
/// call. Produced by [`Gateway::begin_call`], consumed by
/// [`Gateway::finish_call`].
pub struct CallTicket {
    token: AccessToken,
    variant: Variant,
    op: Operation,
    context: ExecutionContext,
    gas_limit: u64,
}

impl CallTicket {
    /// The backend the call was routed to.
    pub closed spec fn spec_variant(&self) -> Variant {
        self.variant
    }

    /// The lifecycle operation being issued.
    pub closed spec fn spec_op(&self) -> Operation {
        self.op
    }

    /// The caller's context, passed through uninspected.
    pub closed spec fn spec_context(&self) -> ExecutionContext {
        self.context
    }

    /// The gas limit fixed for this call.
    pub closed spec fn spec_gas_limit(&self) -> u64 {
        self.gas_limit
    }

    /// The enclave instance the held token grants access to.
    pub closed spec fn spec_enclave_id(&self) -> u64 {
        self.token.spec_enclave_id()
    }

    /// The held token belongs to the routed backend.
    pub closed spec fn wf(&self) -> bool {
        self.token.spec_variant() == self.variant
    }

    /// Enclave identifier for the raw boundary call.
    pub fn enclave_id(&self) -> (id: u64)
        ensures
            id == self.spec_enclave_id(),
    {
        self.token.enclave_id()
    }

    /// The backend the call was routed to.
    pub fn variant(&self) -> (v: Variant)
        ensures
            v == self.spec_variant(),
    {
        self.variant
    }

    /// The lifecycle operation being issued.
    pub fn operation(&self) -> (op: Operation)
        ensures
            op == self.spec_op(),
    {
        self.op
    }

    /// The caller's context for the raw boundary call.
    pub fn context(&self) -> (c: ExecutionContext)
        ensures
            c == self.spec_context(),
    {
        self.context
    }

    /// The gas limit fixed for this call.
    pub fn gas_limit(&self) -> (limit: u64)
        ensures
            limit == self.spec_gas_limit(),
    {
        self.gas_limit
    }
}

/// Answer to a request to start a lifecycle call.
pub enum BeginResponse {
    /// Exclusive access was granted; the host may cross the boundary.
    Started(CallTicket),
    /// The routed doorbell was held and the caller declined to wait.
    Busy,
    /// The routed doorbell was held; the host loop suspends and asks again
    /// once the holder releases.
    Wait,
}

/// The gateway: configuration plus the two enclave backends, of which the
/// configuration addresses one per operation. Exactly one instance of each
/// backend exists; both are created here, on enclave load, and access to
/// them goes through their doorbells alone.
pub struct Gateway {
    config: Configuration,
    secure: EnclaveUnit,
    query: EnclaveUnit,
}

impl Gateway {
    /// The configuration the gateway was created with.
    pub closed spec fn spec_config(&self) -> Configuration {
        self.config
    }

    /// The backend of the given variant.
    pub closed spec fn unit(&self, v: Variant) -> EnclaveUnit {
        match v {
            Variant::Secure => self.secure,
            Variant::Query => self.query,
        }
    }

    /// Both backends are well formed and stand under their own variant.
    pub open spec fn wf(&self) -> bool {
        &&& self.unit(Variant::Secure).wf()
        &&& self.unit(Variant::Secure).spec_variant() == Variant::Secure
        &&& self.unit(Variant::Query).wf()
        &&& self.unit(Variant::Query).spec_variant() == Variant::Query
    }

    /// Assemble the gateway over two freshly loaded enclave instances, one
    /// per variant, with both doorbells free and both memories empty. The
    /// configuration is fixed here for the gateway's lifetime.
    pub fn new(
        config: Configuration,
        secure_handle: EnclaveHandle,
        query_handle: EnclaveHandle,
    ) -> (g: Gateway)
        requires
            secure_handle.loaded,
            query_handle.loaded,
        ensures
            g.wf(),
            g.spec_config() == config,
            g.unit(Variant::Secure).spec_doorbell().spec_handle() == secure_handle,
            g.unit(Variant::Query).spec_doorbell().spec_handle() == query_handle,
            !g.unit(Variant::Secure).spec_doorbell().is_held(),
            !g.unit(Variant::Query).spec_doorbell().is_held(),
            g.unit(Variant::Secure).spec_memory().contents() == Seq::<Seq<u8>>::empty(),
            g.unit(Variant::Query).spec_memory().contents() == Seq::<Seq<u8>>::empty(),
    {
        Gateway {
            config,
            secure: EnclaveUnit::new(Variant::Secure, secure_handle),
            query: EnclaveUnit::new(Variant::Query, query_handle),
        }
    }

    /// The configuration the gateway was created with.
    pub fn configuration(&self) -> (c: Configuration)
        ensures
            c == self.spec_config(),
    {
        self.config
    }

    /// Identifier of the enclave instance behind the named backend; the
    /// host passes it into the raw allocation call that mirrors
    /// [`Gateway::allocate_on`].
    pub fn enclave_id_of(&self, variant: Variant) -> (id: u64)
        ensures
            id == self.unit(variant).spec_doorbell().spec_handle().id,
    {
        match variant {
            Variant::Secure => self.secure.doorbell.handle_id(),
            Variant::Query => self.query.doorbell.handle_id(),
        }
    }

    /// Whether a buffer reference points at a live allocation of the
    /// backend it claims to come from. Callers test dispatch arguments with
    /// this before starting a call.
    pub fn buffer_is_current(&self, b: &EnclaveBuffer) -> (ok: bool)
        ensures
            ok == self.unit(b.variant).spec_memory().valid_buffer(*b),
    {
        match b.variant {
            Variant::Secure => self.secure.memory.contains(b),
            Variant::Query => self.query.memory.contains(b),
        }
    }

    /// The enclave-side read of a marshalled buffer on the backend it
    /// belongs to: the bytes the enclave sees when a boundary call consumes
    /// the reference.
    pub fn read_marshalled(&self, b: &EnclaveBuffer) -> (bytes: Vec<u8>)
        requires
            self.unit(b.variant).spec_memory().valid_buffer(*b),
        ensures
            bytes@ == self.unit(b.variant).spec_memory().contents()[b.pointer as int],
    {
        match b.variant {
            Variant::Secure => self.secure.memory.read(b),
            Variant::Query => self.query.memory.read(b),
        }
    }

    /// What [`Gateway::allocate_enclave_buffer`] and its query-enclave
    /// counterpart guarantee: the backend of the given variant answered a
    /// non-blocking internal access request, and on a grant the buffer was
    /// appended to that backend's memory while every other backend stands
    /// untouched.
    pub open spec fn allocate_post(
        pre: Gateway,
        post: Gateway,
        variant: Variant,
        bytes: Seq<u8>,
        r: Result<EnclaveBuffer, StatusCode>,
    ) -> bool {
        &&& post.wf()
        &&& post.spec_config() == pre.spec_config()
        &&& post.unit(variant).same_backend(&pre.unit(variant))
        &&& post.unit(variant).spec_doorbell().is_held() == pre.unit(
            variant,
        ).spec_doorbell().is_held()
        &&& (variant == Variant::Secure ==> post.unit(Variant::Query).state_eq(
            &pre.unit(Variant::Query),
        ))
        &&& (variant == Variant::Query ==> post.unit(Variant::Secure).state_eq(
            &pre.unit(Variant::Secure),
        ))
        &&& (pre.unit(variant).spec_doorbell().is_held() ==> {
            &&& r matches Err(e) && e is Busy
            &&& post.unit(variant).state_eq(&pre.unit(variant))
        })
        &&& (!pre.unit(variant).spec_doorbell().is_held() ==> (r matches Ok(b) && {
            &&& b.variant == variant
            &&& b.pointer == pre.unit(variant).spec_memory().contents().len()
            &&& b.length == bytes.len()
            &&& post.unit(variant).spec_memory().contents() == pre.unit(
                variant,
            ).spec_memory().contents().push(bytes)
            &&& post.unit(variant).spec_memory().valid_buffer(b)
        }))
    }

    /// Marshal a host buffer into the named backend. The uniform surface
    /// [`Gateway::allocate_enclave_buffer`] resolves the backend through
    /// the configuration; callers marshalling arguments for the mutating
    /// lifecycle calls name the secure backend, which serves them under
    /// every configuration.
    pub fn allocate_on(&mut self, variant: Variant, buffer: &[u8]) -> (r: Result<
        EnclaveBuffer,
        StatusCode,
    >)
        requires
            old(self).wf(),
        ensures
            Gateway::allocate_post(*old(self), *final(self), variant, buffer@, r),
    {
        match variant {
            Variant::Secure => self.secure.allocate(buffer),
            Variant::Query => self.query.allocate(buffer),
        }
    }

    /// Marshal a host buffer into the enclave the configuration selects for
    /// allocation, and hand back the opaque in-enclave reference.
    ///
    /// The doorbell of that backend is acquired internally, without
    /// blocking, and released before returning; `Busy` is surfaced exactly
    /// when the doorbell was held at that moment. Any other failure of the
    /// underlying allocation would be surfaced verbatim; in this model the
    /// copy itself cannot fail.
    pub fn allocate_enclave_buffer(&mut self, buffer: &[u8]) -> (r: Result<
        EnclaveBuffer,
        StatusCode,
    >)
        requires
            old(self).wf(),
        ensures
            Gateway::allocate_post(
                *old(self),
                *final(self),
                spec_route_allocate(old(self).spec_config()),
                buffer@,
                r,
            ),
    {
        let variant = route_allocate(self.config);
        self.allocate_on(variant, buffer)
    }

    /// Marshal a host buffer into the query enclave explicitly, whatever
    /// the configuration; the query-enclave counterpart of
    /// [`Gateway::allocate_enclave_buffer`].
    pub fn allocate_enclave_buffer_qe(&mut self, buffer: &[u8]) -> (r: Result<
        EnclaveBuffer,
        StatusCode,
    >)
        requires
            old(self).wf(),
        ensures
            Gateway::allocate_post(*old(self), *final(self), Variant::Query, buffer@, r),
    {
        self.allocate_on(Variant::Query, buffer)
    }

    /// Start a lifecycle call: route it, demand buffers marshalled by the
    /// routed backend, and request that backend's access token.
    ///
    /// `Busy` comes back exactly when the routed doorbell was held at the
    /// moment of a non-blocking request; a blocking caller receives `Wait`
    /// instead and asks again after the holder releases. On a grant the
    /// ticket carries everything the raw boundary call needs, and the
    /// mutating operations are routed to the secure backend under every
    /// configuration.
    pub fn begin_call(
        &mut self,
        op: Operation,
        blocking: bool,
        context: ExecutionContext,
        gas: &GasBudget,
        contract: &EnclaveBuffer,
        env: &EnclaveBuffer,
        msg: &EnclaveBuffer,
        sig_info: Option<&EnclaveBuffer>,
    ) -> (r: BeginResponse)
        requires
            old(self).wf(),
            (op is Query) <==> (sig_info is None),
            old(self).unit(spec_route_operation(old(self).spec_config(), op)).spec_memory()
                .valid_buffer(*contract),
            old(self).unit(spec_route_operation(old(self).spec_config(), op)).spec_memory()
                .valid_buffer(*env),
            old(self).unit(spec_route_operation(old(self).spec_config(), op)).spec_memory()
                .valid_buffer(*msg),
            sig_info matches Some(s) ==> old(self).unit(
                spec_route_operation(old(self).spec_config(), op),
            ).spec_memory().valid_buffer(*s),
        ensures
            final(self).wf(),
            final(self).spec_config() == old(self).spec_config(),
            ({
                let v = spec_route_operation(old(self).spec_config(), op);
                &&& ((r is Busy) <==> (old(self).unit(v).spec_doorbell().is_held() && !blocking))
                &&& ((r is Wait) <==> (old(self).unit(v).spec_doorbell().is_held() && blocking))
                &&& ((r is Started) <==> !old(self).unit(v).spec_doorbell().is_held())
                &&& (!(r is Started) ==> *final(self) == *old(self))
                &&& (r matches BeginResponse::Started(t) ==> {
                    &&& t.wf()
                    &&& t.spec_variant() == v
                    &&& t.spec_op() == op
                    &&& t.spec_context() == context
                    &&& t.spec_gas_limit() == gas.limit
                    &&& t.spec_enclave_id() == old(self).unit(v).spec_doorbell().spec_handle().id
                    &&& final(self).unit(v).spec_doorbell().is_held()
                    &&& final(self).unit(v).same_backend(&old(self).unit(v))
                    &&& final(self).unit(v).spec_memory().contents() == old(self).unit(
                        v,
                    ).spec_memory().contents()
                    &&& (v == Variant::Secure ==> final(self).unit(Variant::Query).state_eq(
                        &old(self).unit(Variant::Query),
                    ))
                    &&& (v == Variant::Query ==> final(self).unit(Variant::Secure).state_eq(
                        &old(self).unit(Variant::Secure),
                    ))
                })
            }),
            (op is Init || op is Handle) ==> (r matches BeginResponse::Started(t)
                ==> t.spec_variant() == Variant::Secure),
    {
        let variant = route_operation(self.config, op);
        let access = match variant {
            Variant::Secure => self.secure.doorbell.get_access(blocking),
            Variant::Query => self.query.doorbell.get_access(blocking),
        };
        match access {
            AccessResponse::Granted(token) => BeginResponse::Started(
                CallTicket { token, variant, op, context, gas_limit: gas.limit },
            ),
            AccessResponse::Busy => BeginResponse::Busy,
            AccessResponse::Wait => BeginResponse::Wait,
        }
    }

    /// Settle a started call from the observed boundary response: bill the
    /// gas, surface the result, and surrender the access token.
    ///
    /// The token is released exactly once, whatever the response was, so
    /// the backend is free for the next caller on success and on every
    /// failure alike. The billed gas stays within the caller's limit unless
    /// the call settled as out-of-gas.
    pub fn finish_call(
        &mut self,
        ticket: CallTicket,
        response: BoundaryResponse,
        gas: &mut GasBudget,
    ) -> (r: CallResult)
        requires
            old(self).wf(),
            ticket.wf(),
            old(self).unit(ticket.spec_variant()).spec_doorbell().is_held(),
            ticket.spec_enclave_id() == old(self).unit(
                ticket.spec_variant(),
            ).spec_doorbell().spec_handle().id,
            old(gas).limit == ticket.spec_gas_limit(),
        ensures
            final(self).wf(),
            final(self).spec_config() == old(self).spec_config(),
            !final(self).unit(ticket.spec_variant()).spec_doorbell().is_held(),
            final(self).unit(ticket.spec_variant()).same_backend(
                &old(self).unit(ticket.spec_variant()),
            ),
            final(self).unit(ticket.spec_variant()).spec_memory().contents() == old(self).unit(
                ticket.spec_variant(),
            ).spec_memory().contents(),
            (ticket.spec_variant() == Variant::Secure ==> final(self).unit(
                Variant::Query,
            ).state_eq(&old(self).unit(Variant::Query))),
            (ticket.spec_variant() == Variant::Query ==> final(self).unit(
                Variant::Secure,
            ).state_eq(&old(self).unit(Variant::Secure))),
            r == spec_settle_result(old(gas).limit, response),
            final(gas).limit == old(gas).limit,
            final(gas).used == spec_billed_gas(old(gas).limit, response),
            !(r is OutOfGas) ==> final(gas).used <= final(gas).limit,
    {
        let CallTicket { token, variant, .. } = ticket;
        match variant {
            Variant::Secure => self.secure.doorbell.release_access(token),
            Variant::Query => self.query.doorbell.release_access(token),
        };
        gas.used = billed_gas(gas.limit, &response);
        settle_result(gas.limit, response)
    }
}

} // verus!
