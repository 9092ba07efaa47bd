use vstd::prelude::*;
use crate::consts::FI_ETOOSMALL;
use crate::ep::{
    byte_len, Address, AsEndpointFid, ConnectedEndpoint, EndpointBase, UnconnectedEndpoint, UninitConnectionlessEndpoint,
    ConnectionlessEndpoint, UninitUnconnectedEndpoint,
};
use crate::error::{check_error, Error};

verus! {

/// The libfabric call a connection-management operation makes, with the arguments it passes.
/// The peer's address and the connection data stay with the caller: a call records the length
/// in bytes of the connection data that goes with it (`param_len`, zero for none).
#[derive(Clone, Copy, Debug, PartialEq, Eq, Structural)]
pub enum ConnCall {
    /// `fi_enable(ep)`, once the endpoint is bound to its event queue or address vector.
    Enable { ep: u64 },
    /// `fi_connect(ep, addr, param, paramlen)`.
    Connect { ep: u64, param_len: usize },
    /// `fi_accept(ep, param, paramlen)`.
    Accept { ep: u64, param_len: usize },
    /// `fi_shutdown(ep, flags)`.
    Shutdown { ep: u64, flags: u64 },
    /// `fi_getpeer(ep, addr, &addrlen)`, with no buffer (`buf_len` is `None`) or with a
    /// buffer of `buf_len` bytes.
    GetPeer { ep: u64, buf_len: Option<usize> },
}

/// What the provider answered when asked for the peer's address without a buffer.
#[derive(Clone, Copy, Debug, PartialEq, Eq, Structural)]
pub enum PeerProbe {
    /// The address has this many bytes: fetch it with a buffer of that size.
    Retry(usize),
    /// The call succeeded with no buffer: the address is empty, and [ConnectedEndpoint::peer]
    /// with status 0 and no bytes gives it.
    Done,
    /// The query ends with this error.
    Failed(Error),
}

/// The error that a failed binding or enabling reports: `Ok` when the endpoint may go on.
pub open spec fn enable_outcome(bind: Result<(), Error>, enable_err: i32) -> Result<(), Error> {
    match bind {
        Err(e) => Err(e),
        Ok(()) => if enable_err == 0 {
            Ok(())
        } else {
            Err(Error { c_err: (-enable_err) as u32 })
        },
    }
}

impl UninitUnconnectedEndpoint {
    /// The call that enables the endpoint once it is bound to its event queue.
    pub fn enable_call(&self) -> (r: ConnCall)
        ensures
            r == (ConnCall::Enable { ep: self.ep_fid() }),
    {
        ConnCall::Enable { ep: self.as_raw_typed_fid() }
    }

    /// Enables the endpoint: binding it to the event queue (`bind`, the outcome of that
    /// step) and then `fi_enable` (`enable_err`). The first failure is returned; on success
    /// the endpoint, with the same handle, may initiate or accept connections.
    pub fn enable(self, bind: Result<(), Error>, enable_err: i32) -> (r: Result<UnconnectedEndpoint, Error>)
        requires
            bind is Ok ==> enable_err <= 0 && enable_err > i32::MIN,
        ensures
            enable_outcome(bind, enable_err) matches Err(e) ==> r == Err::<UnconnectedEndpoint, Error>(e),
            enable_outcome(bind, enable_err) is Ok ==> (r matches Ok(ep) && ep.ep_fid() == self.ep_fid()),
    {
        match bind {
            Err(e) => Err(e),
            Ok(()) => {
                match check_error(enable_err as isize) {
                    Err(e) => Err(e),
                    Ok(()) => Ok(EndpointBase::from_raw_fid(self.as_raw_typed_fid())),
                }
            },
        }
    }
}

impl UninitConnectionlessEndpoint {
    /// The call that enables the endpoint once it is bound to its address vector.
    pub fn enable_call(&self) -> (r: ConnCall)
        ensures
            r == (ConnCall::Enable { ep: self.ep_fid() }),
    {
        ConnCall::Enable { ep: self.as_raw_typed_fid() }
    }

    /// Enables the endpoint: binding it to the address vector (`bind`, the outcome of that
    /// step) and then `fi_enable` (`enable_err`). The first failure is returned; on success
    /// the endpoint, with the same handle, may send and receive messages.
    pub fn enable(self, bind: Result<(), Error>, enable_err: i32) -> (r: Result<ConnectionlessEndpoint, Error>)
        requires
            bind is Ok ==> enable_err <= 0 && enable_err > i32::MIN,
        ensures
            enable_outcome(bind, enable_err) matches Err(e) ==> r == Err::<ConnectionlessEndpoint, Error>(e),
            enable_outcome(bind, enable_err) is Ok ==> (r matches Ok(ep) && ep.ep_fid() == self.ep_fid()),
    {
        match bind {
            Err(e) => Err(e),
            Ok(()) => {
                match check_error(enable_err as isize) {
                    Err(e) => Err(e),
                    Ok(()) => Ok(EndpointBase::from_raw_fid(self.as_raw_typed_fid())),
                }
            },
        }
    }
}

impl UnconnectedEndpoint {
    /// Initiates a connection to the endpoint at `addr`, with connection data `param`.
    pub fn connect_with<T>(&self, addr: &Address, param: &[T]) -> (r: ConnCall)
        ensures
            r == (ConnCall::Connect { ep: self.ep_fid(), param_len: byte_len(param) }),
    {
        ConnCall::Connect { ep: self.as_raw_typed_fid(), param_len: core::mem::size_of_val(param) }
    }

    /// Initiates a connection to the endpoint at `addr`, with no connection data.
    pub fn connect(&self, addr: &Address) -> (r: ConnCall)
        ensures
            r == (ConnCall::Connect { ep: self.ep_fid(), param_len: 0 }),
    {
        ConnCall::Connect { ep: self.as_raw_typed_fid(), param_len: 0 }
    }

    /// Accepts an incoming connection request, with connection data `param`.
    pub fn accept_with<T0>(&self, param: &[T0]) -> (r: ConnCall)
        ensures
            r == (ConnCall::Accept { ep: self.ep_fid(), param_len: byte_len(param) }),
    {
        ConnCall::Accept { ep: self.as_raw_typed_fid(), param_len: core::mem::size_of_val(param) }
    }

    /// Accepts an incoming connection request, with no connection data.
    pub fn accept(&self) -> (r: ConnCall)
        ensures
            r == (ConnCall::Accept { ep: self.ep_fid(), param_len: 0 }),
    {
        ConnCall::Accept { ep: self.as_raw_typed_fid(), param_len: 0 }
    }

    /// Completes the connection once the event queue reported it for the endpoint whose
    /// handle is `event_fid`, which must be this endpoint.
    pub fn connect_complete(self, event_fid: u64) -> (r: ConnectedEndpoint)
        requires
            event_fid == self.ep_fid(),
        ensures
            r.ep_fid() == self.ep_fid(),
    {
        EndpointBase::from_raw_fid(self.as_raw_typed_fid())
    }

    /// Completes the connection without checking that the reported event is for this
    /// endpoint.
    pub fn connect_complete_unchecked(self, event_fid: u64) -> (r: ConnectedEndpoint)
        ensures
            r.ep_fid() == self.ep_fid(),
    {
        EndpointBase::from_raw_fid(self.as_raw_typed_fid())
    }
}

/// The outcome of `fi_connect` or `fi_accept`: a non-zero `err` is the negated error number.
pub fn connection_result(err: i32) -> (r: Result<(), Error>)
    requires
        err <= 0,
        err > i32::MIN,
    ensures
        err == 0 ==> r == Ok::<(), Error>(()),
        err != 0 ==> r == Err::<(), Error>(Error { c_err: (-err) as u32 }),
{
    check_error(err as isize)
}

impl ConnectedEndpoint {
    /// The call that shuts the connection down (`flags` = 0).
    pub fn shutdown_call(&self) -> (r: ConnCall)
        ensures
            r == (ConnCall::Shutdown { ep: self.ep_fid(), flags: 0 }),
    {
        ConnCall::Shutdown { ep: self.as_raw_typed_fid(), flags: 0 }
    }

    /// Shuts down the connection, from what `fi_shutdown` returned: the endpoint, with the
    /// same handle, is then unconnected.
    pub fn shutdown(&self, err: i32) -> (r: Result<UnconnectedEndpoint, Error>)
        requires
            err <= 0,
            err > i32::MIN,
        ensures
            err != 0 ==> r == Err::<UnconnectedEndpoint, Error>(Error { c_err: (-err) as u32 }),
            err == 0 ==> (r matches Ok(ep) && ep.ep_fid() == self.ep_fid()),
    {
        match check_error(err as isize) {
            Err(e) => Err(e),
            Ok(()) => Ok(EndpointBase::from_raw_fid(self.as_raw_typed_fid())),
        }
    }

    /// The first call of a query for the peer's address: without a buffer, to learn its
    /// size.
    pub fn peer_probe_call(&self) -> (r: ConnCall)
        ensures
            r == (ConnCall::GetPeer { ep: self.ep_fid(), buf_len: None }),
    {
        ConnCall::GetPeer { ep: self.as_raw_typed_fid(), buf_len: None }
    }

    /// Decides on the answer to the first call: a too-small buffer means the address has
    /// `len` bytes and is fetched with a second call; success means the address is empty;
    /// any other answer is the error.
    pub fn peer_probe(&self, err: i32, len: usize) -> (r: PeerProbe)
        requires
            err > i32::MIN,
            (-err) as u32 == FI_ETOOSMALL || (0 <= -err <= u32::MAX),
        ensures
            (-err) as u32 == FI_ETOOSMALL ==> r == PeerProbe::Retry(len),
            err == 0 ==> r == PeerProbe::Done,
            (-err) as u32 != FI_ETOOSMALL && err != 0 ==> r == PeerProbe::Failed(Error { c_err: (-err) as u32 }),
    {
        let neg: i32 = -err;
        if neg as u32 == FI_ETOOSMALL {
            PeerProbe::Retry(len)
        } else if err == 0 {
            PeerProbe::Done
        } else {
            PeerProbe::Failed(Error::from_err_code(neg as u32))
        }
    }

    /// The buffer for the second call: `len` zero bytes.
    pub fn peer_buffer(&self, len: usize) -> (r: Vec<u8>)
        ensures
            r@ == Seq::new(len as nat, |i: int| 0u8),
    {
        let mut address: Vec<u8> = Vec::new();
        let mut i: usize = 0;
        while i < len
            invariant
                i <= len,
                address@ == Seq::new(i as nat, |j: int| 0u8),
            decreases len - i,
        {
            address.push(0u8);
            i = i + 1;
        }
        address
    }

    /// The second call of the query: into a buffer of `len` bytes.
    pub fn peer_fetch_call(&self, len: usize) -> (r: ConnCall)
        ensures
            r == (ConnCall::GetPeer { ep: self.ep_fid(), buf_len: Some(len) }),
    {
        ConnCall::GetPeer { ep: self.as_raw_typed_fid(), buf_len: Some(len) }
    }

    /// The peer's address, from what the second call returned and the bytes it wrote.
    pub fn peer(&self, err: i32, address: Vec<u8>) -> (r: Result<Address, Error>)
        requires
            err > i32::MIN,
            err == 0 || (0 <= -err <= u32::MAX),
        ensures
            err == 0 ==> (r matches Ok(a) && a@ == address@),
            err != 0 ==> r == Err::<Address, Error>(Error { c_err: (-err) as u32 }),
    {
        if err != 0 {
            Err(Error::from_err_code((-err) as u32))
        } else {
            Ok(Address::from_bytes(address))
        }
    }
}

} // verus!
