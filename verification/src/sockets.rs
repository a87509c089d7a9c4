//! Reading from a socket as a suspendable computation.

use crate::poll::{Poll, ResumptionToken, SimpleFuture};
use vstd::prelude::*;

verus! {

/// The mathematical content of a [`Socket`].
pub struct SocketState {
    /// The bytes that have arrived and have not been read yet.
    pub buffered: Seq<u8>,
    /// The token to invoke when the socket becomes readable.
    pub callback: Option<ResumptionToken>,
}

/// The receiving end of a connection: bytes arrive through
/// [`Socket::deliver`] and wait in a buffer until they are read.
pub struct Socket {
    buffer: Vec<u8>,
    readable_callback: Option<ResumptionToken>,
}

impl View for Socket {
    type V = SocketState;

    closed spec fn view(&self) -> SocketState {
        SocketState { buffered: self.buffer@, callback: self.readable_callback }
    }
}

impl Socket {
    /// A socket on which nothing has arrived yet.
    pub fn new() -> (socket: Self)
        ensures
            socket@ == (SocketState { buffered: Seq::empty(), callback: None }),
    {
        Socket { buffer: Vec::new(), readable_callback: None }
    }

    pub fn has_data_to_read(&self) -> (readable: bool)
        ensures
            readable == (self@.buffered.len() > 0),
    {
        self.buffer.len() > 0
    }

    /// Takes everything buffered out of the socket.
    pub fn read_buf(&mut self) -> (data: Vec<u8>)
        ensures
            data@ == old(self)@.buffered,
            final(self)@ == (SocketState { buffered: Seq::empty(), ..old(self)@ }),
    {
        std::mem::replace(&mut self.buffer, Vec::new())
    }

    /// Records the token to invoke when the socket becomes readable,
    /// replacing any token recorded earlier.
    pub fn set_readable_callback(&mut self, wake: ResumptionToken)
        ensures
            final(self)@ == (SocketState { callback: Some(wake), ..old(self)@ }),
    {
        self.readable_callback = Some(wake);
    }

    /// New bytes arrive: they are buffered behind those already waiting, and
    /// the recorded token, if any, is taken out and returned for the caller
    /// to invoke. Nothing is handed out when nothing arrived.
    pub fn deliver(&mut self, data: Vec<u8>) -> (wake: Option<ResumptionToken>)
        ensures
            final(self)@.buffered == old(self)@.buffered + data@,
            data@.len() == 0 ==> wake is None && final(self)@.callback == old(self)@.callback,
            data@.len() > 0 ==> wake == old(self)@.callback && final(self)@.callback is None,
    {
        let mut data = data;
        if data.len() == 0 {
            proof {
                assert(self@.buffered + data@ =~= self@.buffered);
            }
            return None;
        }
        self.buffer.append(&mut data);
        self.readable_callback.take()
    }
}

/// The computation "read what has arrived on this socket": ready with the
/// buffered bytes as soon as there are any.
pub struct SocketRead {
    socket: Socket,
}

impl View for SocketRead {
    type V = SocketState;

    /// The state of the socket that is read from.
    closed spec fn view(&self) -> SocketState {
        self.socket@
    }
}

impl SocketRead {
    pub fn new(socket: Socket) -> (read: Self)
        ensures
            read@ == socket@,
    {
        SocketRead { socket }
    }

    /// New bytes arrive on the socket; see [`Socket::deliver`].
    pub fn deliver(&mut self, data: Vec<u8>) -> (wake: Option<ResumptionToken>)
        ensures
            final(self)@.buffered == old(self)@.buffered + data@,
            data@.len() == 0 ==> wake is None && final(self)@.callback == old(self)@.callback,
            data@.len() > 0 ==> wake == old(self)@.callback && final(self)@.callback is None,
    {
        self.socket.deliver(data)
    }

    /// Gives the socket back.
    pub fn into_socket(self) -> (socket: Socket)
        ensures
            socket@ == self@,
    {
        self.socket
    }
}

impl SimpleFuture for SocketRead {
    type Output = Vec<u8>;

    open spec fn steps_to(&self, wake: ResumptionToken, next: &Self, outcome: Poll<Vec<u8>>) -> bool {
        if self@.buffered.len() > 0 {
            &&& outcome matches Poll::Ready(data)
            &&& data@ == self@.buffered
            &&& next@ == (SocketState { buffered: Seq::empty(), ..self@ })
        } else {
            &&& outcome is Pending
            &&& next@ == (SocketState { callback: Some(wake), ..self@ })
        }
    }

    fn poll(&mut self, wake: ResumptionToken) -> (outcome: Poll<Vec<u8>>) {
        if self.socket.has_data_to_read() {
            Poll::Ready(self.socket.read_buf())
        } else {
            self.socket.set_readable_callback(wake);
            Poll::Pending
        }
    }
}

} // verus!
