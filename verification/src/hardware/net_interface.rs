//! Memory for the sockets of the network stack.

use vstd::prelude::*;

verus! {

/// The number of TCP sockets supported in the network stack.
pub const NUM_TCP_SOCKETS: usize = 4;

/// Receive and transmit memory of one TCP socket.
#[derive(Clone, Copy)]
pub struct TcpSocketStorage {
    pub rx_storage: [u8; 1024],
    /// Large enough to hold the telemetry of all eight channels.
    pub tx_storage: [u8; 4096],
}

impl TcpSocketStorage {
    /// Every byte of the memory is zero.
    pub open spec fn zeroed(self) -> bool {
        &&& forall|i: int| 0 <= i < 1024 ==> self.rx_storage@[i] == 0u8
        &&& forall|i: int| 0 <= i < 4096 ==> self.tx_storage@[i] == 0u8
    }

    /// Zeroed socket memory.
    pub fn new() -> (storage: Self)
        ensures
            storage.zeroed(),
    {
        Self { tx_storage: [0; 4096], rx_storage: [0; 1024] }
    }
}

/// The memory of all TCP sockets.
pub struct NetStorage {
    pub tcp_socket_storage: [TcpSocketStorage; 4],
}

impl NetStorage {
    /// Zeroed memory for every socket.
    pub fn new() -> (storage: Self)
        ensures
            forall|socket: int|
                0 <= socket < 4 ==> (#[trigger] storage.tcp_socket_storage@[socket]).zeroed(),
    {
        let socket = TcpSocketStorage::new();
        NetStorage { tcp_socket_storage: [socket; 4] }
    }
}

} // verus!
