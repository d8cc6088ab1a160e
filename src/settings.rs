//! Socket, listener and dialer settings.

use core::time::Duration;
use vstd::prelude::*;
use vstd::utf8::{encode_utf8, is_char_boundary};
use vstd::string::StringSliceAdditionalSpecFns;

verus! {

/// Largest socket name, in bytes.
pub const MAX_SOCKET_NAME_LEN: usize = 63;

/// Largest send buffer depth, in messages.
pub const MAX_SEND_BUFFER_SIZE: u16 = 8192;

/// Relies on `num_cpus::get`: the number of logical CPUs, documented to be at least 1.
#[verifier::external_body]
fn cpu_count() -> (r: usize)
    ensures
        r >= 1,
{
    num_cpus::get()
}

/// Options of a socket; each one left unset keeps the transport's default.
#[derive(Debug, Clone)]
pub struct SocketSettings {
    pub(crate) recv_buffer_size: Option<u16>,
    pub(crate) recv_max_size: Option<usize>,
    pub(crate) recv_timeout: Option<Duration>,
    pub(crate) send_timeout: Option<Duration>,
    pub(crate) send_buffer_size: Option<u16>,
    pub(crate) max_ttl: Option<u8>,
    pub(crate) socket_name: Option<String>,
    pub(crate) tcp_no_delay: Option<bool>,
    pub(crate) tcp_keep_alive: Option<bool>,
}

impl SocketSettings {
    pub open(crate) spec fn spec_recv_buffer_size(&self) -> Option<u16> {
        self.recv_buffer_size
    }

    pub open(crate) spec fn spec_recv_max_size(&self) -> Option<usize> {
        self.recv_max_size
    }

    pub open(crate) spec fn spec_recv_timeout(&self) -> Option<Duration> {
        self.recv_timeout
    }

    pub open(crate) spec fn spec_send_timeout(&self) -> Option<Duration> {
        self.send_timeout
    }

    pub open(crate) spec fn spec_send_buffer_size(&self) -> Option<u16> {
        self.send_buffer_size
    }

    pub open(crate) spec fn spec_max_ttl(&self) -> Option<u8> {
        self.max_ttl
    }

    pub open(crate) spec fn spec_socket_name(&self) -> Option<String> {
        self.socket_name
    }

    pub open(crate) spec fn spec_tcp_no_delay(&self) -> Option<bool> {
        self.tcp_no_delay
    }

    pub open(crate) spec fn spec_tcp_keep_alive(&self) -> Option<bool> {
        self.tcp_keep_alive
    }

    /// The invariant: set sizes are positive, the send buffer depth is at most 8192 and the
    /// socket name fits in 63 bytes.
    pub open(crate) spec fn wf(&self) -> bool {
        &&& (self.recv_buffer_size matches Some(n) ==> n > 0)
        &&& (self.recv_max_size matches Some(n) ==> n > 0)
        &&& (self.send_buffer_size matches Some(n) ==> 0 < n <= MAX_SEND_BUFFER_SIZE)
        &&& (self.socket_name matches Some(s) ==> encode_utf8(s@).len() <= MAX_SOCKET_NAME_LEN)
    }

    /// Settings with every option unset.
    pub fn new() -> (r: SocketSettings)
        ensures
            r.wf(),
            r.spec_recv_buffer_size() is None,
            r.spec_recv_max_size() is None,
            r.spec_recv_timeout() is None,
            r.spec_send_timeout() is None,
            r.spec_send_buffer_size() is None,
            r.spec_max_ttl() is None,
            r.spec_socket_name() is None,
            r.spec_tcp_no_delay() is None,
            r.spec_tcp_keep_alive() is None,
    {
        SocketSettings {
            recv_buffer_size: None,
            recv_max_size: None,
            recv_timeout: None,
            send_timeout: None,
            send_buffer_size: None,
            max_ttl: None,
            socket_name: None,
            tcp_no_delay: None,
            tcp_keep_alive: None,
        }
    }

    /// Whether TCP keep-alive messages are sent.
    pub fn tcp_keep_alive(&self) -> (r: Option<bool>)
        ensures
            r == self.spec_tcp_keep_alive(),
    {
        self.tcp_keep_alive
    }
    /// Enables or disables TCP keep-alive.
    pub fn set_tcp_keep_alive(self, opt: bool) -> (r: Self)
        ensures
            r.spec_tcp_keep_alive() == Some(opt),
            r.spec_recv_buffer_size() == self.spec_recv_buffer_size(),
            r.spec_recv_max_size() == self.spec_recv_max_size(),
            r.spec_recv_timeout() == self.spec_recv_timeout(),
            r.spec_send_timeout() == self.spec_send_timeout(),
            r.spec_send_buffer_size() == self.spec_send_buffer_size(),
            r.spec_max_ttl() == self.spec_max_ttl(),
            r.spec_socket_name() == self.spec_socket_name(),
            r.spec_tcp_no_delay() == self.spec_tcp_no_delay(),
    {
        let mut s = self;
        s.tcp_keep_alive = Some(opt);
        s
    }
    /// Whether Nagle's algorithm is disabled on TCP connections.
    pub fn tcp_no_delay(&self) -> (r: Option<bool>)
        ensures
            r == self.spec_tcp_no_delay(),
    {
        self.tcp_no_delay
    }
    /// Disables (true) or enables (false) Nagle's algorithm.
    pub fn set_tcp_no_delay(self, opt: bool) -> (r: Self)
        ensures
            r.spec_tcp_no_delay() == Some(opt),
            r.spec_recv_buffer_size() == self.spec_recv_buffer_size(),
            r.spec_recv_max_size() == self.spec_recv_max_size(),
            r.spec_recv_timeout() == self.spec_recv_timeout(),
            r.spec_send_timeout() == self.spec_send_timeout(),
            r.spec_send_buffer_size() == self.spec_send_buffer_size(),
            r.spec_max_ttl() == self.spec_max_ttl(),
            r.spec_socket_name() == self.spec_socket_name(),
            r.spec_tcp_keep_alive() == self.spec_tcp_keep_alive(),
    {
        let mut s = self;
        s.tcp_no_delay = Some(opt);
        s
    }
    /// The socket name, if set.
    pub fn socket_name(&self) -> (r: Option<&str>)
        ensures
            match self.spec_socket_name() {
                Some(s) => r matches Some(t) && t@ == s@,
                None => r is None,
            },
    {
        match &self.socket_name {
            Some(s) => Some(s.as_str()),
            None => None,
        }
    }

    /// Sets the socket name. A name longer than 63 bytes is cut at the last character
    /// boundary at or before byte 63: at byte 63 itself whenever that is a boundary (always for
    /// ASCII names).
    pub fn set_socket_name(self, name: &str) -> (r: Self)
        requires
            self.wf(),
        ensures
            r.wf(),
            r.spec_socket_name() matches Some(s) && (name.spec_bytes().len() <= MAX_SOCKET_NAME_LEN
                ==> s@ == name@) && (name.spec_bytes().len() > MAX_SOCKET_NAME_LEN ==> exists|
                k: int|
                0 <= k <= MAX_SOCKET_NAME_LEN && is_char_boundary(name.spec_bytes(), k) && (forall|
                    j: int|
                    k < j <= MAX_SOCKET_NAME_LEN ==> !is_char_boundary(name.spec_bytes(), j))
                    && encode_utf8(s@) == name.spec_bytes().subrange(0, k)),
            r.spec_recv_buffer_size() == self.spec_recv_buffer_size(),
            r.spec_recv_max_size() == self.spec_recv_max_size(),
            r.spec_recv_timeout() == self.spec_recv_timeout(),
            r.spec_send_timeout() == self.spec_send_timeout(),
            r.spec_send_buffer_size() == self.spec_send_buffer_size(),
            r.spec_max_ttl() == self.spec_max_ttl(),
            r.spec_tcp_no_delay() == self.spec_tcp_no_delay(),
            r.spec_tcp_keep_alive() == self.spec_tcp_keep_alive(),
    {
        let mut s = self;
        let len = name.as_bytes().len();
        proof {
            vstd::utf8::encode_utf8_valid_utf8(name@);
        }
        if len <= MAX_SOCKET_NAME_LEN {
            let owned = name.to_owned();
            assert(owned@ == name@);
            assert(name.spec_bytes() == encode_utf8(name@));
            assert(name.spec_bytes().len() == len);
            assert(encode_utf8(owned@).len() <= MAX_SOCKET_NAME_LEN);
            s.socket_name = Some(owned);
        } else {
            let mut cut: usize = MAX_SOCKET_NAME_LEN;
            proof {
                vstd::utf8::is_char_boundary_start_end_of_seq(name.spec_bytes());
            }
            while !name.is_char_boundary(cut)
                invariant
                    cut <= MAX_SOCKET_NAME_LEN < name.spec_bytes().len(),
                    vstd::utf8::valid_utf8(name.spec_bytes()),
                    is_char_boundary(name.spec_bytes(), 0),
                    forall|j: int|
                        cut < j <= MAX_SOCKET_NAME_LEN ==> !is_char_boundary(name.spec_bytes(), j),
                decreases cut,
            {
                cut = cut - 1;
            }
            let (head, _) = name.split_at(cut);
            let owned = head.to_owned();
            assert(encode_utf8(owned@) == name.spec_bytes().subrange(0, cut as int));
            assert(encode_utf8(owned@).len() == cut);
            assert(0 <= cut <= MAX_SOCKET_NAME_LEN && is_char_boundary(name.spec_bytes(), cut as int)
                && (forall|j: int|
                cut < j <= MAX_SOCKET_NAME_LEN ==> !is_char_boundary(name.spec_bytes(), j))
                && encode_utf8(owned@) == name.spec_bytes().subrange(0, cut as int));
            s.socket_name = Some(owned);
        }
        s
    }

    /// The largest message accepted from a peer, if set.
    pub fn recv_max_size(&self) -> (r: Option<usize>)
        ensures
            r == self.spec_recv_max_size(),
    {
        self.recv_max_size
    }
    /// Sets the largest message accepted from a peer; it must be positive.
    pub fn set_recv_max_size(self, size: usize) -> (r: Self)
        requires
            size > 0,
        ensures
            r.spec_recv_max_size() == Some(size),
            r.spec_recv_buffer_size() == self.spec_recv_buffer_size(),
            r.spec_recv_timeout() == self.spec_recv_timeout(),
            r.spec_send_timeout() == self.spec_send_timeout(),
            r.spec_send_buffer_size() == self.spec_send_buffer_size(),
            r.spec_max_ttl() == self.spec_max_ttl(),
            r.spec_socket_name() == self.spec_socket_name(),
            r.spec_tcp_no_delay() == self.spec_tcp_no_delay(),
            r.spec_tcp_keep_alive() == self.spec_tcp_keep_alive(),
    {
        let mut s = self;
        s.recv_max_size = Some(size);
        s
    }
    /// The depth of the receive buffer in messages, if set.
    pub fn recv_buffer_size(&self) -> (r: Option<u16>)
        ensures
            r == self.spec_recv_buffer_size(),
    {
        self.recv_buffer_size
    }
    /// Sets the depth of the receive buffer; it must be positive.
    pub fn set_recv_buffer_size(self, size: u16) -> (r: Self)
        requires
            size > 0,
        ensures
            r.spec_recv_buffer_size() == Some(size),
            r.spec_recv_max_size() == self.spec_recv_max_size(),
            r.spec_recv_timeout() == self.spec_recv_timeout(),
            r.spec_send_timeout() == self.spec_send_timeout(),
            r.spec_send_buffer_size() == self.spec_send_buffer_size(),
            r.spec_max_ttl() == self.spec_max_ttl(),
            r.spec_socket_name() == self.spec_socket_name(),
            r.spec_tcp_no_delay() == self.spec_tcp_no_delay(),
            r.spec_tcp_keep_alive() == self.spec_tcp_keep_alive(),
    {
        let mut s = self;
        s.recv_buffer_size = Some(size);
        s
    }
    /// The depth of the send buffer in messages, if set.
    pub fn send_buffer_size(&self) -> (r: Option<u16>)
        ensures
            r == self.spec_send_buffer_size(),
    {
        self.send_buffer_size
    }
    /// Sets the depth of the send buffer; a depth above 8192 is set to 8192.
    pub fn set_send_buffer_size(self, size: u16) -> (r: Self)
        requires
            size > 0,
        ensures
            r.spec_send_buffer_size() == Some(
                if size > MAX_SEND_BUFFER_SIZE {
                    MAX_SEND_BUFFER_SIZE
                } else {
                    size
                },
            ),
            r.spec_recv_buffer_size() == self.spec_recv_buffer_size(),
            r.spec_recv_max_size() == self.spec_recv_max_size(),
            r.spec_recv_timeout() == self.spec_recv_timeout(),
            r.spec_send_timeout() == self.spec_send_timeout(),
            r.spec_max_ttl() == self.spec_max_ttl(),
            r.spec_socket_name() == self.spec_socket_name(),
            r.spec_tcp_no_delay() == self.spec_tcp_no_delay(),
            r.spec_tcp_keep_alive() == self.spec_tcp_keep_alive(),
    {
        let mut s = self;
        if size > MAX_SEND_BUFFER_SIZE {
            s.send_buffer_size = Some(MAX_SEND_BUFFER_SIZE);
        } else {
            s.send_buffer_size = Some(size);
        }
        s
    }

    /// How long a receive waits before it fails, if set.
    pub fn recv_timeout(&self) -> (r: Option<Duration>)
        ensures
            r == self.spec_recv_timeout(),
    {
        self.recv_timeout
    }
    /// Sets the receive timeout.
    pub fn set_recv_timeout(self, timeout: Duration) -> (r: Self)
        ensures
            r.spec_recv_timeout() == Some(timeout),
            r.spec_recv_buffer_size() == self.spec_recv_buffer_size(),
            r.spec_recv_max_size() == self.spec_recv_max_size(),
            r.spec_send_timeout() == self.spec_send_timeout(),
            r.spec_send_buffer_size() == self.spec_send_buffer_size(),
            r.spec_max_ttl() == self.spec_max_ttl(),
            r.spec_socket_name() == self.spec_socket_name(),
            r.spec_tcp_no_delay() == self.spec_tcp_no_delay(),
            r.spec_tcp_keep_alive() == self.spec_tcp_keep_alive(),
    {
        let mut s = self;
        s.recv_timeout = Some(timeout);
        s
    }
    /// How long a send waits before it fails, if set.
    pub fn send_timeout(&self) -> (r: Option<Duration>)
        ensures
            r == self.spec_send_timeout(),
    {
        self.send_timeout
    }
    /// Sets the send timeout.
    pub fn set_send_timeout(self, timeout: Duration) -> (r: Self)
        ensures
            r.spec_send_timeout() == Some(timeout),
            r.spec_recv_buffer_size() == self.spec_recv_buffer_size(),
            r.spec_recv_max_size() == self.spec_recv_max_size(),
            r.spec_recv_timeout() == self.spec_recv_timeout(),
            r.spec_send_buffer_size() == self.spec_send_buffer_size(),
            r.spec_max_ttl() == self.spec_max_ttl(),
            r.spec_socket_name() == self.spec_socket_name(),
            r.spec_tcp_no_delay() == self.spec_tcp_no_delay(),
            r.spec_tcp_keep_alive() == self.spec_tcp_keep_alive(),
    {
        let mut s = self;
        s.send_timeout = Some(timeout);
        s
    }
    /// The largest number of hops a message may take, if set.
    pub fn max_ttl(&self) -> (r: Option<u8>)
        ensures
            r == self.spec_max_ttl(),
    {
        self.max_ttl
    }
    /// Sets the largest number of hops a message may take.
    pub fn set_max_ttl(self, ttl: u8) -> (r: Self)
        ensures
            r.spec_max_ttl() == Some(ttl),
            r.spec_recv_buffer_size() == self.spec_recv_buffer_size(),
            r.spec_recv_max_size() == self.spec_recv_max_size(),
            r.spec_recv_timeout() == self.spec_recv_timeout(),
            r.spec_send_timeout() == self.spec_send_timeout(),
            r.spec_send_buffer_size() == self.spec_send_buffer_size(),
            r.spec_socket_name() == self.spec_socket_name(),
            r.spec_tcp_no_delay() == self.spec_tcp_no_delay(),
            r.spec_tcp_keep_alive() == self.spec_tcp_keep_alive(),
    {
        let mut s = self;
        s.max_ttl = Some(ttl);
        s
    }
}

impl Default for SocketSettings {
    fn default() -> (r: SocketSettings)
        ensures
            r.wf(),
            r.spec_recv_buffer_size() is None,
            r.spec_recv_max_size() is None,
            r.spec_recv_timeout() is None,
            r.spec_send_timeout() is None,
            r.spec_send_buffer_size() is None,
            r.spec_max_ttl() is None,
            r.spec_socket_name() is None,
            r.spec_tcp_no_delay() is None,
            r.spec_tcp_keep_alive() is None,
    {
        SocketSettings::new()
    }
}

/// Settings of a listener: where it listens and how many contexts serve it.
#[derive(Debug, Clone)]
pub struct ListenerSettings {
    pub(crate) url: String,
    pub(crate) recv_max_size: Option<usize>,
    pub(crate) no_delay: Option<bool>,
    pub(crate) keep_alive: Option<bool>,
    pub(crate) non_blocking: bool,
    pub(crate) aio_context_count: usize,
}

impl ListenerSettings {
    pub open(crate) spec fn spec_url(&self) -> String {
        self.url
    }

    pub open(crate) spec fn spec_recv_max_size(&self) -> Option<usize> {
        self.recv_max_size
    }

    pub open(crate) spec fn spec_no_delay(&self) -> Option<bool> {
        self.no_delay
    }

    pub open(crate) spec fn spec_keep_alive(&self) -> Option<bool> {
        self.keep_alive
    }

    pub open(crate) spec fn spec_non_blocking(&self) -> bool {
        self.non_blocking
    }

    pub open(crate) spec fn spec_aio_context_count(&self) -> usize {
        self.aio_context_count
    }

    /// Settings for `url`: blocking bind, one context, every option unset.
    pub fn new(url: &str) -> (r: ListenerSettings)
        ensures
            r.spec_url()@ == url@,
            r.spec_recv_max_size() is None,
            r.spec_no_delay() is None,
            r.spec_keep_alive() is None,
            !r.spec_non_blocking(),
            r.spec_aio_context_count() == 1,
    {
        ListenerSettings {
            url: url.to_owned(),
            recv_max_size: None,
            no_delay: None,
            keep_alive: None,
            non_blocking: false,
            aio_context_count: 1,
        }
    }

    /// The address that the listener listens on.
    pub fn url(&self) -> (r: &str)
        ensures
            r@ == self.spec_url()@,
    {
        self.url.as_str()
    }

    /// Whether binding happens in the background.
    pub fn non_blocking(&self) -> (r: bool)
        ensures
            r == self.spec_non_blocking(),
    {
        self.non_blocking
    }
    /// How many contexts serve requests concurrently.
    pub fn aio_context_count(&self) -> (r: usize)
        ensures
            r == self.spec_aio_context_count(),
    {
        self.aio_context_count
    }
    /// The largest message accepted from a peer, if set.
    pub fn recv_max_size(&self) -> (r: Option<usize>)
        ensures
            r == self.spec_recv_max_size(),
    {
        self.recv_max_size
    }
    /// Whether Nagle's algorithm is disabled, if set.
    pub fn no_delay(&self) -> (r: Option<bool>)
        ensures
            r == self.spec_no_delay(),
    {
        self.no_delay
    }
    /// Whether TCP keep-alive is enabled, if set.
    pub fn keep_alive(&self) -> (r: Option<bool>)
        ensures
            r == self.spec_keep_alive(),
    {
        self.keep_alive
    }
    /// Sets the largest message accepted from a peer.
    pub fn set_recv_max_size(self, recv_max_size: usize) -> (r: Self)
        ensures
            r.spec_recv_max_size() == Some(recv_max_size),
            r.spec_url() == self.spec_url(),
            r.spec_no_delay() == self.spec_no_delay(),
            r.spec_keep_alive() == self.spec_keep_alive(),
            r.spec_non_blocking() == self.spec_non_blocking(),
            r.spec_aio_context_count() == self.spec_aio_context_count(),
    {
        let mut s = self;
        s.recv_max_size = Some(recv_max_size);
        s
    }
    /// Disables (true) or enables (false) Nagle's algorithm.
    pub fn set_no_delay(self, no_delay: bool) -> (r: Self)
        ensures
            r.spec_no_delay() == Some(no_delay),
            r.spec_url() == self.spec_url(),
            r.spec_recv_max_size() == self.spec_recv_max_size(),
            r.spec_keep_alive() == self.spec_keep_alive(),
            r.spec_non_blocking() == self.spec_non_blocking(),
            r.spec_aio_context_count() == self.spec_aio_context_count(),
    {
        let mut s = self;
        s.no_delay = Some(no_delay);
        s
    }
    /// Enables or disables TCP keep-alive.
    pub fn set_keep_alive(self, keep_alive: bool) -> (r: Self)
        ensures
            r.spec_keep_alive() == Some(keep_alive),
            r.spec_url() == self.spec_url(),
            r.spec_recv_max_size() == self.spec_recv_max_size(),
            r.spec_no_delay() == self.spec_no_delay(),
            r.spec_non_blocking() == self.spec_non_blocking(),
            r.spec_aio_context_count() == self.spec_aio_context_count(),
    {
        let mut s = self;
        s.keep_alive = Some(keep_alive);
        s
    }
    /// Binds in the background when true.
    pub fn set_non_blocking(self, non_blocking: bool) -> (r: Self)
        ensures
            r.spec_non_blocking() == non_blocking,
            r.spec_url() == self.spec_url(),
            r.spec_recv_max_size() == self.spec_recv_max_size(),
            r.spec_no_delay() == self.spec_no_delay(),
            r.spec_keep_alive() == self.spec_keep_alive(),
            r.spec_aio_context_count() == self.spec_aio_context_count(),
    {
        let mut s = self;
        s.non_blocking = non_blocking;
        s
    }
    /// Sets how many contexts serve requests; it must be positive.
    pub fn set_aio_count(self, count: usize) -> (r: Self)
        requires
            count > 0,
        ensures
            r.spec_aio_context_count() == count,
            r.spec_url() == self.spec_url(),
            r.spec_recv_max_size() == self.spec_recv_max_size(),
            r.spec_no_delay() == self.spec_no_delay(),
            r.spec_keep_alive() == self.spec_keep_alive(),
            r.spec_non_blocking() == self.spec_non_blocking(),
    {
        let mut s = self;
        s.aio_context_count = count;
        s
    }
}

/// Settings of a requesting socket: its reconnection and resend times, and its socket
/// settings.
#[derive(Debug, Clone)]
pub struct SocketConfig {
    pub(crate) reconnect_min_time: Option<Duration>,
    pub(crate) reconnect_max_time: Option<Duration>,
    pub(crate) resend_time: Option<Duration>,
    pub(crate) socket_config: Option<SocketSettings>,
}

impl SocketConfig {
    pub open(crate) spec fn spec_reconnect_min_time(&self) -> Option<Duration> {
        self.reconnect_min_time
    }

    pub open(crate) spec fn spec_reconnect_max_time(&self) -> Option<Duration> {
        self.reconnect_max_time
    }

    pub open(crate) spec fn spec_resend_time(&self) -> Option<Duration> {
        self.resend_time
    }

    pub open(crate) spec fn spec_socket_config(&self) -> Option<SocketSettings> {
        self.socket_config
    }

    /// A configuration with every option unset.
    pub fn new() -> (r: SocketConfig)
        ensures
            r.spec_reconnect_min_time() is None,
            r.spec_reconnect_max_time() is None,
            r.spec_resend_time() is None,
            r.spec_socket_config() is None,
    {
        SocketConfig { reconnect_min_time: None, reconnect_max_time: None, resend_time: None, socket_config: None }
    }

    /// The socket settings, if set.
    pub fn socket_config(&self) -> (r: Option<&SocketSettings>)
        ensures
            match self.spec_socket_config() {
                Some(s) => r matches Some(t) && *t == s,
                None => r is None,
            },
    {
        match &self.socket_config {
            Some(s) => Some(s),
            None => None,
        }
    }

    /// How long a request waits for its reply before it is sent again, if set.
    pub fn resend_time(&self) -> (r: Option<Duration>)
        ensures
            r == self.spec_resend_time(),
    {
        self.resend_time
    }
    /// The shortest wait before reconnecting, if set.
    pub fn reconnect_min_time(&self) -> (r: Option<Duration>)
        ensures
            r == self.spec_reconnect_min_time(),
    {
        self.reconnect_min_time
    }
    /// The longest wait before reconnecting, if set.
    pub fn reconnect_max_time(&self) -> (r: Option<Duration>)
        ensures
            r == self.spec_reconnect_max_time(),
    {
        self.reconnect_max_time
    }
    /// Sets the shortest wait before reconnecting.
    pub fn set_reconnect_min_time(self, reconnect_min_time: Duration) -> (r: Self)
        ensures
            r.spec_reconnect_min_time() == Some(reconnect_min_time),
            r.spec_reconnect_max_time() == self.spec_reconnect_max_time(),
            r.spec_resend_time() == self.spec_resend_time(),
            r.spec_socket_config() == self.spec_socket_config(),
    {
        let mut s = self;
        s.reconnect_min_time = Some(reconnect_min_time);
        s
    }
    /// Sets the longest wait before reconnecting.
    pub fn set_reconnect_max_time(self, reconnect_max_time: Duration) -> (r: Self)
        ensures
            r.spec_reconnect_max_time() == Some(reconnect_max_time),
            r.spec_reconnect_min_time() == self.spec_reconnect_min_time(),
            r.spec_resend_time() == self.spec_resend_time(),
            r.spec_socket_config() == self.spec_socket_config(),
    {
        let mut s = self;
        s.reconnect_max_time = Some(reconnect_max_time);
        s
    }
    /// Sets how long a request waits before it is sent again.
    pub fn set_resend_time(self, resend_time: Duration) -> (r: Self)
        ensures
            r.spec_resend_time() == Some(resend_time),
            r.spec_reconnect_min_time() == self.spec_reconnect_min_time(),
            r.spec_reconnect_max_time() == self.spec_reconnect_max_time(),
            r.spec_socket_config() == self.spec_socket_config(),
    {
        let mut s = self;
        s.resend_time = Some(resend_time);
        s
    }
    /// Sets the socket settings.
    pub fn set_socket_config(self, config: SocketSettings) -> (r: Self)
        ensures
            r.spec_socket_config() == Some(config),
            r.spec_reconnect_min_time() == self.spec_reconnect_min_time(),
            r.spec_reconnect_max_time() == self.spec_reconnect_max_time(),
            r.spec_resend_time() == self.spec_resend_time(),
    {
        let mut s = self;
        s.socket_config = Some(config);
        s
    }
}

/// Settings of a dialer: where it connects and how many contexts send requests.
#[derive(Debug, Clone)]
pub struct DialerConfig {
    pub(crate) url: String,
    pub(crate) parallelism: usize,
    pub(crate) recv_max_size: Option<usize>,
    pub(crate) no_delay: Option<bool>,
    pub(crate) keep_alive: Option<bool>,
    pub(crate) reconnect_min_time: Option<Duration>,
    pub(crate) reconnect_max_time: Option<Duration>,
}

impl DialerConfig {
    pub open(crate) spec fn spec_url(&self) -> String {
        self.url
    }

    pub open(crate) spec fn spec_parallelism(&self) -> usize {
        self.parallelism
    }

    pub open(crate) spec fn spec_recv_max_size(&self) -> Option<usize> {
        self.recv_max_size
    }

    pub open(crate) spec fn spec_no_delay(&self) -> Option<bool> {
        self.no_delay
    }

    pub open(crate) spec fn spec_keep_alive(&self) -> Option<bool> {
        self.keep_alive
    }

    pub open(crate) spec fn spec_reconnect_min_time(&self) -> Option<Duration> {
        self.reconnect_min_time
    }

    pub open(crate) spec fn spec_reconnect_max_time(&self) -> Option<Duration> {
        self.reconnect_max_time
    }

    /// Settings for `url`, with one context per CPU and every option unset.
    pub fn new(url: &str) -> (r: DialerConfig)
        ensures
            r.spec_url()@ == url@,
            r.spec_parallelism() >= 1,
            r.spec_recv_max_size() is None,
            r.spec_no_delay() is None,
            r.spec_keep_alive() is None,
            r.spec_reconnect_min_time() is None,
            r.spec_reconnect_max_time() is None,
    {
        DialerConfig {
            url: url.to_owned(),
            parallelism: cpu_count(),
            recv_max_size: None,
            no_delay: None,
            keep_alive: None,
            reconnect_min_time: None,
            reconnect_max_time: None,
        }
    }

    /// The address that the dialer connects to.
    pub fn url(&self) -> (r: &str)
        ensures
            r@ == self.spec_url()@,
    {
        self.url.as_str()
    }

    /// How many contexts send requests concurrently.
    pub fn parallelism(&self) -> (r: usize)
        ensures
            r == self.spec_parallelism(),
    {
        self.parallelism
    }
    /// The largest message accepted from a peer, if set.
    pub fn recv_max_size(&self) -> (r: Option<usize>)
        ensures
            r == self.spec_recv_max_size(),
    {
        self.recv_max_size
    }
    /// Whether Nagle's algorithm is disabled, if set.
    pub fn no_delay(&self) -> (r: Option<bool>)
        ensures
            r == self.spec_no_delay(),
    {
        self.no_delay
    }
    /// Whether TCP keep-alive is enabled, if set.
    pub fn keep_alive(&self) -> (r: Option<bool>)
        ensures
            r == self.spec_keep_alive(),
    {
        self.keep_alive
    }
    /// The shortest wait before reconnecting, if set.
    pub fn reconnect_min_time(&self) -> (r: Option<Duration>)
        ensures
            r == self.spec_reconnect_min_time(),
    {
        self.reconnect_min_time
    }
    /// The longest wait before reconnecting, if set.
    pub fn reconnect_max_time(&self) -> (r: Option<Duration>)
        ensures
            r == self.spec_reconnect_max_time(),
    {
        self.reconnect_max_time
    }
    /// Sets the largest message accepted from a peer.
    pub fn set_recv_max_size(self, recv_max_size: usize) -> (r: Self)
        ensures
            r.spec_recv_max_size() == Some(recv_max_size),
            r.spec_url() == self.spec_url(),
            r.spec_parallelism() == self.spec_parallelism(),
            r.spec_no_delay() == self.spec_no_delay(),
            r.spec_keep_alive() == self.spec_keep_alive(),
            r.spec_reconnect_min_time() == self.spec_reconnect_min_time(),
            r.spec_reconnect_max_time() == self.spec_reconnect_max_time(),
    {
        let mut s = self;
        s.recv_max_size = Some(recv_max_size);
        s
    }
    /// Disables (true) or enables (false) Nagle's algorithm.
    pub fn set_no_delay(self, no_delay: bool) -> (r: Self)
        ensures
            r.spec_no_delay() == Some(no_delay),
            r.spec_url() == self.spec_url(),
            r.spec_parallelism() == self.spec_parallelism(),
            r.spec_recv_max_size() == self.spec_recv_max_size(),
            r.spec_keep_alive() == self.spec_keep_alive(),
            r.spec_reconnect_min_time() == self.spec_reconnect_min_time(),
            r.spec_reconnect_max_time() == self.spec_reconnect_max_time(),
    {
        let mut s = self;
        s.no_delay = Some(no_delay);
        s
    }
    /// Enables or disables TCP keep-alive.
    pub fn set_keep_alive(self, keep_alive: bool) -> (r: Self)
        ensures
            r.spec_keep_alive() == Some(keep_alive),
            r.spec_url() == self.spec_url(),
            r.spec_parallelism() == self.spec_parallelism(),
            r.spec_recv_max_size() == self.spec_recv_max_size(),
            r.spec_no_delay() == self.spec_no_delay(),
            r.spec_reconnect_min_time() == self.spec_reconnect_min_time(),
            r.spec_reconnect_max_time() == self.spec_reconnect_max_time(),
    {
        let mut s = self;
        s.keep_alive = Some(keep_alive);
        s
    }
    /// Sets how many contexts send requests; it must be positive.
    pub fn set_parallelism(self, count: usize) -> (r: Self)
        requires
            count > 0,
        ensures
            r.spec_parallelism() == count,
            r.spec_url() == self.spec_url(),
            r.spec_recv_max_size() == self.spec_recv_max_size(),
            r.spec_no_delay() == self.spec_no_delay(),
            r.spec_keep_alive() == self.spec_keep_alive(),
            r.spec_reconnect_min_time() == self.spec_reconnect_min_time(),
            r.spec_reconnect_max_time() == self.spec_reconnect_max_time(),
    {
        let mut s = self;
        s.parallelism = count;
        s
    }
    /// Sets the shortest wait before reconnecting.
    pub fn set_reconnect_min_time(self, reconnect_min_time: Duration) -> (r: Self)
        ensures
            r.spec_reconnect_min_time() == Some(reconnect_min_time),
            r.spec_url() == self.spec_url(),
            r.spec_parallelism() == self.spec_parallelism(),
            r.spec_recv_max_size() == self.spec_recv_max_size(),
            r.spec_no_delay() == self.spec_no_delay(),
            r.spec_keep_alive() == self.spec_keep_alive(),
            r.spec_reconnect_max_time() == self.spec_reconnect_max_time(),
    {
        let mut s = self;
        s.reconnect_min_time = Some(reconnect_min_time);
        s
    }
    /// Sets the longest wait before reconnecting.
    pub fn set_reconnect_max_time(self, reconnect_max_time: Duration) -> (r: Self)
        ensures
            r.spec_reconnect_max_time() == Some(reconnect_max_time),
            r.spec_url() == self.spec_url(),
            r.spec_parallelism() == self.spec_parallelism(),
            r.spec_recv_max_size() == self.spec_recv_max_size(),
            r.spec_no_delay() == self.spec_no_delay(),
            r.spec_keep_alive() == self.spec_keep_alive(),
            r.spec_reconnect_min_time() == self.spec_reconnect_min_time(),
    {
        let mut s = self;
        s.reconnect_max_time = Some(reconnect_max_time);
        s
    }
}

/// Settings of a server's listener: where it listens and how many contexts serve it.
#[derive(Debug, Clone)]
pub struct ListenerConfig {
    pub(crate) url: String,
    pub(crate) recv_max_size: Option<usize>,
    pub(crate) no_delay: Option<bool>,
    pub(crate) keep_alive: Option<bool>,
    pub(crate) non_blocking: bool,
    pub(crate) parallelism: usize,
}

impl ListenerConfig {
    pub open(crate) spec fn spec_url(&self) -> String {
        self.url
    }

    pub open(crate) spec fn spec_recv_max_size(&self) -> Option<usize> {
        self.recv_max_size
    }

    pub open(crate) spec fn spec_no_delay(&self) -> Option<bool> {
        self.no_delay
    }

    pub open(crate) spec fn spec_keep_alive(&self) -> Option<bool> {
        self.keep_alive
    }

    pub open(crate) spec fn spec_non_blocking(&self) -> bool {
        self.non_blocking
    }

    pub open(crate) spec fn spec_parallelism(&self) -> usize {
        self.parallelism
    }

    /// Settings for `url`: blocking bind, one context more than there are CPUs (or as many
    /// as `usize` holds), every option unset.
    pub fn new(url: &str) -> (r: ListenerConfig)
        ensures
            r.spec_url()@ == url@,
            r.spec_parallelism() >= 2,
            r.spec_recv_max_size() is None,
            r.spec_no_delay() is None,
            r.spec_keep_alive() is None,
            !r.spec_non_blocking(),
    {
        let cpus = cpu_count();
        let parallelism = if cpus < usize::MAX { cpus + 1 } else { cpus };
        ListenerConfig {
            url: url.to_owned(),
            recv_max_size: None,
            no_delay: None,
            keep_alive: None,
            non_blocking: false,
            parallelism,
        }
    }

    /// The address that the listener listens on.
    pub fn url(&self) -> (r: &str)
        ensures
            r@ == self.spec_url()@,
    {
        self.url.as_str()
    }

    /// Whether binding happens in the background.
    pub fn non_blocking(&self) -> (r: bool)
        ensures
            r == self.spec_non_blocking(),
    {
        self.non_blocking
    }
    /// How many contexts serve requests concurrently.
    pub fn parallelism(&self) -> (r: usize)
        ensures
            r == self.spec_parallelism(),
    {
        self.parallelism
    }
    /// The largest message accepted from a peer, if set.
    pub fn recv_max_size(&self) -> (r: Option<usize>)
        ensures
            r == self.spec_recv_max_size(),
    {
        self.recv_max_size
    }
    /// Whether Nagle's algorithm is disabled, if set.
    pub fn no_delay(&self) -> (r: Option<bool>)
        ensures
            r == self.spec_no_delay(),
    {
        self.no_delay
    }
    /// Whether TCP keep-alive is enabled, if set.
    pub fn keep_alive(&self) -> (r: Option<bool>)
        ensures
            r == self.spec_keep_alive(),
    {
        self.keep_alive
    }
    /// Sets the largest message accepted from a peer.
    pub fn set_recv_max_size(self, recv_max_size: usize) -> (r: Self)
        ensures
            r.spec_recv_max_size() == Some(recv_max_size),
            r.spec_url() == self.spec_url(),
            r.spec_no_delay() == self.spec_no_delay(),
            r.spec_keep_alive() == self.spec_keep_alive(),
            r.spec_non_blocking() == self.spec_non_blocking(),
            r.spec_parallelism() == self.spec_parallelism(),
    {
        let mut s = self;
        s.recv_max_size = Some(recv_max_size);
        s
    }
    /// Disables (true) or enables (false) Nagle's algorithm.
    pub fn set_no_delay(self, no_delay: bool) -> (r: Self)
        ensures
            r.spec_no_delay() == Some(no_delay),
            r.spec_url() == self.spec_url(),
            r.spec_recv_max_size() == self.spec_recv_max_size(),
            r.spec_keep_alive() == self.spec_keep_alive(),
            r.spec_non_blocking() == self.spec_non_blocking(),
            r.spec_parallelism() == self.spec_parallelism(),
    {
        let mut s = self;
        s.no_delay = Some(no_delay);
        s
    }
    /// Enables or disables TCP keep-alive.
    pub fn set_keep_alive(self, keep_alive: bool) -> (r: Self)
        ensures
            r.spec_keep_alive() == Some(keep_alive),
            r.spec_url() == self.spec_url(),
            r.spec_recv_max_size() == self.spec_recv_max_size(),
            r.spec_no_delay() == self.spec_no_delay(),
            r.spec_non_blocking() == self.spec_non_blocking(),
            r.spec_parallelism() == self.spec_parallelism(),
    {
        let mut s = self;
        s.keep_alive = Some(keep_alive);
        s
    }
    /// Binds in the background when true.
    pub fn set_non_blocking(self, non_blocking: bool) -> (r: Self)
        ensures
            r.spec_non_blocking() == non_blocking,
            r.spec_url() == self.spec_url(),
            r.spec_recv_max_size() == self.spec_recv_max_size(),
            r.spec_no_delay() == self.spec_no_delay(),
            r.spec_keep_alive() == self.spec_keep_alive(),
            r.spec_parallelism() == self.spec_parallelism(),
    {
        let mut s = self;
        s.non_blocking = non_blocking;
        s
    }
    /// Sets how many contexts serve requests; it must be positive.
    pub fn set_aio_count(self, count: usize) -> (r: Self)
        requires
            count > 0,
        ensures
            r.spec_parallelism() == count,
            r.spec_url() == self.spec_url(),
            r.spec_recv_max_size() == self.spec_recv_max_size(),
            r.spec_no_delay() == self.spec_no_delay(),
            r.spec_keep_alive() == self.spec_keep_alive(),
            r.spec_non_blocking() == self.spec_non_blocking(),
    {
        let mut s = self;
        s.parallelism = count;
        s
    }
}

} // verus!
