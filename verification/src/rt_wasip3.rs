use vstd::prelude::*;
use crate::rt::{PollState, timer_expired};

verus! {

/// What polling a WASI `JoinHandle` yields: it reports completion at once,
/// without the task's value.
pub open spec fn join_handle_poll_result<T>() -> PollState<Option<T>> {
    PollState::Ready(None)
}

/// The poll of a task spawned on WASI: ready at once with `None`, since the
/// task's value cannot be carried back.
pub fn join_handle_poll<T>() -> (p: PollState<Option<T>>)
    ensures
        p == join_handle_poll_result::<T>(),
{
    PollState::Ready(None)
}

/// On WASI a timeout's timer is a spawned task whose handle is ready at its
/// first poll, so every timeout there expires at its first poll, before the
/// wrapped future is polled at all.
pub proof fn lemma_wasi_timeout_expires_at_first_poll()
    ensures
        timer_expired(join_handle_poll_result::<()>()),
{
}

/// An IPv4 socket address: four octets and a port.
#[derive(Clone, Copy, Debug)]
pub struct Ipv4SocketAddress {
    pub address: (u8, u8, u8, u8),
    pub port: u16,
}

/// The address `connect_tcp` connects to: the loopback address at `port`;
/// the host name is not resolved.
pub fn connect_target(host: &str, port: u16) -> (addr: Ipv4SocketAddress)
    ensures
        addr.address == (127u8, 0u8, 0u8, 1u8),
        addr.port == port,
{
    Ipv4SocketAddress { address: (127, 0, 0, 1), port }
}

/// The decimal digit `d`, for `d < 10`.
pub open spec fn digit_char(d: nat) -> char {
    if d == 0 { '0' }
    else if d == 1 { '1' }
    else if d == 2 { '2' }
    else if d == 3 { '3' }
    else if d == 4 { '4' }
    else if d == 5 { '5' }
    else if d == 6 { '6' }
    else if d == 7 { '7' }
    else if d == 8 { '8' }
    else { '9' }
}

/// The decimal notation of `n`, without leading zeros.
pub open spec fn decimal(n: nat) -> Seq<char>
    decreases n,
{
    if n < 10 {
        seq![digit_char(n)]
    } else {
        decimal(n / 10).push(digit_char(n % 10))
    }
}

fn digit_str(d: u16) -> (s: &'static str)
    requires
        d < 10,
    ensures
        s@ == seq![digit_char(d as nat)],
{
    proof {
        reveal_strlit("0");
        reveal_strlit("1");
        reveal_strlit("2");
        reveal_strlit("3");
        reveal_strlit("4");
        reveal_strlit("5");
        reveal_strlit("6");
        reveal_strlit("7");
        reveal_strlit("8");
        reveal_strlit("9");
    }
    if d == 0 { "0" }
    else if d == 1 { "1" }
    else if d == 2 { "2" }
    else if d == 3 { "3" }
    else if d == 4 { "4" }
    else if d == 5 { "5" }
    else if d == 6 { "6" }
    else if d == 7 { "7" }
    else if d == 8 { "8" }
    else { "9" }
}

fn push_decimal(s: &mut String, n: u16)
    ensures
        final(s)@ == old(s)@ + decimal(n as nat),
    decreases n,
{
    if n >= 10 {
        push_decimal(s, n / 10);
    }
    s.append(digit_str(n % 10));
}

/// What `connect_tcp` reports when the connection fails.
pub open spec fn connect_failure_text(port: u16) -> Seq<char> {
    "failed to connect to 127.0.0.1:"@ + decimal(port as nat)
}

/// The message with which `connect_tcp` stops when it cannot connect.
pub fn connect_failure_message(port: u16) -> (m: String)
    ensures
        m@ == connect_failure_text(port),
{
    let mut s = String::from_str("failed to connect to 127.0.0.1:");
    push_decimal(&mut s, port);
    s
}

} // verus!
