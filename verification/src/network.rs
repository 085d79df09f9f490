//! User-mode networking of a container through `slirp4netns`.
use vstd::prelude::*;
use crate::nix::string_views;

verus! {

/// The decimal digit `d` as a character.
pub open spec fn digit_char(d: nat) -> char {
    if d == 0 {
        '0'
    } else if d == 1 {
        '1'
    } else if d == 2 {
        '2'
    } else if d == 3 {
        '3'
    } else if d == 4 {
        '4'
    } else if d == 5 {
        '5'
    } else if d == 6 {
        '6'
    } else if d == 7 {
        '7'
    } else if d == 8 {
        '8'
    } else {
        '9'
    }
}

/// The decimal notation of `n`, without sign or leading zeros, as `u32`'s `Display`
/// writes it.
pub open spec fn decimal(n: nat) -> Seq<char>
    decreases n,
{
    if n < 10 {
        seq![digit_char(n)]
    } else {
        decimal(n / 10).push(digit_char(n % 10))
    }
}

/// The one-character text of the decimal digit `d`.
fn digit_str(d: u32) -> (res: &'static str)
    requires
        d < 10,
    ensures
        res@ == seq![digit_char(d as nat)],
{
    proof {
        reveal_strlit("0");
        reveal_strlit("1");
        reveal_strlit("2");
        reveal_strlit("3");
        reveal_strlit("4");
        reveal_strlit("5");
        reveal_strlit("6");
        reveal_strlit("7");
        reveal_strlit("8");
        reveal_strlit("9");
    }
    if d == 0 {
        "0"
    } else if d == 1 {
        "1"
    } else if d == 2 {
        "2"
    } else if d == 3 {
        "3"
    } else if d == 4 {
        "4"
    } else if d == 5 {
        "5"
    } else if d == 6 {
        "6"
    } else if d == 7 {
        "7"
    } else if d == 8 {
        "8"
    } else {
        "9"
    }
}

/// Writes `n` in decimal.
pub fn decimal_string(n: u32) -> (res: String)
    ensures
        res@ == decimal(n as nat),
    decreases n,
{
    if n < 10 {
        String::from_str(digit_str(n))
    } else {
        let mut s = decimal_string(n / 10);
        s.append(digit_str(n % 10));
        s
    }
}

/// A `slirp4netns` network attached to a container process.
pub struct SlirpNetwork {
    /// The PID of the container process whose network namespace is attached.
    pub container_pid: u32,
    /// The name of the tap interface that `slirp4netns` manages.
    pub tap_name: String,
    /// The host's address on the virtual network.
    pub host_ip: String,
    /// The container's address on the virtual network.
    pub container_ip: String,
}

/// The arguments of `slirp4netns` that attach the network namespace of the process
/// `pid` through the tap interface `tap_name`, configure it and set its MTU to 65520.
pub open spec fn slirp_args_spec(pid: u32, tap_name: Seq<char>) -> Seq<Seq<char>> {
    seq![decimal(pid as nat), tap_name, "--configure"@, "--mtu"@, "65520"@]
}

/// The message that announces forwarding the host port `host_port` to the container
/// port `container_port`.
pub open spec fn forward_message_spec(host_port: u16, container_port: u16) -> Seq<char> {
    "Forwarding host port "@ + decimal(host_port as nat) + " to container port "@ + decimal(
        container_port as nat,
    )
}

impl SlirpNetwork {
    /// A network description for the process `container_pid`, with the tap interface
    /// `tap_name` and the two addresses.
    pub fn new(container_pid: u32, tap_name: &str, host_ip: &str, container_ip: &str) -> (res: Self)
        ensures
            res.container_pid == container_pid,
            res.tap_name@ == tap_name@,
            res.host_ip@ == host_ip@,
            res.container_ip@ == container_ip@,
    {
        SlirpNetwork {
            container_pid,
            tap_name: String::from_str(tap_name),
            host_ip: String::from_str(host_ip),
            container_ip: String::from_str(container_ip),
        }
    }

    /// Builds the arguments of `slirp4netns` that start this network.
    pub fn start_args(&self) -> (res: Vec<String>)
        ensures
            string_views(res@) == slirp_args_spec(self.container_pid, self.tap_name@),
            res@.len() == 5,
            res@[0]@ == decimal(self.container_pid as nat),
            res@[1]@ == self.tap_name@,
    {
        let mut res: Vec<String> = Vec::new();
        res.push(decimal_string(self.container_pid));
        res.push(self.tap_name.clone());
        res.push(String::from_str("--configure"));
        res.push(String::from_str("--mtu"));
        res.push(String::from_str("65520"));
        assert(string_views(res@) =~= slirp_args_spec(self.container_pid, self.tap_name@));
        res
    }

    /// The message that announces forwarding `host_port` to `container_port`.
    pub fn forward_message(&self, host_port: u16, container_port: u16) -> (res: String)
        ensures
            res@ == forward_message_spec(host_port, container_port),
    {
        let mut res = String::from_str("Forwarding host port ");
        let host = decimal_string(host_port as u32);
        let container = decimal_string(container_port as u32);
        res.append(host.as_str());
        res.append(" to container port ");
        res.append(container.as_str());
        res
    }
}

/// The number that a text of decimal digits stands for, read from the left.
pub open spec fn digits_value(s: Seq<char>) -> int
    decreases s.len(),
{
    if s.len() == 0 {
        0
    } else {
        digits_value(s.drop_last()) * 10 + (s.last() as int - 48)
    }
}

/// `c` is one of the characters `0` to `9`.
pub open spec fn is_decimal_digit(c: char) -> bool {
    48 <= (c as int) <= 57
}

proof fn lemma_digit_char(d: nat)
    requires
        d < 10,
    ensures
        digit_char(d) as int == 48 + d,
{
}

/// The decimal notation of `n` is a non-empty string of digits, without a leading zero
/// unless `n` is zero, that reads back as `n`.
pub proof fn law_decimal_reads_back(n: nat)
    ensures
        decimal(n).len() > 0,
        forall|i: int| 0 <= i < decimal(n).len() ==> is_decimal_digit(#[trigger] decimal(n)[i]),
        n > 0 ==> decimal(n)[0] != '0',
        digits_value(decimal(n)) == n,
    decreases n,
{
    if n < 10 {
        lemma_digit_char(n);
        assert(seq![digit_char(n)].drop_last() =~= Seq::<char>::empty());
        assert(digits_value(Seq::<char>::empty()) == 0);
        assert(digits_value(decimal(n)) == digits_value(Seq::<char>::empty()) * 10 + (digit_char(n) as int - 48));
    } else {
        law_decimal_reads_back(n / 10);
        lemma_digit_char(n % 10);
        let s = decimal(n);
        assert(s.drop_last() =~= decimal(n / 10));
        assert(s[0] == decimal(n / 10)[0]);
        assert forall|i: int| 0 <= i < s.len() implies is_decimal_digit(#[trigger] s[i]) by {
            if i < s.len() - 1 {
                assert(s[i] == decimal(n / 10)[i]);
            }
        }
        assert(n == (n / 10) * 10 + n % 10);
        assert(digits_value(s) == digits_value(decimal(n / 10)) * 10 + (digit_char(n % 10) as int - 48));
    }
}

/// The first argument that starts a network is the PID of the container process, in
/// full, in decimal; the second is the tap interface's name.
pub proof fn law_slirp_args_name_process_and_tap(pid: u32, tap_name: Seq<char>)
    ensures
        slirp_args_spec(pid, tap_name).len() == 5,
        digits_value(slirp_args_spec(pid, tap_name)[0]) == pid,
        forall|i: int| 0 <= i < slirp_args_spec(pid, tap_name)[0].len() ==> is_decimal_digit(
            #[trigger] slirp_args_spec(pid, tap_name)[0][i],
        ),
        slirp_args_spec(pid, tap_name)[1] == tap_name,
{
    law_decimal_reads_back(pid as nat);
}

/// The forwarding message names the host port and then the container port, each in
/// full, in decimal, after the fixed words.
pub proof fn law_forward_message_names_ports(host_port: u16, container_port: u16)
    ensures
        ({
            let msg = forward_message_spec(host_port, container_port);
            let a = "Forwarding host port "@.len() as int;
            let h = decimal(host_port as nat).len() as int;
            let b = " to container port "@.len() as int;
            let c = decimal(container_port as nat).len() as int;
            &&& msg.len() == a + h + b + c
            &&& msg.subrange(0, a) == "Forwarding host port "@
            &&& digits_value(msg.subrange(a, a + h)) == host_port
            &&& msg.subrange(a + h, a + h + b) == " to container port "@
            &&& digits_value(msg.subrange(a + h + b, a + h + b + c)) == container_port
        }),
{
    law_decimal_reads_back(host_port as nat);
    law_decimal_reads_back(container_port as nat);
    let msg = forward_message_spec(host_port, container_port);
    let p = "Forwarding host port "@;
    let hs = decimal(host_port as nat);
    let q = " to container port "@;
    let cs = decimal(container_port as nat);
    let a = p.len() as int;
    let h = hs.len() as int;
    let b = q.len() as int;
    let c = cs.len() as int;
    assert(msg.subrange(0, a) =~= p);
    assert(msg.subrange(a, a + h) =~= hs);
    assert(msg.subrange(a + h, a + h + b) =~= q);
    assert(msg.subrange(a + h + b, a + h + b + c) =~= cs);
}

} // verus!
