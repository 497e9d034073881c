//! Network interfaces, traffic counters and the commands that take an
//! interface down or bring it back up.
use vstd::prelude::*;
use crate::text::str_eq;

verus! {

/// The operating-system family, which decides interface names and commands.
#[derive(Debug, Clone, Copy, PartialEq, Eq, Structural)]
pub enum Platform {
    Windows,
    Other,
}

/// The interface names that the monitor knows on a platform.
pub open spec fn interface_names(platform: Platform) -> Seq<Seq<char>> {
    match platform {
        Platform::Windows => seq!["Ethernet"@, "Wi-Fi"@],
        Platform::Other => seq!["eth0"@, "wlan0"@],
    }
}

/// The known network interfaces of the platform.
pub fn get_network_interfaces(platform: Platform) -> (names: Vec<String>)
    ensures
        names.deep_view() == interface_names(platform),
{
    let mut names: Vec<String> = Vec::new();
    match platform {
        Platform::Windows => {
            names.push(String::from_str("Ethernet"));
            names.push(String::from_str("Wi-Fi"));
        },
        Platform::Other => {
            names.push(String::from_str("eth0"));
            names.push(String::from_str("wlan0"));
        },
    }
    assert(names.deep_view() =~= interface_names(platform));
    names
}

/// Whether an interface name denotes the loopback interface.
pub open spec fn is_loopback(name: Seq<char>) -> bool {
    name == "lo"@ || name == "Loopback"@
}

/// The first name in `names` that is not a loopback interface.
pub open spec fn first_non_loopback(names: Seq<Seq<char>>) -> Option<Seq<char>>
    decreases names.len(),
{
    if names.len() == 0 {
        None
    } else if !is_loopback(names[0]) {
        Some(names[0])
    } else {
        first_non_loopback(names.drop_first())
    }
}

/// Picks the first interface in `names` that is not a loopback interface.
pub fn pick_external_interface(names: &Vec<String>) -> (r: Option<String>)
    ensures
        r.deep_view() == first_non_loopback(names.deep_view()),
{
    let mut i: usize = 0;
    assert(names.deep_view().skip(0) =~= names.deep_view());
    while i < names.len()
        invariant
            i <= names.len(),
            first_non_loopback(names.deep_view()) == first_non_loopback(
                names.deep_view().skip(i as int),
            ),
        decreases names.len() - i,
    {
        let name = names[i].as_str();
        assert(names.deep_view().skip(i as int)[0] == names[i as int]@);
        assert(names.deep_view().skip(i as int).drop_first() =~= names.deep_view().skip(
            i as int + 1,
        ));
        if !str_eq(name, "lo") && !str_eq(name, "Loopback") {
            return Some(names[i].clone());
        }
        i = i + 1;
    }
    None
}

/// The sum of the first components of `samples`.
pub open spec fn total_sent(samples: Seq<(u64, u64)>) -> nat
    decreases samples.len(),
{
    if samples.len() == 0 {
        0
    } else {
        total_sent(samples.drop_last()) + samples.last().0 as nat
    }
}

/// The sum of the second components of `samples`.
pub open spec fn total_received(samples: Seq<(u64, u64)>) -> nat
    decreases samples.len(),
{
    if samples.len() == 0 {
        0
    } else {
        total_received(samples.drop_last()) + samples.last().1 as nat
    }
}

proof fn lemma_totals_monotone(samples: Seq<(u64, u64)>, i: int)
    requires
        0 <= i <= samples.len(),
    ensures
        total_sent(samples.take(i)) <= total_sent(samples),
        total_received(samples.take(i)) <= total_received(samples),
    decreases samples.len() - i,
{
    if i < samples.len() {
        lemma_totals_monotone(samples, i + 1);
        assert(samples.take(i + 1).drop_last() =~= samples.take(i));
    } else {
        assert(samples.take(i) =~= samples);
    }
}

/// The totals are sums taken component by component: nothing for no
/// interface, an interface's own counters for one interface, and adding an
/// interface adds its transmitted bytes to the sent total and its received
/// bytes to the received total.
pub proof fn law_totals_are_componentwise_sums(samples: Seq<(u64, u64)>, x: (u64, u64))
    ensures
        total_sent(Seq::<(u64, u64)>::empty()) == 0,
        total_received(Seq::<(u64, u64)>::empty()) == 0,
        total_sent(seq![x]) == x.0,
        total_received(seq![x]) == x.1,
        total_sent(samples.push(x)) == total_sent(samples) + x.0,
        total_received(samples.push(x)) == total_received(samples) + x.1,
{
    assert(samples.push(x).drop_last() =~= samples);
    assert(seq![x].drop_last() =~= Seq::<(u64, u64)>::empty());
}

/// Whether the traffic counters of all interfaces can be summed in `u64`.
pub open spec fn totals_fit(samples: Seq<(u64, u64)>) -> bool {
    total_sent(samples) <= u64::MAX && total_received(samples) <= u64::MAX
}

/// Tells whether `get_network_traffic` can sum these counters without
/// overflowing.
pub fn traffic_totals_fit(samples: &Vec<(u64, u64)>) -> (r: bool)
    ensures
        r == totals_fit(samples@),
{
    let mut sent: u64 = 0;
    let mut received: u64 = 0;
    let mut i: usize = 0;
    while i < samples.len()
        invariant
            i <= samples.len(),
            sent == total_sent(samples@.take(i as int)),
            received == total_received(samples@.take(i as int)),
        decreases samples.len() - i,
    {
        assert(samples@.take(i as int + 1).drop_last() =~= samples@.take(i as int));
        let (s, r) = samples[i];
        if s > u64::MAX - sent || r > u64::MAX - received {
            proof {
                lemma_totals_monotone(samples@, i as int + 1);
            }
            return false;
        }
        sent = sent + s;
        received = received + r;
        i = i + 1;
    }
    assert(samples@.take(i as int) =~= samples@);
    true
}

/// Total bytes transmitted and received over all interfaces, given each
/// interface's `(transmitted, received)` counters.
pub fn get_network_traffic(samples: &Vec<(u64, u64)>) -> (r: (u64, u64))
    requires
        totals_fit(samples@),
    ensures
        r.0 == total_sent(samples@),
        r.1 == total_received(samples@),
{
    let mut sent: u64 = 0;
    let mut received: u64 = 0;
    let mut i: usize = 0;
    while i < samples.len()
        invariant
            i <= samples.len(),
            totals_fit(samples@),
            sent == total_sent(samples@.take(i as int)),
            received == total_received(samples@.take(i as int)),
        decreases samples.len() - i,
    {
        assert(samples@.take(i as int + 1).drop_last() =~= samples@.take(i as int));
        proof {
            lemma_totals_monotone(samples@, i as int + 1);
        }
        let (s, r) = samples[i];
        sent = sent + s;
        received = received + r;
        i = i + 1;
    }
    assert(samples@.take(i as int) =~= samples@);
    (sent, received)
}

/// The program and arguments that switch `interface` on (`enable`) or off.
pub open spec fn interface_command_spec(platform: Platform, interface: Seq<char>, enable: bool) -> (
    Seq<char>,
    Seq<Seq<char>>,
) {
    match platform {
        Platform::Windows => (
            "netsh"@,
            seq![
                "interface"@,
                "set"@,
                "interface"@,
                interface,
                if enable {
                    "enabled"@
                } else {
                    "disabled"@
                },
            ],
        ),
        Platform::Other => (
            "ifconfig"@,
            seq![
                interface,
                if enable {
                    "up"@
                } else {
                    "down"@
                },
            ],
        ),
    }
}

fn interface_command(platform: Platform, interface: &str, enable: bool) -> (r: (String, Vec<String>))
    ensures
        (r.0@, r.1.deep_view()) == interface_command_spec(platform, interface@, enable),
{
    let mut args: Vec<String> = Vec::new();
    match platform {
        Platform::Windows => {
            args.push(String::from_str("interface"));
            args.push(String::from_str("set"));
            args.push(String::from_str("interface"));
            args.push(String::from_str(interface));
            if enable {
                args.push(String::from_str("enabled"));
            } else {
                args.push(String::from_str("disabled"));
            }
            assert(args.deep_view() =~= interface_command_spec(platform, interface@, enable).1);
            (String::from_str("netsh"), args)
        },
        Platform::Other => {
            args.push(String::from_str(interface));
            if enable {
                args.push(String::from_str("up"));
            } else {
                args.push(String::from_str("down"));
            }
            assert(args.deep_view() =~= interface_command_spec(platform, interface@, enable).1);
            (String::from_str("ifconfig"), args)
        },
    }
}

/// The command that disables `interface`.
pub fn disconnect_command(platform: Platform, interface: &str) -> (r: (String, Vec<String>))
    ensures
        (r.0@, r.1.deep_view()) == interface_command_spec(platform, interface@, false),
{
    interface_command(platform, interface, false)
}

/// The command that re-enables `interface`.
pub fn reconnect_command(platform: Platform, interface: &str) -> (r: (String, Vec<String>))
    ensures
        (r.0@, r.1.deep_view()) == interface_command_spec(platform, interface@, true),
{
    interface_command(platform, interface, true)
}

} // verus!
