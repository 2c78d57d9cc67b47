//! The addresses under which clients on the network reach the server.

use vstd::prelude::*;
use vstd::string::StringExecFns;
use crate::text::{decimal, decimal_text};

verus! {

/// A network interface of the machine, as the text of its IP address and
/// whether that address is of version 6.
pub struct Interface {
    pub ip: String,
    pub v6: bool,
}

/// What an [`Interface`] is, with the address as a sequence of
/// characters.
pub struct InterfaceView {
    pub ip: Seq<char>,
    pub v6: bool,
}

impl View for Interface {
    type V = InterfaceView;

    open spec fn view(&self) -> InterfaceView {
        InterfaceView { ip: self.ip@, v6: self.v6 }
    }
}

/// The address of the machine by its name on the local network.
pub open spec fn named_address(host: Seq<char>, port: u16) -> Seq<char> {
    host + ".local:"@ + decimal(port as nat)
}

/// The address of `port` on an interface: the IP address, in square
/// brackets if it is of version 6, a colon and the port.
pub open spec fn interface_address(interface: InterfaceView, port: u16) -> Seq<char> {
    if interface.v6 {
        "["@ + interface.ip + "]:"@ + decimal(port as nat)
    } else {
        interface.ip + ":"@ + decimal(port as nat)
    }
}

/// The addresses of `port` on each of `interfaces`, in their order.
pub open spec fn interface_addresses(interfaces: Seq<InterfaceView>, port: u16) -> Seq<
    Seq<char>,
> {
    Seq::new(interfaces.len(), |i: int| interface_address(interfaces[i], port))
}

/// The addresses to announce. A server that listens on one address
/// announces that one. A server that listens on every address announces
/// the machine's name, if it has one, and then each interface.
pub open spec fn announced(
    everywhere: bool,
    listen: Seq<char>,
    port: u16,
    host: Option<Seq<char>>,
    interfaces: Seq<InterfaceView>,
) -> Seq<Seq<char>> {
    if everywhere {
        match host {
            Some(name) => seq![named_address(name, port)] + interface_addresses(interfaces, port),
            None => interface_addresses(interfaces, port),
        }
    } else {
        seq![listen]
    }
}

/// The texts of a sequence of strings, place by place.
pub open spec fn texts(strings: Seq<String>) -> Seq<Seq<char>> {
    Seq::new(strings.len(), |i: int| strings[i]@)
}

/// The views of a sequence of interfaces, place by place.
pub open spec fn interface_views(interfaces: Seq<Interface>) -> Seq<InterfaceView> {
    Seq::new(interfaces.len(), |i: int| interfaces[i]@)
}

/// The page to visit at `address`.
pub open spec fn url_of(address: Seq<char>) -> Seq<char> {
    "http://"@ + address + "/"@
}

/// The page to visit at the first of `addresses`, if there is one.
pub open spec fn first_url(addresses: Seq<Seq<char>>) -> Option<Seq<char>> {
    if addresses.len() == 0 {
        None
    } else {
        Some(url_of(addresses[0]))
    }
}

fn write_interface_address(interface: &Interface, port: u16) -> (out: String)
    ensures
        out@ == interface_address(interface@, port),
{
    let digits = decimal_text(port as u64);
    if interface.v6 {
        let mut out = String::from_str("[");
        out.append(interface.ip.as_str());
        out.append("]:");
        out.append(digits.as_str());
        out
    } else {
        let mut out = interface.ip.clone();
        out.append(":");
        out.append(digits.as_str());
        out
    }
}

/// Lists the addresses to announce for a server that listens on the
/// address `listen` with port `port`. `everywhere` says that this is the
/// address that stands for all of the machine's addresses; `host` is the
/// machine's name, if known, and `interfaces` are its network interfaces.
pub fn server_addresses(
    everywhere: bool,
    listen: String,
    port: u16,
    host: Option<String>,
    interfaces: &Vec<Interface>,
) -> (out: Vec<String>)
    ensures
        texts(out@) == announced(
            everywhere,
            listen@,
            port,
            match host {
                Some(name) => Some(name@),
                None => None,
            },
            interface_views(interfaces@),
        ),
{
    let mut out: Vec<String> = Vec::new();
    if !everywhere {
        out.push(listen);
        return out;
    }
    let ghost views = interface_views(interfaces@);
    let ghost head: Seq<Seq<char>> = Seq::empty();
    match host {
        Some(name) => {
            let mut line = name;
            line.append(".local:");
            line.append(decimal_text(port as u64).as_str());
            out.push(line);
            proof {
                head = seq![named_address(name@, port)];
            }
        },
        None => {},
    }
    let mut i: usize = 0;
    while i < interfaces.len()
        invariant
            i <= interfaces.len(),
            views == interface_views(interfaces@),
            texts(out@) == head + interface_addresses(views, port).take(i as int),
        decreases interfaces.len() - i,
    {
        let ghost before = texts(out@);
        let line = write_interface_address(&interfaces[i], port);
        out.push(line);
        assert(texts(out@) =~= before.push(line@));
        i = i + 1;
    }
    assert(Seq::<Seq<char>>::empty() + interface_addresses(views, port) =~= interface_addresses(
        views,
        port,
    ));
    out
}

/// The page to visit at the first of `addresses`; none if there is no
/// address.
pub fn visit_url(addresses: &Vec<String>) -> (url: Option<String>)
    ensures
        match url {
            Some(u) => Some(u@),
            None => None,
        } == first_url(texts(addresses@)),
{
    if addresses.len() == 0 {
        None
    } else {
        let mut url = String::from_str("http://");
        url.append(addresses[0].as_str());
        url.append("/");
        Some(url)
    }
}

} // verus!
