use vstd::prelude::*;

verus! {

/// An address of either version of the Internet Protocol, as text.
#[derive(Debug, PartialEq, Eq)]
pub enum IpAddr {
    V4(String),
    V6(String),
}

/// An `IpAddr` as a mathematical value.
pub enum IpAddrView {
    V4(Seq<char>),
    V6(Seq<char>),
}

impl View for IpAddr {
    type V = IpAddrView;

    open spec fn view(&self) -> IpAddrView {
        match self {
            IpAddr::V4(text) => IpAddrView::V4(text@),
            IpAddr::V6(text) => IpAddrView::V6(text@),
        }
    }
}

/// The loopback address in both versions: version 4 first.
pub fn run() -> (addresses: (IpAddr, IpAddr))
    ensures
        addresses.0@ == IpAddrView::V4("127.0.0.1"@),
        addresses.1@ == IpAddrView::V6("::1"@),
{
    let home = IpAddr::V4("127.0.0.1".to_owned());
    let loopback = IpAddr::V6("::1".to_owned());
    (home, loopback)
}

} // verus!
