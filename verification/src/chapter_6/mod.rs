use vstd::prelude::*;

pub mod dice_roll;
pub mod ip_addr;
pub mod msg;

verus! {

/// Runs the parts of the chapter in their order, and hands on the addresses
/// that the first part builds.
pub fn run() -> (addresses: (ip_addr::IpAddr, ip_addr::IpAddr))
    ensures
        addresses.0@ == ip_addr::IpAddrView::V4("127.0.0.1"@),
        addresses.1@ == ip_addr::IpAddrView::V6("::1"@),
{
    let addresses = ip_addr::run();
    msg::run();
    addresses
}

} // verus!
