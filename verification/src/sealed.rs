//! Seals numeric address conversions against hostname-bearing implementations.
use vstd::prelude::*;
use crate::net::{IpAddr, Ipv4Addr, Ipv6Addr, SocketAddr};

verus! {

/// Private supertrait for numeric address forms.
pub trait Sealed {

}

impl Sealed for SocketAddr {

}

impl Sealed for (IpAddr, u16) {

}

impl Sealed for (Ipv4Addr, u16) {

}

impl Sealed for (Ipv6Addr, u16) {

}

impl Sealed for [SocketAddr] {

}

impl<const N: usize> Sealed for [SocketAddr; N] {

}

impl<T: Sealed + ?Sized> Sealed for &T {

}

} // verus!
