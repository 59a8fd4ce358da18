//! The interface entity: one named network interface with its textual IPv4
//! address and netmask.

use vstd::prelude::*;

verus! {

/// Mathematical view of an [`Interface`]: the three fields as character
/// sequences.
pub ghost struct InterfaceView {
    pub name: Seq<char>,
    pub addr: Seq<char>,
    pub netmask: Seq<char>,
}

/// One network-interface record.  Immutable once constructed; equality is
/// structural over all three fields.
#[derive(Debug)]
pub struct Interface {
    name: String,
    addr: String,
    netmask: String,
}

impl View for Interface {
    type V = InterfaceView;

    closed spec fn view(&self) -> InterfaceView {
        InterfaceView { name: self.name@, addr: self.addr@, netmask: self.netmask@ }
    }
}

impl DeepView for Interface {
    type V = InterfaceView;

    open spec fn deep_view(&self) -> InterfaceView {
        self.view()
    }
}

impl Interface {
    /// Build a record from its three fields.
    pub fn new(name: &str, addr: &str, netmask: &str) -> (r: Interface)
        ensures
            r@ == (InterfaceView { name: name@, addr: addr@, netmask: netmask@ }),
    {
        Interface { name: name.to_owned(), addr: addr.to_owned(), netmask: netmask.to_owned() }
    }

    /// The unique key of this record within a registry snapshot.
    pub fn name(&self) -> (r: &str)
        ensures
            r@ == self@.name,
    {
        self.name.as_str()
    }

    /// The textual IPv4 address.
    pub fn addr(&self) -> (r: &str)
        ensures
            r@ == self@.addr,
    {
        self.addr.as_str()
    }

    /// The textual subnet mask paired with the address.
    pub fn netmask(&self) -> (r: &str)
        ensures
            r@ == self@.netmask,
    {
        self.netmask.as_str()
    }

    /// Whether this record's name reads exactly as `key`.
    pub fn name_is(&self, key: &String) -> (r: bool)
        ensures
            r == (self@.name == key@),
    {
        self.name == *key
    }
}

impl Clone for Interface {
    fn clone(&self) -> (r: Self)
        ensures
            r == *self,
    {
        Interface { name: self.name.clone(), addr: self.addr.clone(), netmask: self.netmask.clone() }
    }
}

impl PartialEq for Interface {
    fn eq(&self, other: &Self) -> (r: bool) {
        self.name == other.name && self.addr == other.addr && self.netmask == other.netmask
    }
}

impl vstd::std_specs::cmp::PartialEqSpecImpl for Interface {
    open spec fn obeys_eq_spec() -> bool {
        true
    }

    open spec fn eq_spec(&self, other: &Self) -> bool {
        self@ == other@
    }
}

} // verus!
