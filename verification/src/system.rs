//! The system-backed registry: `all` and `get` read the operating system's
//! live interface list; `create`, `delete` and `modify` are deliberate
//! capability gaps that always fail with a descriptive error.
//!
//! The OS enumeration reaches the library through one trusted wrapper that
//! reduces each entry to plain values; everything decided on those values —
//! the IPv4 filtering, the name lookup and the asymmetric error policy — is
//! verified here.

use vstd::prelude::*;
use vstd::string::StringExecFns;
use crate::error::RegistryError;
use crate::iface::{Interface, InterfaceView};
use crate::registry::Interfaces;

verus! {

/// Mathematical view of a [`RawIfAddr`] entry.
pub ghost struct RawIfAddrView {
    pub name: Seq<char>,
    pub addr: Option<Seq<char>>,
    pub netmask: Option<Seq<char>>,
}

/// One entry of the OS interface/address list, reduced to plain values:
/// the interface name, and the dotted-quad texts of the entry's address and
/// netmask where — and only where — each resolved to IPv4.
pub struct RawIfAddr {
    pub name: String,
    pub addr: Option<String>,
    pub netmask: Option<String>,
}

impl View for RawIfAddr {
    type V = RawIfAddrView;

    open spec fn view(&self) -> RawIfAddrView {
        RawIfAddrView { name: self.name@, addr: self.addr.deep_view(), netmask: self.netmask.deep_view() }
    }
}

impl DeepView for RawIfAddr {
    type V = RawIfAddrView;

    open spec fn deep_view(&self) -> RawIfAddrView {
        self.view()
    }
}

/// The interface record an entry yields when both its address and netmask
/// resolved to IPv4; nothing otherwise.
pub open spec fn spec_ipv4_record(e: RawIfAddrView) -> Option<InterfaceView> {
    match (e.addr, e.netmask) {
        (Some(a), Some(m)) => Some(InterfaceView { name: e.name, addr: a, netmask: m }),
        _ => None,
    }
}

/// The listing policy: entries without a resolvable IPv4 address-and-mask
/// pair are silently excluded; the rest keep their order.
pub open spec fn spec_collect_ipv4(s: Seq<RawIfAddrView>) -> Seq<InterfaceView>
    decreases s.len(),
{
    if s.len() == 0 {
        Seq::empty()
    } else {
        let rest = spec_collect_ipv4(s.drop_last());
        match spec_ipv4_record(s.last()) {
            Some(v) => rest.push(v),
            None => rest,
        }
    }
}

/// The first entry named `n`, scanning front to back.
pub open spec fn spec_find_raw(s: Seq<RawIfAddrView>, n: Seq<char>) -> Option<RawIfAddrView>
    decreases s.len(),
{
    if s.len() == 0 {
        None
    } else if s[0].name == n {
        Some(s[0])
    } else {
        spec_find_raw(s.drop_first(), n)
    }
}

/// When the first entry named `n` sits at position `i`, the scan returns it.
proof fn lemma_find_raw_at_first_match(s: Seq<RawIfAddrView>, n: Seq<char>, i: int)
    requires
        0 <= i < s.len(),
        s[i].name == n,
        forall|k: int| 0 <= k < i ==> s[k].name != n,
    ensures
        spec_find_raw(s, n) == Some(s[i]),
    decreases i,
{
    if i > 0 {
        lemma_find_raw_at_first_match(s.drop_first(), n, i - 1);
    }
}

/// When no entry is named `n`, the scan comes back empty.
proof fn lemma_find_raw_no_match(s: Seq<RawIfAddrView>, n: Seq<char>)
    requires
        forall|k: int| 0 <= k < s.len() ==> s[k].name != n,
    ensures
        spec_find_raw(s, n) is None,
    decreases s.len(),
{
    if s.len() > 0 {
        lemma_find_raw_no_match(s.drop_first(), n);
    }
}

/// Whatever entry the scan returns is named `n`.
proof fn lemma_find_raw_names(s: Seq<RawIfAddrView>, n: Seq<char>)
    ensures
        spec_find_raw(s, n) matches Some(e) ==> e.name == n,
    decreases s.len(),
{
    if s.len() > 0 && s[0].name != n {
        lemma_find_raw_names(s.drop_first(), n);
    }
}

/// Relies on `nix::ifaddrs::getifaddrs` for the live OS interface list; each
/// entry keeps its name, and its address and netmask are rendered as
/// dotted-quad text exactly when they are IPv4 socket addresses.  The outcome
/// depends on live OS state, so nothing is promised of it.
#[verifier::external_body]
fn system_ifaddrs() -> (r: Result<Vec<RawIfAddr>, String>) {
    match nix::ifaddrs::getifaddrs() {
        Ok(entries) => Ok(entries.map(|e| RawIfAddr {
            name: e.interface_name,
            addr: e.address.and_then(|s| s.as_sockaddr_in().map(|v| v.ip().to_string())),
            netmask: e.netmask.and_then(|s| s.as_sockaddr_in().map(|v| v.ip().to_string())),
        }).collect()),
        Err(e) => Err(e.to_string()),
    }
}

/// The records of every entry holding a full IPv4 address-and-mask pair, in
/// entry order.
pub fn collect_ipv4(entries: &Vec<RawIfAddr>) -> (r: Vec<Interface>)
    ensures
        r.deep_view() == spec_collect_ipv4(entries.deep_view()),
{
    let mut out: Vec<Interface> = Vec::new();
    proof {
        assert(out.deep_view() =~= spec_collect_ipv4(entries.deep_view().subrange(0, 0)));
    }
    let n = entries.len();
    let mut i: usize = 0;
    while i < n
        invariant
            n == entries@.len(),
            i <= n,
            out.deep_view() == spec_collect_ipv4(entries.deep_view().subrange(0, i as int)),
        decreases n - i,
    {
        let ghost pre = out.deep_view();
        let entry = &entries[i];
        match (&entry.addr, &entry.netmask) {
            (Some(a), Some(m)) => {
                out.push(Interface::new(entry.name.as_str(), a.as_str(), m.as_str()));
                proof {
                    assert(pre.len() == spec_collect_ipv4(
                        entries.deep_view().subrange(0, i as int),
                    ).len());
                    assert(forall|k: int| 0 <= k < pre.len()
                        ==> pre[k] == #[trigger] out.deep_view()[k]);
                    assert(out.deep_view() =~= pre.push(
                        spec_ipv4_record(entries.deep_view()[i as int])->0,
                    ));
                }
            },
            _ => {},
        }
        proof {
            let dv = entries.deep_view();
            assert(dv.subrange(0, i + 1).drop_last() =~= dv.subrange(0, i as int));
            assert(dv.subrange(0, i + 1).last() == dv[i as int]);
            assert(out.deep_view() =~= spec_collect_ipv4(dv.subrange(0, i + 1)));
        }
        i = i + 1;
    }
    proof {
        assert(entries.deep_view().subrange(0, n as int) =~= entries.deep_view());
    }
    out
}

/// The record for the first entry named `name`, under the inherited policy:
/// no entry of that name is `None`, an entry with a full IPv4 pair is the
/// record, and an entry whose pair did not resolve is an address-resolution
/// error rather than an omission.
pub fn lookup_ipv4(entries: &Vec<RawIfAddr>, name: &str) -> (r: Result<
    Option<Interface>,
    RegistryError,
>)
    ensures
        (match spec_find_raw(entries.deep_view(), name@) {
            None => r matches Ok(o) && o is None,
            Some(e) => (match spec_ipv4_record(e) {
                Some(v) => r matches Ok(o) && o matches Some(i) && i@ == v,
                None => r matches Err(RegistryError::AddressResolution { name: m }) && m@
                    == name@,
            }),
        }),
{
    let key: String = name.to_owned();
    let n = entries.len();
    let mut i: usize = 0;
    while i < n
        invariant
            n == entries@.len(),
            i <= n,
            key@ == name@,
            forall|k: int| 0 <= k < i ==> entries.deep_view()[k].name != name@,
        decreases n - i,
    {
        let entry = &entries[i];
        if entry.name == key {
            proof {
                lemma_find_raw_at_first_match(entries.deep_view(), name@, i as int);
            }
            match (&entry.addr, &entry.netmask) {
                (Some(a), Some(m)) => {
                    return Ok(Some(Interface::new(entry.name.as_str(), a.as_str(), m.as_str())));
                },
                _ => {
                    return Err(RegistryError::AddressResolution { name: name.to_owned() });
                },
            }
        }
        i = i + 1;
    }
    proof {
        lemma_find_raw_no_match(entries.deep_view(), name@);
    }
    Ok(None)
}

/// A registry over the operating system's live interface list.  It owns no
/// storage: every read re-derives the listing from OS state.
pub struct SystemInterfaces {}

impl SystemInterfaces {
    /// The system-backed registry handle.
    pub fn new() -> (r: SystemInterfaces) {
        SystemInterfaces {  }
    }
}

impl Interfaces for SystemInterfaces {
    fn all(&self) -> (r: Result<Vec<Interface>, RegistryError>)
        ensures
            (r matches Ok(v) ==> exists|raw: Seq<RawIfAddrView>|
                v.deep_view() == spec_collect_ipv4(raw)),
            (r matches Err(e) ==> e matches RegistryError::SystemQuery { .. }),
    {
        match system_ifaddrs() {
            Ok(entries) => {
                let v = collect_ipv4(&entries);
                proof {
                    assert(v.deep_view() == spec_collect_ipv4(entries.deep_view()));
                }
                Ok(v)
            },
            Err(message) => Err(RegistryError::SystemQuery { message }),
        }
    }

    fn create(&mut self, name: &str) -> (r: Result<Interface, RegistryError>)
        ensures
            (r matches Err(RegistryError::Unimplemented { operation: op, name: m }) && op@
                == "create"@ && m@ == name@),
    {
        Err(RegistryError::Unimplemented {
            operation: String::from_str("create"),
            name: name.to_owned(),
        })
    }

    fn delete(&mut self, name: &str) -> (r: Result<bool, RegistryError>)
        ensures
            (r matches Err(RegistryError::Unimplemented { operation: op, name: m }) && op@
                == "delete"@ && m@ == name@),
    {
        Err(RegistryError::Unimplemented {
            operation: String::from_str("delete"),
            name: name.to_owned(),
        })
    }

    fn get(&self, name: &str) -> (r: Result<Option<Interface>, RegistryError>)
        ensures
            (match r {
                Ok(Some(i)) => i@.name == name@,
                Ok(None) => true,
                Err(e) => e matches RegistryError::SystemQuery { .. } || (e matches
                    RegistryError::AddressResolution { name: m } && m@ == name@),
            }),
    {
        match system_ifaddrs() {
            Ok(entries) => {
                proof {
                    lemma_find_raw_names(entries.deep_view(), name@);
                }
                lookup_ipv4(&entries, name)
            },
            Err(message) => Err(RegistryError::SystemQuery { message }),
        }
    }

    fn modify(&self, iface: Interface) -> (r: Result<bool, RegistryError>)
        ensures
            (r matches Err(RegistryError::Unimplemented { operation: op, name: m }) && op@
                == "modify"@ && m@ == iface@.name),
    {
        Err(RegistryError::Unimplemented {
            operation: String::from_str("modify"),
            name: iface.name().to_owned(),
        })
    }
}

} // verus!
