//! The in-memory registry: a deterministic test double for the system-backed
//! variant, fully functional for `all`/`get`/`create`/`delete` and mirroring
//! the production capability gap on `modify`.

use vstd::prelude::*;
use vstd::string::StringExecFns;
use crate::error::RegistryError;
use crate::iface::{Interface, InterfaceView};
use crate::registry::{
    spec_contains_name, spec_default_interface, spec_lookup, spec_remove, wf_names, Interfaces,
    lemma_lookup_at_first_match, lemma_lookup_no_match, lemma_remove_at_first_match,
    lemma_remove_no_match,
};

verus! {

/// A registry over an owned collection of records, keyed by name.  The
/// collection is mutated only through the registry's own operations.
pub struct MemoryInterfaces {
    ifaces: Vec<Interface>,
}

impl View for MemoryInterfaces {
    type V = Seq<InterfaceView>;

    closed spec fn view(&self) -> Seq<InterfaceView> {
        self.ifaces.deep_view()
    }
}

impl MemoryInterfaces {
    /// A fresh registry, holding no records at all.
    pub fn new() -> (r: MemoryInterfaces)
        ensures
            r@ == Seq::<InterfaceView>::empty(),
            wf_names(r@),
    {
        let r = MemoryInterfaces { ifaces: Vec::new() };
        proof {
            assert(r@ =~= Seq::<InterfaceView>::empty());
        }
        r
    }
}

/// Position of the first record named `name`, if any.
fn find_index(v: &Vec<Interface>, name: &str) -> (r: Option<usize>)
    ensures
        (match r {
            Some(i) => i < v.len() && v.deep_view()[i as int].name == name@ && forall|k: int|
                0 <= k < i ==> v.deep_view()[k].name != name@,
            None => forall|k: int| 0 <= k < v.len() ==> v.deep_view()[k].name != name@,
        }),
{
    let key: String = name.to_owned();
    let n = v.len();
    let mut i: usize = 0;
    while i < n
        invariant
            n == v.len(),
            i <= n,
            key@ == name@,
            forall|k: int| 0 <= k < i ==> v.deep_view()[k].name != name@,
        decreases n - i,
    {
        if v[i].name_is(&key) {
            return Some(i);
        }
        i = i + 1;
    }
    None
}

impl Interfaces for MemoryInterfaces {
    fn all(&self) -> (r: Result<Vec<Interface>, RegistryError>)
        ensures
            (r matches Ok(v) && v.deep_view() == self@),
    {
        let mut out: Vec<Interface> = Vec::new();
        let n = self.ifaces.len();
        let mut i: usize = 0;
        while i < n
            invariant
                n == self.ifaces.len(),
                i <= n,
                out.deep_view() == self.ifaces.deep_view().subrange(0, i as int),
            decreases n - i,
        {
            let ghost pre = out.deep_view();
            proof {
                assert(pre.len() == i);
                assert(out@.len() == i);
            }
            out.push(self.ifaces[i].clone());
            proof {
                assert(forall|k: int| 0 <= k < pre.len()
                    ==> pre[k] == #[trigger] out.deep_view()[k]);
                assert(out.deep_view() =~= self.ifaces.deep_view().subrange(0, i + 1));
            }
            i = i + 1;
        }
        proof {
            assert(self.ifaces.deep_view().subrange(0, n as int) =~= self.ifaces.deep_view());
        }
        Ok(out)
    }

    fn create(&mut self, name: &str) -> (r: Result<Interface, RegistryError>)
        ensures
            spec_contains_name(old(self)@, name@) ==> final(self)@ == old(self)@ && (r matches
                Err(RegistryError::AlreadyExists { name: m }) && m@ == name@),
            !spec_contains_name(old(self)@, name@) ==> final(self)@ == old(self)@.push(
                spec_default_interface(name@),
            ) && (r matches Ok(i) && i@ == spec_default_interface(name@)),
    {
        match find_index(&self.ifaces, name) {
            Some(i) => {
                proof {
                    lemma_lookup_at_first_match(self@, name@, i as int);
                }
                Err(RegistryError::AlreadyExists { name: name.to_owned() })
            },
            None => {
                proof {
                    lemma_lookup_no_match(self@, name@);
                }
                let iface = Interface::new(name, "127.0.0.1", "255.0.0.0");
                let ret = iface.clone();
                self.ifaces.push(iface);
                proof {
                    assert(self@ =~= old(self)@.push(spec_default_interface(name@)));
                }
                Ok(ret)
            },
        }
    }

    fn delete(&mut self, name: &str) -> (r: Result<bool, RegistryError>)
        ensures
            final(self)@ == spec_remove(old(self)@, name@),
            (r matches Ok(b) && b == spec_contains_name(old(self)@, name@)),
    {
        match find_index(&self.ifaces, name) {
            Some(i) => {
                proof {
                    lemma_lookup_at_first_match(self@, name@, i as int);
                    lemma_remove_at_first_match(self@, name@, i as int);
                }
                self.ifaces.remove(i);
                proof {
                    assert(self@ =~= old(self)@.remove(i as int));
                }
                Ok(true)
            },
            None => {
                proof {
                    lemma_lookup_no_match(self@, name@);
                    lemma_remove_no_match(self@, name@);
                }
                Ok(false)
            },
        }
    }

    fn get(&self, name: &str) -> (r: Result<Option<Interface>, RegistryError>)
        ensures
            (match r {
                Ok(Some(i)) => spec_lookup(self@, name@) == Some(i@),
                Ok(None) => spec_lookup(self@, name@) is None,
                Err(_) => false,
            }),
    {
        match find_index(&self.ifaces, name) {
            Some(i) => {
                proof {
                    lemma_lookup_at_first_match(self@, name@, i as int);
                }
                Ok(Some(self.ifaces[i].clone()))
            },
            None => {
                proof {
                    lemma_lookup_no_match(self@, name@);
                }
                Ok(None)
            },
        }
    }

    fn modify(&self, iface: Interface) -> (r: Result<bool, RegistryError>)
        ensures
            (r matches Err(RegistryError::Unimplemented { operation: op, name: m }) && op@
                == "modify"@ && m@ == iface@.name),
    {
        Err(RegistryError::Unimplemented {
            operation: String::from_str("modify"),
            name: iface.name().to_owned(),
        })
    }
}

} // verus!
