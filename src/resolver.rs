//! The resolver: per-name records, an address and text entries. Every write
//! asks the registry who owns the name at that moment; nothing is cached.
use vstd::prelude::*;
use crate::address::{is_authorized, Address, Digest};
use crate::registry::{record_at, Record, Registry};
use crate::table::{copy_bytes, DigestMap, TextMap};

verus! {

/// The longest text key, in bytes.
pub const MAX_TEXT_KEY_LEN: usize = 256;

#[derive(Clone, Copy, Debug, PartialEq, Eq, Structural)]
pub enum ResolverError {
    NotInitialized,
    AlreadyInitialized,
    NotOwner,
    InvalidInput,
    /// The caller did not authorize the invocation.
    Unauthorized,
}

#[derive(Clone, Copy, Debug, PartialEq, Eq)]
pub struct EvtAddressChanged {
    pub namehash: Digest,
    pub addr: Address,
}

#[derive(Clone, Debug, PartialEq, Eq)]
pub struct EvtTextChanged {
    pub namehash: Digest,
    pub key: Vec<u8>,
}

/// Text keys hold 1 to 256 bytes.
pub open spec fn text_key_ok(key: Seq<u8>) -> bool {
    0 < key.len() <= MAX_TEXT_KEY_LEN
}

/// Whether `caller` owns node `n` in the registry right now.
pub open spec fn owns(reg: Map<Seq<u8>, Record>, n: Seq<u8>, caller: Address) -> bool {
    record_at(reg, n).owner == Some(caller)
}

pub struct ResolverView {
    pub registry: Option<Address>,
    pub addrs: Map<Seq<u8>, Address>,
    pub texts: Map<(Seq<u8>, Seq<u8>), Seq<u8>>,
}

/// The checks of an address write.
pub open spec fn set_addr_check(s: ResolverView, reg: Map<Seq<u8>, Record>, signers: Seq<Address>, caller: Address, n: Seq<u8>) -> Result<(), ResolverError> {
    if !signers.contains(caller) {
        Err(ResolverError::Unauthorized)
    } else if s.registry is None {
        Err(ResolverError::NotInitialized)
    } else if !owns(reg, n, caller) {
        Err(ResolverError::NotOwner)
    } else {
        Ok(())
    }
}

/// The checks of a text write.
pub open spec fn set_text_check(s: ResolverView, reg: Map<Seq<u8>, Record>, signers: Seq<Address>, caller: Address, n: Seq<u8>, key: Seq<u8>) -> Result<(), ResolverError> {
    if !signers.contains(caller) {
        Err(ResolverError::Unauthorized)
    } else if !text_key_ok(key) {
        Err(ResolverError::InvalidInput)
    } else if s.registry is None {
        Err(ResolverError::NotInitialized)
    } else if !owns(reg, n, caller) {
        Err(ResolverError::NotOwner)
    } else {
        Ok(())
    }
}

pub struct Resolver {
    registry: Option<Address>,
    addrs: DigestMap<Address>,
    texts: TextMap,
}

impl Resolver {
    pub closed spec fn view(&self) -> ResolverView {
        ResolverView { registry: self.registry, addrs: self.addrs@, texts: self.texts@ }
    }

    /// A resolver not yet initialized, with no records.
    pub fn new() -> (r: Resolver)
        ensures
            r@ == (ResolverView { registry: None, addrs: Map::empty(), texts: Map::empty() }),
    {
        Resolver { registry: None, addrs: DigestMap::new(), texts: TextMap::new() }
    }

    pub fn version() -> (r: u32)
        ensures
            r == 1,
    {
        1
    }

    /// One-time setup: the registry that decides who owns a name.
    pub fn init(&mut self, registry: Address) -> (r: Result<(), ResolverError>)
        ensures
            old(self)@.registry is Some ==> r == Err::<(), ResolverError>(ResolverError::AlreadyInitialized)
                && final(self)@ == old(self)@,
            old(self)@.registry is None ==> r == Ok::<(), ResolverError>(())
                && final(self)@ == (ResolverView { registry: Some(registry), ..old(self)@ }),
    {
        if self.registry.is_some() {
            return Err(ResolverError::AlreadyInitialized);
        }
        self.registry = Some(registry);
        Ok(())
    }

    /// The address recorded for `namehash`.
    pub fn addr(&self, namehash: &Digest) -> (r: Result<Option<Address>, ResolverError>)
        ensures
            r == (if self@.registry is None {
                Err::<Option<Address>, ResolverError>(ResolverError::NotInitialized)
            } else if self@.addrs.contains_key(namehash@) {
                Ok(Some(self@.addrs[namehash@]))
            } else {
                Ok(None)
            }),
    {
        if self.registry.is_none() {
            return Err(ResolverError::NotInitialized);
        }
        Ok(self.addrs.get(namehash))
    }

    /// The text recorded for `namehash` under `key`.
    pub fn text(&self, namehash: &Digest, key: &Vec<u8>) -> (r: Result<Option<Vec<u8>>, ResolverError>)
        ensures
            self@.registry is None ==> r == Err::<Option<Vec<u8>>, ResolverError>(ResolverError::NotInitialized),
            self@.registry is Some && !text_key_ok(key@) ==> r == Err::<Option<Vec<u8>>, ResolverError>(ResolverError::InvalidInput),
            self@.registry is Some && text_key_ok(key@) ==> r is Ok && match r->Ok_0 {
                Some(v) => self@.texts.contains_key((namehash@, key@)) && v@ == self@.texts[(namehash@, key@)],
                None => !self@.texts.contains_key((namehash@, key@)),
            },
    {
        if self.registry.is_none() {
            return Err(ResolverError::NotInitialized);
        }
        if key.len() == 0 || key.len() > MAX_TEXT_KEY_LEN {
            return Err(ResolverError::InvalidInput);
        }
        Ok(self.texts.get(namehash, key))
    }

    /// Whether `caller` owns `namehash` in `registry` at this moment.
    fn require_owner(&self, registry: &Registry, caller: &Address, namehash: &Digest) -> (r: Result<(), ResolverError>)
        ensures
            r == (if self@.registry is None {
                Err::<(), ResolverError>(ResolverError::NotInitialized)
            } else if !owns(registry@, namehash@, *caller) {
                Err(ResolverError::NotOwner)
            } else {
                Ok(())
            }),
    {
        if self.registry.is_none() {
            return Err(ResolverError::NotInitialized);
        }
        match registry.owner(namehash) {
            Ok(o) => if o == *caller {
                Ok(())
            } else {
                Err(ResolverError::NotOwner)
            },
            Err(_) => Err(ResolverError::NotOwner),
        }
    }

    /// Records `addr` for `namehash`; only its current owner may.
    pub fn set_addr(&mut self, registry: &Registry, signers: &Vec<Address>, caller: Address, namehash: Digest, addr: Address) -> (r: Result<EvtAddressChanged, ResolverError>)
        ensures
            match set_addr_check(old(self)@, registry@, signers@, caller, namehash@) {
                Err(e) => r == Err::<EvtAddressChanged, ResolverError>(e) && final(self)@ == old(self)@,
                Ok(_) => r == Ok::<EvtAddressChanged, ResolverError>((EvtAddressChanged { namehash, addr }))
                    && final(self)@ == (ResolverView { addrs: old(self)@.addrs.insert(namehash@, addr), ..old(self)@ }),
            },
    {
        if !is_authorized(signers, &caller) {
            return Err(ResolverError::Unauthorized);
        }
        if let Err(e) = self.require_owner(registry, &caller, &namehash) {
            return Err(e);
        }
        self.addrs.insert(namehash, addr);
        Ok(EvtAddressChanged { namehash, addr })
    }

    /// Records `value` for `namehash` under `key`; only its current owner may.
    pub fn set_text(&mut self, registry: &Registry, signers: &Vec<Address>, caller: Address, namehash: Digest, key: Vec<u8>, value: Vec<u8>) -> (r: Result<EvtTextChanged, ResolverError>)
        ensures
            match set_text_check(old(self)@, registry@, signers@, caller, namehash@, key@) {
                Err(e) => r == Err::<EvtTextChanged, ResolverError>(e) && final(self)@ == old(self)@,
                Ok(_) => r is Ok && r->Ok_0.namehash == namehash && r->Ok_0.key@ == key@
                    && final(self)@ == (ResolverView { texts: old(self)@.texts.insert((namehash@, key@), value@), ..old(self)@ }),
            },
    {
        if !is_authorized(signers, &caller) {
            return Err(ResolverError::Unauthorized);
        }
        if key.len() == 0 || key.len() > MAX_TEXT_KEY_LEN {
            return Err(ResolverError::InvalidInput);
        }
        if let Err(e) = self.require_owner(registry, &caller, &namehash) {
            return Err(e);
        }
        let event_key = copy_bytes(&key);
        self.texts.insert(namehash, key, value);
        Ok(EvtTextChanged { namehash, key: event_key })
    }

    /// The address of the registry this resolver consults.
    pub fn registry(&self) -> (r: Result<Address, ResolverError>)
        ensures
            r == (match self@.registry {
                Some(a) => Ok::<Address, ResolverError>(a),
                None => Err(ResolverError::NotInitialized),
            }),
    {
        match self.registry {
            Some(a) => Ok(a),
            None => Err(ResolverError::NotInitialized),
        }
    }
}

} // verus!
