use vstd::prelude::*;
use crate::address::Address;
use crate::address_map::AddressMap;

verus! {

/// What the directory knows of a worker.
#[derive(Debug, PartialEq, Eq)]
pub struct WorkerProfile {
    pub name: Vec<u8>,
    pub email: Vec<u8>,
    pub active: bool,
    /// When the worker was registered.
    pub registered_at: u64,
}

/// What a worker's profile says.
pub struct WorkerRecord {
    pub name: Seq<u8>,
    pub email: Seq<u8>,
    pub active: bool,
    pub registered_at: u64,
}

impl WorkerProfile {
    pub open spec fn view(&self) -> WorkerRecord {
        WorkerRecord {
            name: self.name@,
            email: self.email@,
            active: self.active,
            registered_at: self.registered_at,
        }
    }

    /// A copy of the profile.
    pub fn duplicate(&self) -> (copy: WorkerProfile)
        ensures
            copy@ == self@,
    {
        let name = self.name.clone();
        let email = self.email.clone();
        assert(name@ =~= self.name@);
        assert(email@ =~= self.email@);
        WorkerProfile { name, email, active: self.active, registered_at: self.registered_at }
    }
}

impl Clone for WorkerProfile {
    fn clone(&self) -> (copy: Self)
        ensures
            copy@ == self@,
    {
        self.duplicate()
    }
}

/// The state of a worker directory.
#[verifier::ext_equal]
pub struct RegistryState {
    /// Who may register and update workers.
    pub admin: Option<Address>,
    /// The profiles, by the worker's address.
    pub workers: Map<Address, WorkerRecord>,
}

impl RegistryState {
    /// The state of a new directory: not initialized, no workers.
    pub open spec fn initial() -> RegistryState {
        RegistryState { admin: None, workers: Map::empty() }
    }

    /// The state with the given administrator that holds the profile of
    /// `worker` and no other.
    pub open spec fn holding(admin: Option<Address>, worker: Option<(Address, WorkerRecord)>)
        -> RegistryState {
        RegistryState {
            admin,
            workers: match worker {
                Some(entry) => Map::<Address, WorkerRecord>::empty().insert(entry.0, entry.1),
                None => Map::<Address, WorkerRecord>::empty(),
            },
        }
    }
}

/// The worker directory: profiles of workers, kept by an administrator. It
/// has no part in how funds move.
pub struct WorkforceRegistry {
    admin: Option<Address>,
    workers: AddressMap<WorkerProfile>,
}

impl WorkforceRegistry {
    /// The state of the directory.
    pub closed spec fn view(&self) -> RegistryState {
        RegistryState {
            admin: self.admin,
            workers: self.workers@.map_values(|profile: WorkerProfile| profile@),
        }
    }

    /// A new directory: not initialized, with no workers.
    pub fn new() -> (registry: Self)
        ensures
            registry@ == RegistryState::initial(),
    {
        let registry = WorkforceRegistry { admin: None, workers: AddressMap::new() };
        assert(registry@.workers =~= Map::<Address, WorkerRecord>::empty());
        registry
    }

    /// The directory with the given administrator that holds the profile of
    /// `worker` and no other: a part of a directory that was put away, with
    /// the one profile that the next operation is about.
    pub fn restore(admin: Option<Address>, worker: Option<(Address, WorkerProfile)>) -> (registry:
        Self)
        ensures
            registry@ == RegistryState::holding(
                admin,
                match worker {
                    Some(entry) => Some((entry.0, entry.1@)),
                    None => None,
                },
            ),
    {
        let mut workers: AddressMap<WorkerProfile> = AddressMap::new();
        let ghost mut expected: Map<Address, WorkerRecord> = Map::empty();
        match worker {
            Some(entry) => {
                proof {
                    expected = expected.insert(entry.0, entry.1@);
                }
                workers.insert(entry.0, entry.1);
            },
            None => {},
        }
        assert(workers@.map_values(|profile: WorkerProfile| profile@) =~= expected);
        WorkforceRegistry { admin, workers }
    }

    /// Whether an administrator is set.
    pub fn is_initialized(&self) -> (r: bool)
        ensures
            r == self@.admin is Some,
    {
        self.admin.is_some()
    }

    /// Whether `caller` is the administrator.
    pub fn is_admin(&self, caller: Address) -> (r: bool)
        ensures
            r == (self@.admin == Some(caller)),
    {
        match self.admin {
            Some(admin) => admin == caller,
            None => false,
        }
    }

    /// Whether a profile is kept for `worker`.
    pub fn has_worker(&self, worker: Address) -> (r: bool)
        ensures
            r == self@.workers.contains_key(worker),
    {
        self.workers.contains_key(worker)
    }

    /// Makes `admin` the administrator of a directory that has none.
    pub fn initialize(&mut self, admin: Address)
        requires
            old(self)@.admin is None,
        ensures
            final(self)@ == (RegistryState { admin: Some(admin), ..old(self)@ }),
    {
        self.admin = Some(admin);
    }

    /// The administrator of an initialized directory.
    pub fn get_admin(&self) -> (admin: Address)
        requires
            self@.admin is Some,
        ensures
            self@.admin == Some(admin),
    {
        self.admin.unwrap()
    }

    /// Registers `worker` as of `now`, active, under the given name and
    /// e-mail address, in place of any profile kept for that worker. The
    /// caller must be the administrator.
    pub fn register_worker(
        &mut self,
        caller: Address,
        worker: Address,
        name: Vec<u8>,
        email: Vec<u8>,
        now: u64,
    )
        requires
            old(self)@.admin == Some(caller),
        ensures
            final(self)@ == (RegistryState {
                workers: old(self)@.workers.insert(
                    worker,
                    WorkerRecord { name: name@, email: email@, active: true, registered_at: now },
                ),
                ..old(self)@
            }),
    {
        let profile = WorkerProfile { name, email, active: true, registered_at: now };
        let ghost before = self.workers@;
        let ghost record = profile@;
        self.workers.insert(worker, profile);
        assert(self.workers@.map_values(|profile: WorkerProfile| profile@) =~= before.map_values(
            |profile: WorkerProfile| profile@,
        ).insert(worker, record));
    }

    /// Replaces name, e-mail address and activity of a registered worker,
    /// and keeps the time of registration. The caller must be the
    /// administrator.
    pub fn update_worker(
        &mut self,
        caller: Address,
        worker: Address,
        name: Vec<u8>,
        email: Vec<u8>,
        active: bool,
    )
        requires
            old(self)@.admin == Some(caller),
            old(self)@.workers.contains_key(worker),
        ensures
            final(self)@ == (RegistryState {
                workers: old(self)@.workers.insert(
                    worker,
                    WorkerRecord {
                        name: name@,
                        email: email@,
                        active,
                        registered_at: old(self)@.workers[worker].registered_at,
                    },
                ),
                ..old(self)@
            }),
    {
        let registered_at: u64 = self.workers.get(worker).unwrap().registered_at;
        let profile = WorkerProfile { name, email, active, registered_at };
        let ghost before = self.workers@;
        let ghost record = profile@;
        self.workers.insert(worker, profile);
        assert(self.workers@.map_values(|profile: WorkerProfile| profile@) =~= before.map_values(
            |profile: WorkerProfile| profile@,
        ).insert(worker, record));
    }

    /// The profile kept for `worker`, if there is one.
    pub fn get_worker(&self, worker: Address) -> (r: Option<WorkerProfile>)
        ensures
            match r {
                Some(profile) => self@.workers.contains_key(worker) && profile@
                    == self@.workers[worker],
                None => !self@.workers.contains_key(worker),
            },
    {
        match self.workers.get(worker) {
            Some(profile) => Some(profile.duplicate()),
            None => None,
        }
    }
}

} // verus!
