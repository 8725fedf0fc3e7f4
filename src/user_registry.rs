//! Account roles and the delivery devices that accounts own.
use vstd::prelude::*;

use crate::encoding::{blake2_256, blake2_256_of, push_u32, push_u64, u32_field, u64_field};
use crate::table::Table;
use crate::{AccountId, BlockNumber, Hash256};

verus! {

/// The most devices one account may own.
pub const MAX_DEVICES: usize = 10;

/// The reputation a new profile starts with.
pub const INITIAL_REPUTATION: u32 = 100;

#[derive(Clone, Copy, Debug, PartialEq, Eq, Structural)]
pub enum UserRole {
    Consumer,
    Prosumer,
    GridOperator,
    Admin,
}

#[derive(Clone, Debug, PartialEq, Eq)]
pub struct UserProfile {
    pub role: UserRole,
    pub devices: Vec<Hash256>,
    pub active: bool,
    pub reputation_score: u32,
    pub registration_date: BlockNumber,
}

#[derive(Clone, Copy, Debug, PartialEq, Eq, Structural)]
pub struct Device {
    pub owner: AccountId,
    pub device_type: DeviceType,
    pub max_capacity: u32,
    pub active: bool,
    pub registration_date: BlockNumber,
}

#[derive(Clone, Copy, Debug, PartialEq, Eq, Structural)]
pub enum DeviceType {
    SolarPanel,
    Battery,
    SmartMeter,
    Other,
}

#[derive(Clone, Copy, Debug, PartialEq, Eq)]
pub enum Event {
    UserRegistered { account: AccountId, role: UserRole },
    DeviceRegistered { device_id: Hash256, owner: AccountId, device_type: DeviceType },
    UserUpdated { account: AccountId },
    DeviceUpdated { device_id: Hash256 },
}

#[derive(Clone, Copy, Debug, PartialEq, Eq, Structural)]
pub enum Error {
    UserAlreadyRegistered,
    UserNotFound,
    DeviceAlreadyRegistered,
    DeviceNotFound,
    Unauthorized,
    InvalidRole,
    TooManyDevices,
}

pub open spec fn device_type_field(t: DeviceType) -> Seq<u8> {
    match t {
        DeviceType::SolarPanel => seq![0u8],
        DeviceType::Battery => seq![1u8],
        DeviceType::SmartMeter => seq![2u8],
        DeviceType::Other => seq![3u8],
    }
}

/// The canonical encoding of a device as it is registered (active).
pub open spec fn device_encoding(
    owner: AccountId,
    device_type: DeviceType,
    max_capacity: u32,
    registration_date: BlockNumber,
) -> Seq<u8> {
    u64_field(owner) + (device_type_field(device_type) + (u32_field(max_capacity) + (seq![1u8]
        + u64_field(registration_date))))
}

pub open spec fn device_id_of(
    owner: AccountId,
    device_type: DeviceType,
    max_capacity: u32,
    registration_date: BlockNumber,
) -> Seq<u8> {
    blake2_256_of(device_encoding(owner, device_type, max_capacity, registration_date))
}

/// The canonical encoding of a device as it is registered.
pub fn encode_device(owner: AccountId, device_type: DeviceType, max_capacity: u32, now: BlockNumber) -> (r: Vec<u8>)
    ensures
        r@ == device_encoding(owner, device_type, max_capacity, now),
{
    let mut out: Vec<u8> = Vec::new();
    push_u64(&mut out, owner);
    match device_type {
        DeviceType::SolarPanel => out.push(0u8),
        DeviceType::Battery => out.push(1u8),
        DeviceType::SmartMeter => out.push(2u8),
        DeviceType::Other => out.push(3u8),
    }
    push_u32(&mut out, max_capacity);
    out.push(1u8);
    push_u64(&mut out, now);
    assert(out@ =~= device_encoding(owner, device_type, max_capacity, now));
    out
}

pub open spec fn may_own_devices(role: UserRole) -> bool {
    role == UserRole::Prosumer || role == UserRole::GridOperator
}

/// Profiles by account and devices by identifier.
pub struct Pallet {
    profiles: Table<AccountId, UserProfile>,
    devices: Table<Hash256, Device>,
}

impl Pallet {
    pub closed spec fn wf(&self) -> bool {
        &&& self.profiles.wf()
        &&& self.devices.wf()
        &&& forall|a: AccountId|
            #[trigger] self.profiles@.contains_key(a) ==> self.profiles@[a].devices@.len() <= MAX_DEVICES
    }

    pub closed spec fn profile_map(&self) -> Map<AccountId, UserProfile> {
        self.profiles@
    }

    pub closed spec fn device_map(&self) -> Map<Seq<u8>, Device> {
        self.devices@
    }

    /// The identifiers of the devices an account owns, in registration order.
    pub open spec fn devices_of(&self, a: AccountId) -> Seq<Seq<u8>> {
        self.profile_map()[a].devices@.map_values(|h: Hash256| h@)
    }

    pub fn new() -> (r: Self)
        ensures
            r.wf(),
            r.profile_map() == Map::<AccountId, UserProfile>::empty(),
            r.device_map() == Map::<Seq<u8>, Device>::empty(),
    {
        Pallet { profiles: Table::new(), devices: Table::new() }
    }

    pub fn user_profiles(&self, a: AccountId) -> (r: Option<&UserProfile>)
        requires
            self.wf(),
        ensures
            match r {
                Some(p) => self.profile_map().contains_key(a) && *p == self.profile_map()[a]
                    && p.devices@.len() <= MAX_DEVICES,
                None => !self.profile_map().contains_key(a),
            },
    {
        self.profiles.get(&a)
    }

    pub fn devices(&self, id: &Hash256) -> (r: Option<Device>)
        requires
            self.wf(),
        ensures
            match r {
                Some(d) => self.device_map().contains_key(id@) && d == self.device_map()[id@],
                None => !self.device_map().contains_key(id@),
            },
    {
        match self.devices.get(id) {
            Some(d) => Some(*d),
            None => None,
        }
    }

    /// Creates the profile of an account that has none: active, with no
    /// devices and the initial reputation.
    pub fn register_user(&mut self, account: AccountId, role: UserRole, now: BlockNumber) -> (r: Result<Event, Error>)
        requires
            old(self).wf(),
        ensures
            final(self).wf(),
            final(self).device_map() == old(self).device_map(),
            old(self).profile_map().contains_key(account) ==> r == Err::<Event, Error>(
                Error::UserAlreadyRegistered,
            ) && *final(self) == *old(self),
            !old(self).profile_map().contains_key(account) ==> {
                let p = final(self).profile_map()[account];
                &&& r == Ok::<Event, Error>(Event::UserRegistered { account, role })
                &&& final(self).profile_map().dom() == old(self).profile_map().dom().insert(account)
                &&& forall|a: AccountId|
                    a != account && #[trigger] old(self).profile_map().contains_key(a)
                        ==> final(self).profile_map()[a] == old(self).profile_map()[a]
                &&& p.role == role
                &&& p.devices@.len() == 0
                &&& p.active
                &&& p.reputation_score == INITIAL_REPUTATION
                &&& p.registration_date == now
            },
    {
        if self.profiles.contains(&account) {
            return Err(Error::UserAlreadyRegistered);
        }
        let profile = UserProfile {
            role,
            devices: Vec::new(),
            active: true,
            reputation_score: INITIAL_REPUTATION,
            registration_date: now,
        };
        self.profiles.insert(account, profile);
        Ok(Event::UserRegistered { account, role })
    }

    /// Why `register_device(owner, ..)` is refused here, if it is.
    pub open spec fn device_error(
        &self,
        owner: AccountId,
        device_type: DeviceType,
        max_capacity: u32,
        now: BlockNumber,
    ) -> Option<Error> {
        if !self.profile_map().contains_key(owner) {
            Some(Error::UserNotFound)
        } else if !may_own_devices(self.profile_map()[owner].role) {
            Some(Error::Unauthorized)
        } else if self.device_map().contains_key(device_id_of(owner, device_type, max_capacity, now)) {
            Some(Error::DeviceAlreadyRegistered)
        } else if self.profile_map()[owner].devices@.len() >= MAX_DEVICES {
            Some(Error::TooManyDevices)
        } else {
            None
        }
    }

    /// Registers an active device for a prosumer or grid operator and adds it
    /// to the owner's device list.
    pub fn register_device(
        &mut self,
        owner: AccountId,
        device_type: DeviceType,
        max_capacity: u32,
        now: BlockNumber,
    ) -> (r: Result<Event, Error>)
        requires
            old(self).wf(),
        ensures
            final(self).wf(),
            match old(self).device_error(owner, device_type, max_capacity, now) {
                Some(e) => r == Err::<Event, Error>(e) && *final(self) == *old(self),
                None => {
                    let id = device_id_of(owner, device_type, max_capacity, now);
                    let p = old(self).profile_map()[owner];
                    let q = final(self).profile_map()[owner];
                    &&& r matches Ok(Event::DeviceRegistered { device_id, owner: o, device_type: t })
                        && device_id@ == id && o == owner && t == device_type
                    &&& final(self).device_map() == old(self).device_map().insert(
                        id,
                        Device { owner, device_type, max_capacity, active: true, registration_date: now },
                    )
                    &&& final(self).profile_map().dom() == old(self).profile_map().dom()
                    &&& forall|a: AccountId|
                        a != owner && #[trigger] old(self).profile_map().contains_key(a)
                            ==> final(self).profile_map()[a] == old(self).profile_map()[a]
                    &&& final(self).devices_of(owner) == old(self).devices_of(owner).push(id)
                    &&& q.role == p.role && q.active == p.active && q.reputation_score
                        == p.reputation_score && q.registration_date == p.registration_date
                },
            },
    {
        let i = match self.profiles.position(&owner) {
            Some(i) => i,
            None => {
                return Err(Error::UserNotFound);
            },
        };
        let p = &self.profiles.entry(i).1;
        match p.role {
            UserRole::Prosumer | UserRole::GridOperator => {},
            _ => {
                return Err(Error::Unauthorized);
            },
        }
        let device_id = blake2_256(&encode_device(owner, device_type, max_capacity, now));
        if self.devices.contains(&device_id) {
            return Err(Error::DeviceAlreadyRegistered);
        }
        if p.devices.len() >= MAX_DEVICES {
            return Err(Error::TooManyDevices);
        }
        let ghost before = self.profiles@;
        let device = Device { owner, device_type, max_capacity, active: true, registration_date: now };
        self.devices.insert(device_id, device);
        let p = self.profiles.value_mut(i);
        p.devices.push(device_id);
        proof {
            assert(self.devices_of(owner) =~= old(self).devices_of(owner).push(device_id@));
        }
        Ok(Event::DeviceRegistered { device_id, owner, device_type })
    }

    /// Why `update_user_role(caller, account, ..)` is refused here, if it is.
    pub open spec fn role_update_error(&self, caller: AccountId, account: AccountId) -> Option<Error> {
        if !self.profile_map().contains_key(caller) {
            Some(Error::UserNotFound)
        } else if self.profile_map()[caller].role != UserRole::Admin {
            Some(Error::Unauthorized)
        } else if !self.profile_map().contains_key(account) {
            Some(Error::UserNotFound)
        } else {
            None
        }
    }

    /// An admin overwrites the role of a registered account.
    pub fn update_user_role(&mut self, caller: AccountId, account: AccountId, new_role: UserRole) -> (r: Result<Event, Error>)
        requires
            old(self).wf(),
        ensures
            final(self).wf(),
            final(self).device_map() == old(self).device_map(),
            match old(self).role_update_error(caller, account) {
                Some(e) => r == Err::<Event, Error>(e) && *final(self) == *old(self),
                None => r == Ok::<Event, Error>(Event::UserUpdated { account })
                    && final(self).profile_map() == old(self).profile_map().insert(
                    account,
                    UserProfile { role: new_role, ..old(self).profile_map()[account] },
                ),
            },
    {
        match self.profiles.get(&caller) {
            None => {
                return Err(Error::UserNotFound);
            },
            Some(p) => {
                if p.role != UserRole::Admin {
                    return Err(Error::Unauthorized);
                }
            },
        }
        let i = match self.profiles.position(&account) {
            Some(i) => i,
            None => {
                return Err(Error::UserNotFound);
            },
        };
        let p = self.profiles.value_mut(i);
        p.role = new_role;
        Ok(Event::UserUpdated { account })
    }
}

} // verus!
