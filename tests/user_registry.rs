use energy_market::user_registry::{DeviceType, Error, Event, Pallet, UserRole, MAX_DEVICES};

#[test]
fn register_user_works() {
    let mut registry = Pallet::new();
    let account = 1;
    let role = UserRole::Prosumer;

    assert_eq!(registry.register_user(account, role, 1), Ok(Event::UserRegistered { account, role }));

    let profile = registry.user_profiles(account).unwrap();
    assert_eq!(profile.role, role);
    assert_eq!(profile.devices.len(), 0);
    assert!(profile.active);
    assert_eq!(profile.reputation_score, 100);
}

#[test]
fn register_device_works() {
    let mut registry = Pallet::new();
    let account = 1;
    let device_type = DeviceType::SolarPanel;
    let max_capacity = 1000;

    assert!(registry.register_user(account, UserRole::Prosumer, 1).is_ok());
    let device_id = match registry.register_device(account, device_type, max_capacity, 1) {
        Ok(Event::DeviceRegistered { device_id, .. }) => device_id,
        other => panic!("unexpected result {:?}", other),
    };

    let device = registry.devices(&device_id).unwrap();
    assert_eq!(device.owner, account);
    assert_eq!(device.device_type, device_type);
    assert_eq!(device.max_capacity, max_capacity);
    assert!(device.active);

    let profile = registry.user_profiles(account).unwrap();
    assert!(profile.devices.contains(&device_id));
}

#[test]
fn register_device_fails_for_consumer() {
    let mut registry = Pallet::new();
    let account = 1;
    let admin = 2;

    // Register user as consumer
    assert!(registry.register_user(account, UserRole::Consumer, 1).is_ok());
    let before = registry.user_profiles(account).unwrap().clone();

    assert_eq!(
        registry.register_device(account, DeviceType::SolarPanel, 1000, 1),
        Err(Error::Unauthorized)
    );
    assert_eq!(registry.user_profiles(account), Some(&before));

    // No device was stored: once allowed, the same device registers as new.
    assert!(registry.register_user(admin, UserRole::Admin, 1).is_ok());
    assert!(registry.update_user_role(admin, account, UserRole::Prosumer).is_ok());
    assert!(registry.register_device(account, DeviceType::SolarPanel, 1000, 1).is_ok());
    assert_eq!(registry.user_profiles(account).unwrap().devices.len(), 1);
}

#[test]
fn update_user_role_works() {
    let mut registry = Pallet::new();
    let admin = 1;
    let user = 2;
    let new_role = UserRole::Prosumer;

    assert!(registry.register_user(admin, UserRole::Admin, 1).is_ok());
    assert!(registry.register_user(user, UserRole::Consumer, 1).is_ok());
    assert_eq!(registry.update_user_role(admin, user, new_role), Ok(Event::UserUpdated { account: user }));

    let profile = registry.user_profiles(user).unwrap();
    assert_eq!(profile.role, new_role);
}

#[test]
fn register_user_twice_is_refused() {
    let mut registry = Pallet::new();
    assert!(registry.register_user(5, UserRole::Consumer, 1).is_ok());
    assert_eq!(registry.register_user(5, UserRole::Admin, 2), Err(Error::UserAlreadyRegistered));
    assert_eq!(registry.user_profiles(5).unwrap().role, UserRole::Consumer);
}

#[test]
fn register_device_without_profile_is_refused() {
    let mut registry = Pallet::new();
    assert_eq!(registry.register_device(9, DeviceType::Battery, 5, 1), Err(Error::UserNotFound));
}

#[test]
fn same_device_fields_collide() {
    let mut registry = Pallet::new();
    assert!(registry.register_user(1, UserRole::GridOperator, 1).is_ok());
    assert!(registry.register_device(1, DeviceType::SmartMeter, 50, 3).is_ok());
    assert_eq!(
        registry.register_device(1, DeviceType::SmartMeter, 50, 3),
        Err(Error::DeviceAlreadyRegistered)
    );
    assert!(registry.register_device(1, DeviceType::SmartMeter, 50, 4).is_ok());
    assert_eq!(registry.user_profiles(1).unwrap().devices.len(), 2);
}

#[test]
fn device_list_is_bounded() {
    let mut registry = Pallet::new();
    assert!(registry.register_user(1, UserRole::Prosumer, 1).is_ok());
    for i in 0..MAX_DEVICES as u32 {
        assert!(registry.register_device(1, DeviceType::Battery, i, 1).is_ok());
    }
    assert_eq!(registry.register_device(1, DeviceType::Battery, 99, 1), Err(Error::TooManyDevices));
    assert_eq!(registry.user_profiles(1).unwrap().devices.len(), MAX_DEVICES);
}

#[test]
fn role_update_needs_an_admin_and_a_target() {
    let mut registry = Pallet::new();
    assert_eq!(registry.update_user_role(1, 2, UserRole::Admin), Err(Error::UserNotFound));
    assert!(registry.register_user(1, UserRole::Prosumer, 1).is_ok());
    assert_eq!(registry.update_user_role(1, 1, UserRole::Admin), Err(Error::Unauthorized));
    assert!(registry.register_user(3, UserRole::Admin, 1).is_ok());
    assert_eq!(registry.update_user_role(3, 2, UserRole::Admin), Err(Error::UserNotFound));
    assert!(registry.update_user_role(3, 1, UserRole::Consumer).is_ok());
    assert_eq!(registry.user_profiles(1).unwrap().role, UserRole::Consumer);
}
