use mumble_core::state::{ChannelStateUpdate, StateCache, UserStateUpdate};

/// Channel updates create and then update cached channel data.
#[test]
fn channel_state_adds_and_updates() {
    let mut cache = StateCache::new();

    cache.apply_channel_state(ChannelStateUpdate {
        id: 1,
        name: Some(String::from("Lobby")),
        parent_id: None,
    });

    let channel = cache.channel(1).expect("channel missing");
    assert_eq!(channel.name, "Lobby");
    assert_eq!(channel.parent_id, None);

    cache.apply_channel_state(ChannelStateUpdate {
        id: 1,
        name: Some(String::from("Main")),
        parent_id: Some(2),
    });

    let channel = cache.channel(1).expect("channel missing");
    assert_eq!(channel.name, "Main");
    assert_eq!(channel.parent_id, Some(2));
}

/// User updates populate fields and apply subsequent changes.
#[test]
fn user_state_adds_and_updates() {
    let mut cache = StateCache::new();

    cache.apply_user_state(UserStateUpdate {
        id: 10,
        name: Some(String::from("Alice")),
        channel_id: Some(1),
        muted: Some(false),
        deafened: Some(false),
        talking: Some(false),
    });

    let user = cache.user(10).expect("user missing");
    assert_eq!(user.name, "Alice");
    assert_eq!(user.channel_id, 1);
    assert!(!user.muted);
    assert!(!user.deafened);

    cache.apply_user_state(UserStateUpdate {
        id: 10,
        name: None,
        channel_id: Some(2),
        muted: Some(true),
        deafened: None,
        talking: Some(true),
    });

    let user = cache.user(10).expect("user missing");
    assert_eq!(user.name, "Alice");
    assert_eq!(user.channel_id, 2);
    assert!(user.muted);
    assert!(!user.deafened);
    assert!(user.talking);
}

/// Missing flags do not overwrite prior values when updates are partial.
#[test]
fn user_state_ignores_missing_flags() {
    let mut cache = StateCache::new();

    cache.apply_user_state(UserStateUpdate {
        id: 12,
        name: Some(String::from("Pat")),
        channel_id: Some(1),
        muted: Some(false),
        deafened: Some(true),
        talking: Some(false),
    });

    cache.apply_user_state(UserStateUpdate {
        id: 12,
        name: None,
        channel_id: None,
        muted: None,
        deafened: None,
        talking: None,
    });

    let user = cache.user(12).expect("user missing");
    assert!(!user.muted);
    assert!(user.deafened);
    assert!(!user.talking);
}

/// Removing a user deletes the cached entry.
#[test]
fn user_remove_deletes_user() {
    let mut cache = StateCache::new();

    cache.apply_user_state(UserStateUpdate {
        id: 11,
        name: Some(String::from("Eve")),
        channel_id: Some(1),
        muted: None,
        deafened: None,
        talking: None,
    });

    assert!(cache.user(11).is_some());

    cache.apply_user_remove(11);
    assert!(cache.user(11).is_none());
}

/// Channel and user snapshots are sorted by identifier.
#[test]
fn channels_and_users_return_sorted_snapshots() {
    let mut cache = StateCache::new();

    cache.apply_channel_state(ChannelStateUpdate {
        id: 2,
        name: Some(String::from("Second")),
        parent_id: None,
    });
    cache.apply_channel_state(ChannelStateUpdate {
        id: 1,
        name: Some(String::from("First")),
        parent_id: None,
    });

    cache.apply_user_state(UserStateUpdate {
        id: 20,
        name: Some(String::from("Zed")),
        channel_id: Some(1),
        muted: Some(false),
        deafened: Some(false),
        talking: Some(false),
    });
    cache.apply_user_state(UserStateUpdate {
        id: 10,
        name: Some(String::from("Ann")),
        channel_id: Some(1),
        muted: Some(false),
        deafened: Some(false),
        talking: Some(false),
    });

    let channels = cache.channels();
    assert_eq!(channels[0].id, 1);
    assert_eq!(channels[1].id, 2);

    let users = cache.users();
    assert_eq!(users[0].id, 10);
    assert_eq!(users[1].id, 20);
}

/// A channel update without a name keeps the name a prior update stored.
#[test]
fn channel_state_keeps_absent_fields() {
    let mut cache = StateCache::new();

    cache.apply_channel_state(ChannelStateUpdate {
        id: 3,
        name: Some(String::from("Ops")),
        parent_id: Some(1),
    });
    cache.apply_channel_state(ChannelStateUpdate { id: 3, name: None, parent_id: None });

    let channel = cache.channel(3).expect("channel missing");
    assert_eq!(channel.name, "Ops");
    assert_eq!(channel.parent_id, Some(1));
}

/// A channel created by an update without a name starts with an empty
/// name and no parent.
#[test]
fn channel_state_fresh_defaults() {
    let mut cache = StateCache::new();

    cache.apply_channel_state(ChannelStateUpdate { id: 9, name: None, parent_id: None });

    let channel = cache.channel(9).expect("channel missing");
    assert_eq!(channel.name, "");
    assert_eq!(channel.parent_id, None);
}

/// A user created by an update without fields starts from the fresh
/// baseline: placeholder name, channel 0, all flags false.
#[test]
fn user_state_fresh_defaults() {
    let mut cache = StateCache::new();

    cache.apply_user_state(UserStateUpdate {
        id: 8,
        name: None,
        channel_id: None,
        muted: None,
        deafened: None,
        talking: None,
    });

    let user = cache.user(8).expect("user missing");
    assert_eq!(user.name, "Unknown");
    assert_eq!(user.channel_id, 0);
    assert!(!user.muted);
    assert!(!user.deafened);
    assert!(!user.talking);
}

/// Removing an id that is not cached is a no-op.
#[test]
fn user_remove_absent_is_noop() {
    let mut cache = StateCache::new();

    cache.apply_user_state(UserStateUpdate {
        id: 4,
        name: Some(String::from("Kim")),
        channel_id: Some(1),
        muted: None,
        deafened: None,
        talking: None,
    });

    cache.apply_user_remove(99);

    assert!(cache.user(4).is_some());
    assert_eq!(cache.users().len(), 1);
}

/// Updating an existing id never duplicates its record in the snapshot.
#[test]
fn updates_do_not_duplicate_records() {
    let mut cache = StateCache::new();

    cache.apply_channel_state(ChannelStateUpdate {
        id: 5,
        name: Some(String::from("One")),
        parent_id: None,
    });
    cache.apply_channel_state(ChannelStateUpdate {
        id: 5,
        name: Some(String::from("Two")),
        parent_id: None,
    });

    let channels = cache.channels();
    assert_eq!(channels.len(), 1);
    assert_eq!(channels[0].name, "Two");
}

/// Lookup by id misses without panicking.
#[test]
fn lookup_misses_return_none() {
    let cache = StateCache::new();
    assert!(cache.channel(1).is_none());
    assert!(cache.user(1).is_none());
}
