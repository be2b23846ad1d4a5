use elfo_core::addr::Addr;
use elfo_core::envelope::{Envelope, MessageKind};
use elfo_core::object::ObjectMeta;
use elfo_core::permissions::{AtomicPermissions, Permissions};
use elfo_core::rate_limiter::RateLimiter;
use elfo_core::trace_id::{TraceId, TraceIdGenerator};

#[test]
fn null_address_is_reserved() {
    assert!(Addr::null().is_null());
    assert_eq!(Addr::null().into_bits(), usize::MAX);
    assert!(!Addr::from_bits(0).is_null());
    assert!(!Addr::from_bits(usize::MAX - 1).is_null());
    assert_eq!(Addr::from_bits(usize::MAX), Addr::null());
}

#[test]
fn address_round_trips() {
    assert_eq!(Addr::from_bits(12).into_bits(), 12);
    assert_ne!(Addr::from_bits(12), Addr::from_bits(13));
}

#[test]
fn trace_id_round_trips() {
    assert_eq!(TraceId::from_bits(0xfeed).into_bits(), 0xfeed);
    assert_ne!(TraceId::from_bits(1), TraceId::from_bits(2));
}

#[test]
fn generator_hands_out_one_token_after_the_other() {
    let mut ids = TraceIdGenerator::starting_at(5);
    assert_eq!(ids.generate(), TraceId::from_bits(5));
    assert_eq!(ids.generate(), TraceId::from_bits(6));
    assert_eq!(ids.generate(), TraceId::from_bits(7));
}

#[test]
fn generator_starts_over_after_the_last_token() {
    let mut ids = TraceIdGenerator::starting_at(u64::MAX - 1);
    assert_eq!(ids.generate(), TraceId::from_bits(u64::MAX - 1));
    assert_eq!(ids.generate(), TraceId::from_bits(u64::MAX));
    assert_eq!(ids.generate(), TraceId::from_bits(0));
    assert_eq!(ids.generate(), TraceId::from_bits(1));
}

#[test]
fn message_kind_names_its_sender() {
    let regular = MessageKind::Regular { sender: Addr::from_bits(3) };
    let request = MessageKind::Request { sender: Addr::from_bits(4), token: 11 };
    assert_eq!(regular.sender(), Addr::from_bits(3));
    assert_eq!(request.sender(), Addr::from_bits(4));
}

#[test]
fn envelope_holds_message_and_kind() {
    let kind = MessageKind::Request { sender: Addr::from_bits(4), token: 11 };
    let envelope = Envelope::new("ping".to_string(), kind);
    assert_eq!(envelope.message(), "ping");
    assert_eq!(envelope.kind(), kind);
    assert_eq!(envelope.sender(), Addr::from_bits(4));
    assert_eq!(envelope.into_message(), "ping");
}

#[test]
fn object_meta_holds_group_and_key() {
    let meta = ObjectMeta::new("telemeters".to_string(), None);
    assert_eq!(meta.group, "telemeters");
    assert_eq!(meta.key, None);
    let keyed = ObjectMeta::new("workers".to_string(), Some("7".to_string()));
    assert_eq!(keyed.key.as_deref(), Some("7"));
}

#[test]
fn permissions_round_trip() {
    assert_eq!(Permissions::from_bits(0b1001).into_bits(), 0b1001);
    assert_eq!(Permissions::from_bits(0), Permissions { bits: 0 });
}

#[test]
fn store_publishes_the_latest_permissions() {
    let store = AtomicPermissions::new(Permissions::from_bits(1));
    assert_eq!(store.load(), Permissions::from_bits(1));
    store.store(Permissions::from_bits(u32::MAX));
    assert_eq!(store.load(), Permissions::from_bits(u32::MAX));
    store.store(Permissions::from_bits(0));
    assert_eq!(store.load(), Permissions::from_bits(0));
}

#[test]
fn limiter_grants_its_budget_once_per_period() {
    let limiter = RateLimiter::new(3);
    assert_eq!(limiter.limit(), 3);
    assert!(limiter.acquire());
    assert!(limiter.acquire());
    assert!(limiter.acquire());
    assert!(!limiter.acquire());
    assert!(!limiter.acquire());

    limiter.reset();
    assert!(limiter.acquire());
}

#[test]
fn limiter_without_budget_grants_nothing() {
    let limiter = RateLimiter::new(0);
    assert!(!limiter.acquire());
    limiter.reset();
    assert!(!limiter.acquire());
}

#[test]
fn limiter_has_room_below_its_limit() {
    let limiter = RateLimiter::new(3);
    assert!(limiter.has_room(0));
    assert!(limiter.has_room(2));
    assert!(!limiter.has_room(3));
    assert!(!limiter.has_room(u64::MAX));
    assert!(!RateLimiter::new(0).has_room(0));
    assert!(RateLimiter::new(u64::MAX).has_room(u64::MAX - 1));
}
