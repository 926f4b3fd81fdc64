use embedded_services::type_c::event::{
    PortEvent, PortNotification, PortNotificationSingle, PortPending, PortStatusChanged, VdmNotification,
};

#[test]
fn test_port_event_flags_iter() {
    let mut pending = PortPending::none();

    pending.pend_port(0);
    pending.pend_port(1);
    pending.pend_port(2);
    pending.pend_port(10);
    pending.pend_port(23);
    pending.pend_port(31);

    let mut iter = pending.into_iter();
    assert_eq!(iter.next(), Some(0));
    assert_eq!(iter.next(), Some(1));
    assert_eq!(iter.next(), Some(2));
    assert_eq!(iter.next(), Some(10));
    assert_eq!(iter.next(), Some(23));
    assert_eq!(iter.next(), Some(31));
    assert_eq!(iter.next(), None);
}

#[test]
fn test_port_notification_iter_all() {
    let mut notification = PortNotification::none();
    notification.set_alert(true);
    notification.set_custom_mode_entered(true);

    assert_eq!(notification.next(), Some(PortNotificationSingle::Alert));
    assert_eq!(notification.next(), Some(PortNotificationSingle::Vdm(VdmNotification::Entered)));
    assert_eq!(notification.next(), None);
}

#[test]
fn test_port_notification_iter_alert() {
    let mut notification = PortNotification::none();
    notification.set_alert(true);

    assert_eq!(notification.next(), Some(PortNotificationSingle::Alert));
    assert_eq!(notification.next(), None);
}

#[test]
fn test_port_notification_iter_custom_mode_entered() {
    let mut notification = PortNotification::none();
    notification.set_custom_mode_entered(true);

    assert_eq!(notification.next(), Some(PortNotificationSingle::Vdm(VdmNotification::Entered)));
    assert_eq!(notification.next(), None);
}

#[test]
fn test_port_notification_iter_custom_mode_exited() {
    let mut notification = PortNotification::none();
    notification.set_custom_mode_exited(true);

    assert_eq!(notification.next(), Some(PortNotificationSingle::Vdm(VdmNotification::Exited)));
    assert_eq!(notification.next(), None);
}

#[test]
fn test_port_notification_iter_custom_mode_attention_received() {
    let mut notification = PortNotification::none();
    notification.set_custom_mode_attention_received(true);

    assert_eq!(
        notification.next(),
        Some(PortNotificationSingle::Vdm(VdmNotification::AttentionReceived))
    );
    assert_eq!(notification.next(), None);
}

#[test]
fn test_port_notification_iter_custom_mode_other_vdm_received() {
    let mut notification = PortNotification::none();
    notification.set_custom_mode_other_vdm_received(true);

    assert_eq!(notification.next(), Some(PortNotificationSingle::Vdm(VdmNotification::OtherReceived)));
    assert_eq!(notification.next(), None);
}

#[test]
fn test_port_notification_iter_discover_mode_completed() {
    let mut notification = PortNotification::none();
    notification.set_discover_mode_completed(true);

    assert_eq!(notification.next(), Some(PortNotificationSingle::DiscoverModeCompleted));
    assert_eq!(notification.next(), None);
}

#[test]
fn test_port_notification_iter_usb_mux_error_recovery() {
    let mut notification = PortNotification::none();
    notification.set_usb_mux_error_recovery(true);

    assert_eq!(notification.next(), Some(PortNotificationSingle::UsbMuxErrorRecovery));
    assert_eq!(notification.next(), None);
}

#[test]
fn test_port_notification_iter_dp_status_update() {
    let mut notification = PortNotification::none();
    notification.set_dp_status_update(true);

    assert_eq!(notification.next(), Some(PortNotificationSingle::DpStatusUpdate));
    assert_eq!(notification.next(), None);
}

#[test]
fn notification_iter_hands_out_all_events_in_order() {
    let mut notification = PortNotification::none();
    notification.set_dp_status_update(true);
    notification.set_alert(true);
    notification.set_discover_mode_completed(true);
    notification.set_custom_mode_exited(true);
    notification.set_usb_mux_error_recovery(true);
    notification.set_custom_mode_other_vdm_received(true);
    notification.set_custom_mode_attention_received(true);
    notification.set_custom_mode_entered(true);

    assert_eq!(notification.next(), Some(PortNotificationSingle::Alert));
    assert!(!notification.alert());
    assert_eq!(notification.next(), Some(PortNotificationSingle::Vdm(VdmNotification::Entered)));
    assert_eq!(notification.next(), Some(PortNotificationSingle::Vdm(VdmNotification::Exited)));
    assert_eq!(
        notification.next(),
        Some(PortNotificationSingle::Vdm(VdmNotification::AttentionReceived))
    );
    assert_eq!(notification.next(), Some(PortNotificationSingle::Vdm(VdmNotification::OtherReceived)));
    assert_eq!(notification.next(), Some(PortNotificationSingle::DiscoverModeCompleted));
    assert_eq!(notification.next(), Some(PortNotificationSingle::UsbMuxErrorRecovery));
    assert_eq!(notification.next(), Some(PortNotificationSingle::DpStatusUpdate));
    assert_eq!(notification.next(), None);
    assert_eq!(notification, PortNotification::none());
}

#[test]
fn status_flags_set_get_and_union() {
    let mut a = PortStatusChanged::none();
    assert!(!a.plug_inserted_or_removed());
    a.set_plug_inserted_or_removed(true);
    a.set_sink_ready(true);
    assert!(a.plug_inserted_or_removed());
    assert!(a.sink_ready());
    assert!(!a.patch_loaded());
    a.set_sink_ready(false);
    assert!(!a.sink_ready());
    assert!(a.plug_inserted_or_removed());

    let mut b = PortStatusChanged::none();
    b.set_patch_loaded(true);
    b.set_new_power_contract_as_provider(true);
    let u = a.union(b);
    assert!(u.plug_inserted_or_removed());
    assert!(u.patch_loaded());
    assert!(u.new_power_contract_as_provider());
    assert!(!u.new_power_contract_as_consumer());
    assert!(!u.pd_hard_reset());
}

#[test]
fn port_event_union_and_conversions() {
    let mut status = PortStatusChanged::none();
    status.set_alt_mode_entered(true);
    let mut notification = PortNotification::none();
    notification.set_alert(true);

    let from_status = PortEvent::from(status);
    assert_eq!(from_status.status, status);
    assert_eq!(from_status.notification, PortNotification::none());
    let from_notification = PortEvent::from(notification);
    assert_eq!(from_notification.notification, notification);
    assert_eq!(from_notification.status, PortStatusChanged::none());

    let both = from_status.union(from_notification);
    assert!(both.status.alt_mode_entered());
    assert!(both.notification.alert());
    assert_eq!(PortEvent::default(), PortEvent::none());
}

#[test]
fn pending_ports_pend_clear_and_union() {
    let mut pending = PortPending::none();
    assert!(pending.is_none());
    assert_eq!(pending.len(), 32);
    pending.pend_ports(&[3, 5, 31]);
    assert!(!pending.is_none());
    assert!(pending.is_pending(3));
    assert!(pending.is_pending(31));
    assert!(!pending.is_pending(4));
    assert_eq!(u32::from(pending), (1 << 3) | (1 << 5) | (1 << 31));
    pending.clear_port(5);
    assert!(!pending.is_pending(5));

    let other = PortPending::from_iter(&[0, 5]);
    let both = pending.union(other);
    assert_eq!(u32::from(both), 1 | (1 << 3) | (1 << 5) | (1 << 31));

    let mut iter = both.into_iter();
    assert_eq!(iter.next(), Some(0));
    assert_eq!(iter.next(), Some(3));
    assert_eq!(iter.next(), Some(5));
    assert_eq!(iter.next(), Some(31));
    assert_eq!(iter.next(), None);
    assert_eq!(iter.next(), None);
}

#[test]
fn status_default_is_none() {
    let s = PortStatusChanged::default();
    assert_eq!(s, PortStatusChanged::none());
    assert!(!s.plug_inserted_or_removed() && !s.sink_ready() && !s.patch_loaded());
}

#[test]
fn unions_are_commutative_associative_idempotent() {
    let mut a = PortStatusChanged::none();
    a.set_sink_ready(true);
    let mut b = PortStatusChanged::none();
    b.set_patch_loaded(true);
    let mut c = PortStatusChanged::none();
    c.set_pd_hard_reset(true);
    assert_eq!(a.union(b), b.union(a));
    assert_eq!(a.union(b.union(c)), a.union(b).union(c));
    assert_eq!(a.union(a), a);
    assert_eq!(a.union(PortStatusChanged::none()), a);
    assert!(a.union(b).sink_ready() && a.union(b).patch_loaded() && !a.union(b).pd_hard_reset());

    let mut n = PortNotification::none();
    n.set_alert(true);
    let mut m = PortNotification::none();
    m.set_dp_status_update(true);
    assert_eq!(n.union(m), m.union(n));
    assert_eq!(n.union(n), n);
    assert_eq!(n.union(PortNotification::none()), n);
    assert!(n.union(m).alert() && n.union(m).dp_status_update() && !n.union(m).custom_mode_entered());

    let e = PortEvent { status: a, notification: n };
    let f = PortEvent { status: b, notification: m };
    assert_eq!(e.union(f), f.union(e));
    assert_eq!(e.union(f), PortEvent { status: a.union(b), notification: n.union(m) });
    assert_eq!(e.union(PortEvent::none()), e);
}
