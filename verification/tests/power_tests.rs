use std::sync::mpsc::channel;

use windows_duo::power::{
    existing_instance_signal, instance_already_running, is_lid_switch, tray_tip, lid_switch_event, route_message,
    tray_icon_event, MessageRoute, PowerEvent, PowerWatcher, GUID_LIDSWITCH_STATE_CHANGE,
    PBT_POWERSETTINGCHANGE, WM_POWERBROADCAST, WM_TRAYICON,
};

#[test]
fn messages_are_routed() {
    assert_eq!(route_message(0x0218, 0x8013), MessageRoute::PowerSettingChange);
    assert_eq!(route_message(WM_POWERBROADCAST, 0x1_0000_8013), MessageRoute::PowerSettingChange);
    assert_eq!(route_message(WM_POWERBROADCAST, 0x000A), MessageRoute::Default);
    assert_eq!(route_message(0x0401, 0), MessageRoute::TrayIcon);
    assert_eq!(route_message(0x0010, PBT_POWERSETTINGCHANGE as usize), MessageRoute::Default);
}

#[test]
fn lid_switch_state_gives_the_event() {
    assert_eq!(lid_switch_event(GUID_LIDSWITCH_STATE_CHANGE, 1), Some(PowerEvent::LidOpened));
    assert_eq!(lid_switch_event(GUID_LIDSWITCH_STATE_CHANGE, 0), Some(PowerEvent::LidClosed));
    assert_eq!(lid_switch_event(0xBA3E0F4D_B817_4094_A2D1_D56379E6A0F4, 1), None);
    assert!(is_lid_switch(GUID_LIDSWITCH_STATE_CHANGE));
    assert!(!is_lid_switch(0));
}

#[test]
fn only_double_clicks_count_on_the_tray_icon() {
    assert_eq!(tray_icon_event(0x0203), Some(PowerEvent::TrayDoubleClick));
    assert_eq!(tray_icon_event(0x1_0000_0203), Some(PowerEvent::TrayDoubleClick));
    assert_eq!(tray_icon_event(0x0201), None);
}

#[test]
fn second_instance_signal_is_a_double_click() {
    let (msg, wparam, lparam) = existing_instance_signal();
    assert_eq!(msg, WM_TRAYICON);
    assert_eq!(route_message(msg, wparam), MessageRoute::TrayIcon);
    assert_eq!(tray_icon_event(lparam), Some(PowerEvent::TrayDoubleClick));
}

#[test]
fn already_exists_error_means_another_instance() {
    assert!(instance_already_running(Some(183)));
    assert!(!instance_already_running(Some(0)));
    assert!(!instance_already_running(None));
}

#[test]
fn watcher_hands_out_sent_events_in_order() {
    let (tx, rx) = channel();
    let watcher = PowerWatcher::new(rx);
    assert_eq!(watcher.try_recv(), None);
    tx.send(PowerEvent::LidClosed).unwrap();
    tx.send(PowerEvent::LidOpened).unwrap();
    assert_eq!(watcher.try_recv(), Some(PowerEvent::LidClosed));
    assert_eq!(watcher.try_recv(), Some(PowerEvent::LidOpened));
    assert_eq!(watcher.try_recv(), None);
    drop(tx);
    assert_eq!(watcher.try_recv(), None);
}

#[test]
fn tray_tip_is_cut_to_the_buffer_and_zero_filled() {
    let short: Vec<u16> = "Duo\0".encode_utf16().collect();
    let tip = tray_tip(&short);
    assert_eq!(&tip[..4], &short[..]);
    assert!(tip[4..].iter().all(|&u| u == 0));

    let long: Vec<u16> = (1..=200).collect();
    let tip = tray_tip(&long);
    assert_eq!(&tip[..], &long[..128]);
}
