//! Lid and tray events: how window messages become events, and the queue
//! that carries them to the main loop.
use vstd::prelude::*;

use std::sync::mpsc::{Receiver, TryRecvError};

verus! {

/// `WM_POWERBROADCAST`.
pub const WM_POWERBROADCAST: u32 = 0x0218;

/// `PBT_POWERSETTINGCHANGE`, the `wparam` of a power-setting change.
pub const PBT_POWERSETTINGCHANGE: u32 = 0x8013;

/// `WM_USER`, the first message number free for applications.
pub const WM_USER: u32 = 0x0400;

/// The message the tray icon sends back to the watcher window.
pub const WM_TRAYICON: u32 = WM_USER + 1;

/// `WM_LBUTTONDBLCLK`.
pub const WM_LBUTTONDBLCLK: u32 = 0x0203;

/// `GUID_LIDSWITCH_STATE_CHANGE`, as one 128-bit number.
pub const GUID_LIDSWITCH_STATE_CHANGE: u128 = 0xBA3E0F4D_B817_4094_A2D1_D56379E6A0F3;

/// `ERROR_ALREADY_EXISTS`: a named object was already there.
pub const ERROR_ALREADY_EXISTS: i32 = 183;

/// Something that happened to the lid or the tray icon.
#[derive(Debug, Clone, Copy, PartialEq, Eq, Structural)]
pub enum PowerEvent {
    LidClosed,
    LidOpened,
    /// The tray icon was double-clicked, or a second instance asked for the window.
    TrayDoubleClick,
}

/// What the watcher window does with a message.
#[derive(Debug, Clone, Copy, PartialEq, Eq, Structural)]
pub enum MessageRoute {
    /// A power-setting change: read the setting and answer zero.
    PowerSettingChange,
    /// A message from the tray icon: answer zero.
    TrayIcon,
    /// Anything else goes to the default window procedure.
    Default,
}

/// The route of message `msg` with word parameter `wparam`.
pub open spec fn message_route(msg: u32, wparam: usize) -> MessageRoute {
    if msg == WM_POWERBROADCAST && wparam as u32 == PBT_POWERSETTINGCHANGE {
        MessageRoute::PowerSettingChange
    } else if msg == WM_TRAYICON {
        MessageRoute::TrayIcon
    } else {
        MessageRoute::Default
    }
}

/// Decides where the watcher window sends a message.
pub fn route_message(msg: u32, wparam: usize) -> (r: MessageRoute)
    ensures
        r == message_route(msg, wparam),
{
    #[verifier::truncate]
    let code = wparam as u32;
    if msg == WM_POWERBROADCAST && code == PBT_POWERSETTINGCHANGE {
        MessageRoute::PowerSettingChange
    } else if msg == WM_TRAYICON {
        MessageRoute::TrayIcon
    } else {
        MessageRoute::Default
    }
}

/// Whether a power-setting change is about the lid switch; only then does
/// the notification carry the lid's state.
pub fn is_lid_switch(power_setting: u128) -> (r: bool)
    ensures
        r == (power_setting == GUID_LIDSWITCH_STATE_CHANGE),
        r == lid_switch_event_spec(power_setting, 0) is Some,
{
    power_setting == GUID_LIDSWITCH_STATE_CHANGE
}

/// The event of a power-setting change: only the lid switch setting counts;
/// a nonzero state means the lid is open.
pub open spec fn lid_switch_event_spec(power_setting: u128, state: u32) -> Option<PowerEvent> {
    if power_setting == GUID_LIDSWITCH_STATE_CHANGE {
        if state != 0 {
            Some(PowerEvent::LidOpened)
        } else {
            Some(PowerEvent::LidClosed)
        }
    } else {
        None
    }
}

/// The event that a power-setting change stands for, if any.
pub fn lid_switch_event(power_setting: u128, state: u32) -> (r: Option<PowerEvent>)
    ensures
        r == lid_switch_event_spec(power_setting, state),
{
    if power_setting == GUID_LIDSWITCH_STATE_CHANGE {
        if state != 0 {
            Some(PowerEvent::LidOpened)
        } else {
            Some(PowerEvent::LidClosed)
        }
    } else {
        None
    }
}

/// The event of a tray-icon message: the mouse message sits in the low
/// 32 bits of `lparam`, and only a double click counts.
pub open spec fn tray_icon_event_spec(lparam: isize) -> Option<PowerEvent> {
    if lparam as u32 == WM_LBUTTONDBLCLK {
        Some(PowerEvent::TrayDoubleClick)
    } else {
        None
    }
}

/// The event that a tray-icon message stands for, if any.
pub fn tray_icon_event(lparam: isize) -> (r: Option<PowerEvent>)
    ensures
        r == tray_icon_event_spec(lparam),
{
    #[verifier::truncate]
    let mouse = lparam as u32;
    if mouse == WM_LBUTTONDBLCLK {
        Some(PowerEvent::TrayDoubleClick)
    } else {
        None
    }
}

/// Only a left double click on the tray icon is an event: the event is a tray
/// double click exactly when the low 32 bits of `lparam` are
/// `WM_LBUTTONDBLCLK`, and every other mouse message gives no event.
pub proof fn lemma_tray_icon_event_only_double_click(lparam: isize)
    ensures
        tray_icon_event_spec(lparam) is Some <==> (lparam as u32) == 0x0203u32,
        tray_icon_event_spec(lparam) is Some ==> tray_icon_event_spec(lparam) == Some(
            PowerEvent::TrayDoubleClick,
        ),
{
}

/// Only the lid switch setting is an event: it is an event exactly when the
/// setting is `GUID_LIDSWITCH_STATE_CHANGE`, the lid opened when the state is
/// nonzero and closed when it is zero.
pub proof fn lemma_lid_switch_event_by_state(power_setting: u128, state: u32)
    ensures
        lid_switch_event_spec(power_setting, state) is Some <==> power_setting
            == 0xBA3E0F4D_B817_4094_A2D1_D56379E6A0F3u128,
        power_setting == 0xBA3E0F4D_B817_4094_A2D1_D56379E6A0F3u128 && state != 0
            ==> lid_switch_event_spec(power_setting, state) == Some(PowerEvent::LidOpened),
        power_setting == 0xBA3E0F4D_B817_4094_A2D1_D56379E6A0F3u128 && state == 0
            ==> lid_switch_event_spec(power_setting, state) == Some(PowerEvent::LidClosed),
{
}

/// A power broadcast is a power-setting change exactly when the low 32 bits
/// of its word parameter are `PBT_POWERSETTINGCHANGE`; the tray icon's message
/// goes to the tray handling; every other message goes to the default
/// window procedure.
pub proof fn lemma_message_routes(msg: u32, wparam: usize)
    ensures
        message_route(msg, wparam) == MessageRoute::PowerSettingChange <==> (msg == 0x0218u32
            && (wparam as u32) == 0x8013u32),
        message_route(msg, wparam) == MessageRoute::TrayIcon <==> msg == 0x0401u32,
        message_route(msg, wparam) == MessageRoute::Default <==> !(msg == 0x0218u32 && (wparam as u32)
            == 0x8013u32) && msg != 0x0401u32,
{
}

/// The message, word parameter and long parameter that a second instance
/// posts to the first one's watcher window.
pub fn existing_instance_signal() -> (r: (u32, usize, isize))
    ensures
        r == (WM_TRAYICON, 1usize, WM_LBUTTONDBLCLK as isize),
{
    (WM_TRAYICON, 1, 0x0203)
}

/// The signal that a second instance posts reaches the first one as a tray
/// double click.
pub proof fn lemma_signal_is_tray_double_click()
    ensures
        ({
            let (msg, wparam, lparam) = (WM_TRAYICON, 1usize, WM_LBUTTONDBLCLK as isize);
            &&& message_route(msg, wparam) == MessageRoute::TrayIcon
            &&& tray_icon_event_spec(lparam) == Some(PowerEvent::TrayDoubleClick)
        }),
{
    assert((1usize as u32) == 1u32) by (bit_vector);
    assert((0x0203isize as u32) == 0x0203u32) by (bit_vector);
}

/// Whether creating the single-instance mutex found it already there, from
/// the last OS error code.
pub fn instance_already_running(last_os_error: Option<i32>) -> (r: bool)
    ensures
        r == (last_os_error == Some(ERROR_ALREADY_EXISTS)),
{
    match last_os_error {
        Some(code) => code == ERROR_ALREADY_EXISTS,
        None => false,
    }
}

/// The tray icon's tooltip buffer: the first 128 UTF-16 units of `text`,
/// zeros after it.
pub fn tray_tip(text: &[u16]) -> (r: [u16; 128])
    ensures
        forall|i: int| 0 <= i < 128 ==> #[trigger] r@[i] == (if i < text@.len() { text@[i] } else { 0u16 }),
{
    let mut r: [u16; 128] = [0u16; 128];
    let n = if text.len() < 128 { text.len() } else { 128 };
    let mut i: usize = 0;
    while i < n
        invariant
            n <= 128,
            n <= text@.len(),
            n == text@.len() || n == 128,
            i <= n,
            r@.len() == 128,
            forall|j: int| 0 <= j < 128 ==> #[trigger] r@[j] == (if j < i { text@[j] } else { 0u16 }),
        decreases n - i,
    {
        r[i] = text[i];
        i = i + 1;
    }
    r
}

#[verifier::external_type_specification]
#[verifier::external_body]
#[verifier::reject_recursive_types(T)]
pub struct ExReceiver<T>(Receiver<T>);

#[verifier::external_type_specification]
#[verifier::external_body]
pub struct ExTryRecvError(TryRecvError);

/// Calls `std::sync::mpsc::Receiver::try_recv`, which returns at once with a
/// value that another thread sent, or an error when none is waiting or every
/// sender is gone. Which of these comes back depends on the other threads,
/// so nothing is stated of the result.
#[verifier::external_body]
fn receive_waiting(receiver: &Receiver<PowerEvent>) -> Result<PowerEvent, TryRecvError> {
    receiver.try_recv()
}

/// The event in the outcome of a receive; none when nothing was waiting.
pub fn received_event(outcome: Result<PowerEvent, TryRecvError>) -> (r: Option<PowerEvent>)
    ensures
        match outcome {
            Ok(e) => r == Some(e),
            Err(_) => r is None,
        },
{
    match outcome {
        Ok(e) => Some(e),
        Err(_) => None,
    }
}

/// The receiving end of the queue that the watcher thread fills.
pub struct PowerWatcher {
    receiver: Receiver<PowerEvent>,
}

impl PowerWatcher {
    /// The queue that this watcher reads from.
    pub closed spec fn source(&self) -> Receiver<PowerEvent> {
        self.receiver
    }

    /// A watcher reading from `receiver`.
    pub fn new(receiver: Receiver<PowerEvent>) -> (w: PowerWatcher)
        ensures
            w.source() == receiver,
    {
        PowerWatcher { receiver }
    }

    /// The next waiting event, if one is waiting; never blocks.
    pub fn try_recv(&self) -> (r: Option<PowerEvent>) {
        received_event(receive_waiting(&self.receiver))
    }
}

} // verus!
