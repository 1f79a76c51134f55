//! The double Ctrl+C chord detector and the bookkeeping of its keyboard hook.
//!
//! The operating system delivers key-down events to a low-level hook; the
//! detector decides, for each event, whether to pass it on, to swallow it, or
//! to fire the chord. Timestamps are milliseconds on a monotonic clock.
use vstd::prelude::*;

verus! {

/// Length of the chord window in milliseconds: a second Ctrl+C less than this
/// long after the reference press fires the chord.
pub const CHORD_WINDOW_MS: u64 = 1000;

/// Win32 `HC_ACTION`: the hook code of an event the hook must act upon.
pub const HC_ACTION: i32 = 0;

/// Win32 `WM_KEYDOWN`: the message of a non-system key press.
pub const WM_KEYDOWN: u32 = 0x0100;

/// Win32 virtual-key code of the C key.
pub const VK_C: u32 = 0x43;

/// Errors of the chord feature.
#[derive(Clone, Copy, Debug, PartialEq, Eq, Structural)]
pub enum HotkeyError {
    /// The operating system refused to install the hook.
    HookRegistrationFailed,
    /// A hook is already registered; at most one may be active.
    AlreadyRegistered,
    /// The clipboard held no text to read.
    ClipboardUnavailable,
    /// No window with the target label is open.
    WindowNotFound,
    /// The window refused to evaluate the script.
    ScriptEvaluationFailed,
}

/// What the hook does with one keyboard event.
#[derive(Clone, Copy, Debug, PartialEq, Eq, Structural)]
pub enum HookAction {
    /// Not for the detector: hand the event to the next hook in the chain.
    PassThrough,
    /// A Ctrl+C that armed the detector or restarted its window.
    Swallow,
    /// The second Ctrl+C of a chord: read the clipboard and submit it.
    Fire,
}

/// The registration of the low-level keyboard hook: the operating system's
/// handle while a hook is installed.
#[derive(Clone, Copy, Debug)]
pub struct MyHotkey {
    pub h_hook: Option<usize>,
}

/// The detector's state: whether a first Ctrl+C has been seen, the time of
/// the press the window is measured from, and the hook registration.
#[derive(Clone, Copy, Debug)]
pub struct PressInfo {
    pub ctrl_c_pressed: bool,
    pub last_press_time: u64,
    pub hot_key: MyHotkey,
}

/// Time from `since` to `now`, zero when `now` reads earlier than `since`.
pub open spec fn elapsed_ms(since: u64, now: u64) -> nat {
    if now >= since {
        (now - since) as nat
    } else {
        0
    }
}

/// Whether a Ctrl+C at time `now` completes a chord.
pub open spec fn chord_fires(p: PressInfo, now: u64) -> bool {
    p.ctrl_c_pressed && elapsed_ms(p.last_press_time, now) < CHORD_WINDOW_MS
}

/// The state after a Ctrl+C at time `now`. A press that fires leaves the
/// state as it was, armed and measured from the same press; any other press
/// arms the detector and measures from `now`.
pub open spec fn after_press(p: PressInfo, now: u64) -> PressInfo {
    if chord_fires(p, now) {
        p
    } else {
        PressInfo { ctrl_c_pressed: true, last_press_time: now, ..p }
    }
}

/// Whether an event is a key-down of C with Ctrl held.
pub open spec fn is_ctrl_c_down(n_code: i32, w_param: u32, vk_code: u32, ctrl_down: bool) -> bool {
    n_code == HC_ACTION && w_param == WM_KEYDOWN && vk_code == VK_C && ctrl_down
}

/// Whether the detector handles an event: a hook is registered and the event
/// is a Ctrl+C key-down.
pub open spec fn handles_event(
    p: PressInfo,
    n_code: i32,
    w_param: u32,
    vk_code: u32,
    ctrl_down: bool,
) -> bool {
    p.hot_key.h_hook is Some && is_ctrl_c_down(n_code, w_param, vk_code, ctrl_down)
}

/// The action the hook takes on an event.
pub open spec fn callback_action(
    p: PressInfo,
    n_code: i32,
    w_param: u32,
    vk_code: u32,
    ctrl_down: bool,
    now: u64,
) -> HookAction {
    if !handles_event(p, n_code, w_param, vk_code, ctrl_down) {
        HookAction::PassThrough
    } else if chord_fires(p, now) {
        HookAction::Fire
    } else {
        HookAction::Swallow
    }
}

/// The state after the hook has seen an event.
pub open spec fn callback_state(
    p: PressInfo,
    n_code: i32,
    w_param: u32,
    vk_code: u32,
    ctrl_down: bool,
    now: u64,
) -> PressInfo {
    if handles_event(p, n_code, w_param, vk_code, ctrl_down) {
        after_press(p, now)
    } else {
        p
    }
}

/// Two Ctrl+C presses less than a chord window apart fire exactly once: one of
/// the two presses fires and the other does not. Left out are the states in
/// which an earlier chord already armed the detector so that both presses
/// would fire against that earlier reference press.
pub proof fn lemma_close_presses_fire_once(p: PressInfo, t1: u64, t2: u64)
    requires
        t1 <= t2,
        t2 - t1 < CHORD_WINDOW_MS,
        !(chord_fires(p, t1) && chord_fires(p, t2)),
    ensures
        chord_fires(p, t1) != chord_fires(after_press(p, t1), t2),
{
}

/// A second Ctrl+C a chord window or more after the first does not fire: it
/// leaves the detector armed and measuring from its own time. Left out are
/// the same states as for close presses, where both presses would fire
/// against an earlier reference press read from a clock that ran backwards.
pub proof fn lemma_distant_press_restarts_window(p: PressInfo, t1: u64, t2: u64)
    requires
        t1 as int + CHORD_WINDOW_MS <= t2,
        !(chord_fires(p, t1) && chord_fires(p, t2)),
    ensures
        !chord_fires(after_press(p, t1), t2),
        after_press(after_press(p, t1), t2).ctrl_c_pressed,
        after_press(after_press(p, t1), t2).last_press_time == t2,
{
}

/// Once the hook is unregistered, no event reaches the detector: every event
/// passes through to the next hook and the state stays as it was.
pub proof fn lemma_unregistered_hook_ignores_events(
    p: PressInfo,
    n_code: i32,
    w_param: u32,
    vk_code: u32,
    ctrl_down: bool,
    now: u64,
)
    requires
        p.hot_key.h_hook is None,
    ensures
        callback_action(p, n_code, w_param, vk_code, ctrl_down, now) == HookAction::PassThrough,
        callback_state(p, n_code, w_param, vk_code, ctrl_down, now) == p,
{
}

impl MyHotkey {
    /// A registration with no hook installed.
    pub fn new() -> (r: MyHotkey)
        ensures
            r.h_hook is None,
    {
        MyHotkey { h_hook: None }
    }

    pub fn is_registered(&self) -> (r: bool)
        ensures
            r == self.h_hook is Some,
    {
        self.h_hook.is_some()
    }

    /// Records the handle that installing the hook returned; a null handle
    /// (zero) means the operating system refused the hook.
    pub fn reg_hotkey(&mut self, hook: usize) -> (r: Result<(), HotkeyError>)
        ensures
            hook == 0 ==> r == Err::<(), HotkeyError>(HotkeyError::HookRegistrationFailed),
            hook != 0 && old(self).h_hook is Some ==> r == Err::<(), HotkeyError>(
                HotkeyError::AlreadyRegistered,
            ),
            hook != 0 && old(self).h_hook is None ==> r is Ok,
            r is Ok ==> final(self).h_hook == Some(hook),
            r is Err ==> *final(self) == *old(self),
    {
        if hook == 0 {
            return Err(HotkeyError::HookRegistrationFailed);
        }
        if self.h_hook.is_some() {
            return Err(HotkeyError::AlreadyRegistered);
        }
        self.h_hook = Some(hook);
        Ok(())
    }

    /// Forgets the registered hook and hands back its handle for release;
    /// `None` where no hook was registered.
    pub fn unreg_hotkey(&mut self) -> (r: Option<usize>)
        ensures
            r == old(self).h_hook,
            final(self).h_hook is None,
    {
        let h = self.h_hook;
        self.h_hook = None;
        h
    }
}

impl PressInfo {
    /// An idle detector with no hook registered.
    pub fn new() -> (r: PressInfo)
        ensures
            !r.ctrl_c_pressed,
            r.last_press_time == 0,
            r.hot_key.h_hook is None,
    {
        PressInfo { ctrl_c_pressed: false, last_press_time: 0, hot_key: MyHotkey::new() }
    }

    /// Takes a Ctrl+C pressed at time `now`; returns whether it completes a
    /// chord.
    pub fn handle_copy(&mut self, now: u64) -> (fire: bool)
        ensures
            fire == chord_fires(*old(self), now),
            *final(self) == after_press(*old(self), now),
    {
        if self.ctrl_c_pressed {
            let elapsed = if now >= self.last_press_time {
                now - self.last_press_time
            } else {
                0
            };
            if elapsed < CHORD_WINDOW_MS {
                return true;
            }
            self.last_press_time = now;
        } else {
            self.ctrl_c_pressed = true;
            self.last_press_time = now;
        }
        false
    }

    /// Takes one keyboard event as the hook receives it: its hook code, its
    /// message, the key's virtual-key code, whether Ctrl is held, and the time.
    pub fn keyboard_hook_callback(
        &mut self,
        n_code: i32,
        w_param: u32,
        vk_code: u32,
        ctrl_down: bool,
        now: u64,
    ) -> (r: HookAction)
        ensures
            r == callback_action(*old(self), n_code, w_param, vk_code, ctrl_down, now),
            *final(self) == callback_state(*old(self), n_code, w_param, vk_code, ctrl_down, now),
    {
        if self.hot_key.is_registered() && n_code == HC_ACTION && w_param == WM_KEYDOWN
            && vk_code == VK_C && ctrl_down {
            if self.handle_copy(now) {
                HookAction::Fire
            } else {
                HookAction::Swallow
            }
        } else {
            HookAction::PassThrough
        }
    }
}

} // verus!
