use vstd::prelude::*;
use std::collections::HashMap;
use crate::keymap::{convert_keycode_to_macos, macos_keycode};
use crate::types::{KeyboardModifiers, MouseButton, ScreenSize, no_modifiers};

verus! {

broadcast use vstd::std_specs::hash::group_hash_axioms;

/// Why an input operation was refused.
#[derive(Debug, Clone, Copy, PartialEq, Eq, Structural)]
pub enum BackendError {
    /// A press of a button or key that is already tracked as down.
    AlreadyPressed,
    /// A release of a button or key that is not tracked as down.
    NotPressed,
    /// A button with no native equivalent (the scroll directions).
    UnsupportedButton,
    /// The OS handed out no input-event source (usually a missing permission).
    EventSourceUnavailable,
}

/// Native mouse event types.
#[derive(Debug, Clone, Copy, PartialEq, Eq, Structural)]
pub enum MouseEventKind {
    MouseMoved,
    LeftMouseDown,
    LeftMouseUp,
    RightMouseDown,
    RightMouseUp,
    OtherMouseDown,
    OtherMouseUp,
}

/// Native mouse buttons.
#[derive(Debug, Clone, Copy, PartialEq, Eq, Structural)]
pub enum NativeButton {
    Left,
    Center,
    Right,
}

/// A native mouse event to be posted at absolute coordinates.
#[derive(Debug, Clone, Copy, PartialEq, Eq, Structural)]
pub struct MouseEvent {
    pub kind: MouseEventKind,
    pub button: NativeButton,
    pub x: i32,
    pub y: i32,
}

/// A native keyboard event for a macOS virtual keycode.
#[derive(Debug, Clone, Copy, PartialEq, Eq, Structural)]
pub struct KeyEvent {
    pub keycode: u16,
    pub down: bool,
}

/// A native scroll event, in pixel units.
#[derive(Debug, Clone, Copy, PartialEq, Eq, Structural)]
pub struct ScrollEvent {
    pub wheel_count: u32,
    pub delta_y: i32,
    pub delta_x: i32,
}

/// Number of wheels a scroll event reports.
pub const SCROLL_WHEEL_COUNT: u32 = 2;

/// Refresh rate reported for every display.
pub const DEFAULT_RATE: u16 = 60;

/// The display assumed before `init`: 1920x1080 at 60 Hz.
pub open spec fn default_screen_size() -> ScreenSize {
    ScreenSize { width: 1920, height: 1080, rate: 60 }
}

/// The size stored for a display `pixels_wide` by `pixels_high`: each
/// dimension kept to its low 32 bits, at 60 Hz.
pub open spec fn display_size(pixels_wide: u64, pixels_high: u64) -> ScreenSize {
    ScreenSize { width: pixels_wide as u32, height: pixels_high as u32, rate: 60 }
}

/// The event that moves the pointer to (`x`, `y`).
pub open spec fn move_event(x: i32, y: i32) -> MouseEvent {
    MouseEvent { kind: MouseEventKind::MouseMoved, button: NativeButton::Left, x, y }
}

/// The pixel scroll event for the given deltas, over two wheels.
pub open spec fn scroll_event(delta_x: i32, delta_y: i32) -> ScrollEvent {
    ScrollEvent { wheel_count: 2, delta_y, delta_x }
}

/// The X11 code of a mouse button, which keys the pressed-button table.
pub open spec fn button_code(button: MouseButton) -> u8 {
    match button {
        MouseButton::Left => 1,
        MouseButton::Middle => 2,
        MouseButton::Right => 3,
        MouseButton::ScrollUp => 4,
        MouseButton::ScrollDown => 5,
    }
}

/// The X11 code of a mouse button.
pub fn mouse_button_code(button: MouseButton) -> (r: u8)
    ensures
        r == button_code(button),
{
    match button {
        MouseButton::Left => 1,
        MouseButton::Middle => 2,
        MouseButton::Right => 3,
        MouseButton::ScrollUp => 4,
        MouseButton::ScrollDown => 5,
    }
}

/// The native event type and button of a press (`down`) or release of
/// `button`; `None` for the scroll directions, which cannot be pressed.
pub open spec fn native_button_event(button: MouseButton, down: bool) -> Option<
    (MouseEventKind, NativeButton),
> {
    match button {
        MouseButton::Left => Some(
            (if down { MouseEventKind::LeftMouseDown } else { MouseEventKind::LeftMouseUp }, NativeButton::Left),
        ),
        MouseButton::Middle => Some(
            (if down { MouseEventKind::OtherMouseDown } else { MouseEventKind::OtherMouseUp }, NativeButton::Center),
        ),
        MouseButton::Right => Some(
            (if down { MouseEventKind::RightMouseDown } else { MouseEventKind::RightMouseUp }, NativeButton::Right),
        ),
        _ => None,
    }
}

/// Resolve the native event type and button for a press or release.
pub fn native_event_for(button: MouseButton, down: bool) -> (r: Option<(MouseEventKind, NativeButton)>)
    ensures
        r == native_button_event(button, down),
{
    match button {
        MouseButton::Left => Some(
            (if down { MouseEventKind::LeftMouseDown } else { MouseEventKind::LeftMouseUp }, NativeButton::Left),
        ),
        MouseButton::Middle => Some(
            (if down { MouseEventKind::OtherMouseDown } else { MouseEventKind::OtherMouseUp }, NativeButton::Center),
        ),
        MouseButton::Right => Some(
            (if down { MouseEventKind::RightMouseDown } else { MouseEventKind::RightMouseUp }, NativeButton::Right),
        ),
        _ => None,
    }
}

/// What a press (`down`) or release of `button` yields, given the buttons
/// tracked as down, whether the OS gave an event source, and the cursor.
pub open spec fn button_outcome(
    pressed: Set<MouseButton>,
    button: MouseButton,
    down: bool,
    source_ready: bool,
    x: i32,
    y: i32,
) -> Result<MouseEvent, BackendError> {
    if down && pressed.contains(button) {
        Err(BackendError::AlreadyPressed)
    } else if !down && !pressed.contains(button) {
        Err(BackendError::NotPressed)
    } else if !source_ready {
        Err(BackendError::EventSourceUnavailable)
    } else {
        match native_button_event(button, down) {
            Some((kind, native)) => Ok(MouseEvent { kind, button: native, x, y }),
            None => Err(BackendError::UnsupportedButton),
        }
    }
}

/// The native event for pressing (`down`) or releasing the key `keycode`.
pub open spec fn key_event(keycode: u32, down: bool) -> KeyEvent {
    KeyEvent { keycode: macos_keycode(keycode) as u16, down }
}

/// What a press (`down`) or release of `keycode` yields, given the keys
/// tracked as down and whether the OS gave an event source.
pub open spec fn key_outcome(pressed: Set<u32>, keycode: u32, down: bool, source_ready: bool) -> Result<
    KeyEvent,
    BackendError,
> {
    if down && pressed.contains(keycode) {
        Err(BackendError::AlreadyPressed)
    } else if !down && !pressed.contains(keycode) {
        Err(BackendError::NotPressed)
    } else if !source_ready {
        Err(BackendError::EventSourceUnavailable)
    } else {
        Ok(key_event(keycode, down))
    }
}

/// `events` releases each key of `keys` exactly once, in some order.
pub open spec fn releases_each(events: Seq<KeyEvent>, keys: Set<u32>) -> bool {
    exists|order: Seq<u32>|
        #![trigger order.to_set()]
        {
            &&& order.no_duplicates()
            &&& order.to_set() == keys
            &&& events == order.map_values(|k: u32| key_event(k, false))
        }
}

/// The keys down after pressing each of `presses` in turn, from `start`.
pub open spec fn press_all(start: Set<u32>, presses: Seq<u32>) -> Set<u32>
    decreases presses.len(),
{
    if presses.len() == 0 {
        start
    } else {
        press_all(start, presses.drop_last()).insert(presses.last())
    }
}

/// Each of `presses`, made in turn from `start`, was accepted.
pub open spec fn presses_accepted(start: Set<u32>, presses: Seq<u32>) -> bool {
    forall|i: int|
        0 <= i < presses.len() ==> (#[trigger] key_outcome(
            press_all(start, presses.take(i)),
            presses[i],
            true,
            true,
        )) is Ok
}

/// A button press that was accepted, and then recorded, makes a second
/// press of the same button fail with `AlreadyPressed`: of the two, only
/// the first yields an event.
pub proof fn lemma_second_press_refused(
    pressed: Set<MouseButton>,
    button: MouseButton,
    source_first: bool,
    x_first: i32,
    y_first: i32,
    source_second: bool,
    x_second: i32,
    y_second: i32,
)
    requires
        button_outcome(pressed, button, true, source_first, x_first, y_first) is Ok,
    ensures
        button_outcome(pressed.insert(button), button, true, source_second, x_second, y_second)
            == Err::<MouseEvent, BackendError>(BackendError::AlreadyPressed),
{
}

/// Releasing a button that no accepted press put down fails with
/// `NotPressed` and yields no event.
pub proof fn lemma_release_unpressed_refused(
    pressed: Set<MouseButton>,
    button: MouseButton,
    source_ready: bool,
    x: i32,
    y: i32,
)
    requires
        !pressed.contains(button),
    ensures
        button_outcome(pressed, button, false, source_ready, x, y) == Err::<
            MouseEvent,
            BackendError,
        >(BackendError::NotPressed),
{
}

/// With an event source, a key that is up can be pressed, released and
/// pressed again, each step accepted; pressing it twice in a row refuses
/// the second press.
pub proof fn lemma_key_cycle(pressed: Set<u32>, keycode: u32)
    requires
        !pressed.contains(keycode),
    ensures
        key_outcome(pressed, keycode, true, true) is Ok,
        key_outcome(pressed.insert(keycode), keycode, false, true) is Ok,
        key_outcome(pressed.insert(keycode).remove(keycode), keycode, true, true) is Ok,
        key_outcome(pressed.insert(keycode), keycode, true, true) == Err::<KeyEvent, BackendError>(
            BackendError::AlreadyPressed,
        ),
{
}

/// After N accepted key presses from nothing pressed, with no release in
/// between, exactly N keys are down: `reset_keys` then yields N releases.
pub proof fn lemma_accepted_presses_counted(presses: Seq<u32>)
    requires
        presses_accepted(Set::empty(), presses),
    ensures
        press_all(Set::empty(), presses).finite(),
        press_all(Set::empty(), presses).len() == presses.len(),
    decreases presses.len(),
{
    if presses.len() > 0 {
        let prefix = presses.drop_last();
        assert forall|i: int| 0 <= i < prefix.len() implies (#[trigger] key_outcome(
            press_all(Set::empty(), prefix.take(i)),
            prefix[i],
            true,
            true,
        )) is Ok by {
            assert(prefix.take(i) =~= presses.take(i));
            assert(key_outcome(press_all(Set::empty(), presses.take(i)), presses[i], true, true) is Ok);
        }
        lemma_accepted_presses_counted(prefix);
        let last = presses.len() - 1;
        assert(presses.take(last) =~= prefix);
        assert(key_outcome(press_all(Set::empty(), presses.take(last)), presses[last], true, true) is Ok);
    }
}

/// State of the macOS input backend: the display geometry last read, the
/// buttons and keys tracked as down, and the modifier flags.
///
/// Native events are posted by the caller: each press or release is decided
/// here (`plan_*`, which yields the event to post) and recorded here once
/// posted (`commit_*`). A caller shared between threads holds one lock over
/// the pair, so that the check and the record are atomic.
pub struct MacOSBackend {
    screen_size: ScreenSize,
    pressed_buttons: HashMap<u8, bool>,
    pressed_keys: HashMap<u32, bool>,
    modifiers: KeyboardModifiers,
}

impl MacOSBackend {
    /// The screen size last stored.
    pub closed spec fn screen(&self) -> ScreenSize {
        self.screen_size
    }

    /// The mouse buttons tracked as down.
    pub closed spec fn buttons(&self) -> Set<MouseButton> {
        Set::new(|b: MouseButton| self.pressed_buttons@.contains_key(button_code(b)))
    }

    /// The keycodes tracked as down.
    pub closed spec fn keys(&self) -> Set<u32> {
        self.pressed_keys@.dom()
    }

    /// The modifier flags last set.
    pub closed spec fn mods(&self) -> KeyboardModifiers {
        self.modifiers
    }

    /// Every tracked entry records a press.
    pub closed spec fn wf(&self) -> bool {
        &&& forall|c: u8| #[trigger] self.pressed_buttons@.contains_key(c) ==> self.pressed_buttons@[c]
        &&& forall|k: u32| #[trigger] self.pressed_keys@.contains_key(k) ==> self.pressed_keys@[k]
    }

    /// A backend with a 1920x1080 display at 60 Hz assumed, nothing pressed
    /// and no modifier set.
    pub fn new() -> (r: Self)
        ensures
            r.wf(),
            r.screen() == default_screen_size(),
            r.buttons() =~= Set::<MouseButton>::empty(),
            r.keys() =~= Set::<u32>::empty(),
            r.mods() == no_modifiers(),
    {
        MacOSBackend {
            screen_size: ScreenSize::new(1920, 1080, DEFAULT_RATE),
            pressed_buttons: HashMap::new(),
            pressed_keys: HashMap::new(),
            modifiers: KeyboardModifiers::default(),
        }
    }

    /// The screen size stored by the last `init`, or the default before it.
    pub fn get_screen_size(&self) -> (r: ScreenSize)
        ensures
            r == self.screen(),
    {
        self.screen_size
    }

    pub fn set_keyboard_modifiers(&mut self, modifiers: KeyboardModifiers)
        ensures
            final(self).mods() == modifiers,
            final(self).screen() == old(self).screen(),
            final(self).buttons() == old(self).buttons(),
            final(self).keys() == old(self).keys(),
            old(self).wf() ==> final(self).wf(),
    {
        self.modifiers = modifiers;
    }

    pub fn get_keyboard_modifiers(&self) -> (r: KeyboardModifiers)
        ensures
            r == self.mods(),
    {
        self.modifiers
    }

    /// Decide a key press or release (`down`): the event to post, or why
    /// none is posted. Nothing is recorded until `commit_key`.
    pub fn plan_key(&self, keycode: u32, down: bool, source_ready: bool) -> (r: Result<KeyEvent, BackendError>)
        requires
            self.wf(),
        ensures
            r == key_outcome(self.keys(), keycode, down, source_ready),
    {
        let pressed = match self.pressed_keys.get(&keycode) {
            Some(v) => *v,
            None => false,
        };
        if down && pressed {
            return Err(BackendError::AlreadyPressed);
        }
        if !down && !pressed {
            return Err(BackendError::NotPressed);
        }
        if !source_ready {
            return Err(BackendError::EventSourceUnavailable);
        }
        let native = convert_keycode_to_macos(keycode);
        Ok(KeyEvent { keycode: native as u16, down })
    }

    /// Record that the key event planned for `keycode` was posted: the key
    /// is tracked as down after a press and as up after a release.
    pub fn commit_key(&mut self, keycode: u32, down: bool)
        requires
            old(self).wf(),
        ensures
            final(self).wf(),
            down ==> final(self).keys() == old(self).keys().insert(keycode),
            !down ==> final(self).keys() == old(self).keys().remove(keycode),
            final(self).buttons() == old(self).buttons(),
            final(self).screen() == old(self).screen(),
            final(self).mods() == old(self).mods(),
    {
        if down {
            self.pressed_keys.insert(keycode, true);
        } else {
            self.pressed_keys.remove(&keycode);
        }
    }

    /// Decide a button press or release (`down`) with the cursor at
    /// (`x`, `y`): the event to post, or why none is posted. Nothing is
    /// recorded until `commit_button`.
    pub fn plan_button(
        &self,
        button: MouseButton,
        down: bool,
        source_ready: bool,
        x: i32,
        y: i32,
    ) -> (r: Result<MouseEvent, BackendError>)
        requires
            self.wf(),
        ensures
            r == button_outcome(self.buttons(), button, down, source_ready, x, y),
    {
        let code = mouse_button_code(button);
        let pressed = match self.pressed_buttons.get(&code) {
            Some(v) => *v,
            None => false,
        };
        if down && pressed {
            return Err(BackendError::AlreadyPressed);
        }
        if !down && !pressed {
            return Err(BackendError::NotPressed);
        }
        if !source_ready {
            return Err(BackendError::EventSourceUnavailable);
        }
        match native_event_for(button, down) {
            Some((kind, native)) => Ok(MouseEvent { kind, button: native, x, y }),
            None => Err(BackendError::UnsupportedButton),
        }
    }

    /// Record that the event planned for `button` was posted: the button is
    /// tracked as down after a press and as up after a release.
    pub fn commit_button(&mut self, button: MouseButton, down: bool)
        requires
            old(self).wf(),
        ensures
            final(self).wf(),
            down ==> final(self).buttons() == old(self).buttons().insert(button),
            !down ==> final(self).buttons() == old(self).buttons().remove(button),
            final(self).keys() == old(self).keys(),
            final(self).screen() == old(self).screen(),
            final(self).mods() == old(self).mods(),
    {
        let code = mouse_button_code(button);
        if down {
            self.pressed_buttons.insert(code, true);
            assert(self.buttons() =~= old(self).buttons().insert(button));
        } else {
            self.pressed_buttons.remove(&code);
            assert(self.buttons() =~= old(self).buttons().remove(button));
        }
    }

    /// Permissions (screen recording, accessibility) cannot be queried up
    /// front: the OS prompts on the first use, so this check always passes.
    fn check_permissions() -> (r: Result<(), BackendError>)
        ensures
            r is Ok,
    {
        Ok(())
    }

    /// Store the primary display's size as read from the OS, with the
    /// refresh rate fixed at 60 Hz. The previous size is overwritten.
    pub fn init(&mut self, pixels_wide: u64, pixels_high: u64) -> (r: Result<(), BackendError>)
        ensures
            r is Ok,
            final(self).screen() == display_size(pixels_wide, pixels_high),
            final(self).buttons() == old(self).buttons(),
            final(self).keys() == old(self).keys(),
            final(self).mods() == old(self).mods(),
            old(self).wf() ==> final(self).wf(),
    {
        match Self::check_permissions() {
            Ok(()) => {},
            Err(e) => {
                return Err(e);
            },
        }
        let width = pixels_wide as u32;
        let height = pixels_high as u32;
        self.screen_size = ScreenSize::new(width, height, DEFAULT_RATE);
        Ok(())
    }

    /// Screen capture belongs to a separate pipeline: this yields no bytes.
    pub fn take_screenshot(&self) -> (r: Result<Vec<u8>, BackendError>)
        ensures
            r is Ok,
            r->Ok_0@.len() == 0,
    {
        Ok(Vec::new())
    }

    /// The event that moves the pointer to (`x`, `y`), or
    /// `EventSourceUnavailable` when the OS gave no event source.
    pub fn move_mouse(&self, x: i32, y: i32, source_ready: bool) -> (r: Result<MouseEvent, BackendError>)
        ensures
            source_ready ==> r == Ok::<MouseEvent, BackendError>(move_event(x, y)),
            !source_ready ==> r == Err::<MouseEvent, BackendError>(BackendError::EventSourceUnavailable),
    {
        if !source_ready {
            return Err(BackendError::EventSourceUnavailable);
        }
        Ok(MouseEvent { kind: MouseEventKind::MouseMoved, button: NativeButton::Left, x, y })
    }

    /// The pixel scroll event for the given deltas, over two wheels, or
    /// `EventSourceUnavailable` when the OS gave no event source. The
    /// control key is accepted but does not change the event.
    pub fn scroll(&self, delta_x: i32, delta_y: i32, control_key: bool, source_ready: bool) -> (r: Result<
        ScrollEvent,
        BackendError,
    >)
        ensures
            source_ready ==> r == Ok::<ScrollEvent, BackendError>(scroll_event(delta_x, delta_y)),
            !source_ready ==> r == Err::<ScrollEvent, BackendError>(BackendError::EventSourceUnavailable),
    {
        if !source_ready {
            return Err(BackendError::EventSourceUnavailable);
        }
        Ok(ScrollEvent { wheel_count: SCROLL_WHEEL_COUNT, delta_y, delta_x })
    }

    /// Release every key tracked as down, then forget all pressed keys and
    /// buttons and clear the modifiers. The release events come back to be
    /// posted, one per pressed key, unless the OS gave no event source, in
    /// which case none are; the tracked state is cleared either way.
    pub fn reset_keys(&mut self, source_ready: bool) -> (r: Vec<KeyEvent>)
        requires
            old(self).wf(),
        ensures
            final(self).wf(),
            final(self).keys() =~= Set::<u32>::empty(),
            final(self).buttons() =~= Set::<MouseButton>::empty(),
            final(self).mods() == no_modifiers(),
            final(self).screen() == old(self).screen(),
            source_ready ==> releases_each(r@, old(self).keys()),
            source_ready ==> r@.len() == old(self).keys().len(),
            !source_ready ==> r@.len() == 0,
    {
        let mut released: Vec<KeyEvent> = Vec::new();
        let ghost mut done: Seq<u32> = Seq::empty();
        if source_ready {
            for keycode in it: self.pressed_keys.keys()
                invariant
                    it.seq().unref().no_duplicates(),
                    it.seq().unref().to_set() == self.pressed_keys@.dom(),
                    done == it.seq().take(it.index() as int).unref(),
                    released@ == done.map_values(|k: u32| key_event(k, false)),
                ensures
                    done == it.seq().unref(),
            {
                let native = convert_keycode_to_macos(*keycode);
                released.push(KeyEvent { keycode: native as u16, down: false });
                proof {
                    done = done.push(*keycode);
                    assert(done =~= it.seq().take(it.index() as int + 1).unref());
                }
            }
            proof {
                done.unique_seq_to_set();
            }
        }
        self.pressed_keys.clear();
        self.pressed_buttons.clear();
        self.modifiers = KeyboardModifiers::default();
        released
    }

    /// End of session: releases and clears as `reset_keys` does.
    pub fn shutdown(&mut self, source_ready: bool) -> (r: Vec<KeyEvent>)
        requires
            old(self).wf(),
        ensures
            final(self).wf(),
            final(self).keys() =~= Set::<u32>::empty(),
            final(self).buttons() =~= Set::<MouseButton>::empty(),
            final(self).mods() == no_modifiers(),
            final(self).screen() == old(self).screen(),
            source_ready ==> releases_each(r@, old(self).keys()),
            source_ready ==> r@.len() == old(self).keys().len(),
            !source_ready ==> r@.len() == 0,
    {
        self.reset_keys(source_ready)
    }
}

} // verus!
