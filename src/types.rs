use vstd::prelude::*;

verus! {

/// Carried through session values without being inspected.
#[verifier::external_type_specification]
#[verifier::external_body]
pub struct ExSystemTime(std::time::SystemTime);

/// Relies on `SystemTime` being `Copy`: a clone is the same instant.
pub assume_specification[ <std::time::SystemTime as Clone>::clone ](
    t: &std::time::SystemTime,
) -> (r: std::time::SystemTime)
    ensures
        r == *t,
;

/// Decimal digit of `d`, for `d < 10`.
pub open spec fn digit_char(d: nat) -> char {
    if d == 0 { '0' }
    else if d == 1 { '1' }
    else if d == 2 { '2' }
    else if d == 3 { '3' }
    else if d == 4 { '4' }
    else if d == 5 { '5' }
    else if d == 6 { '6' }
    else if d == 7 { '7' }
    else if d == 8 { '8' }
    else { '9' }
}

/// Decimal notation of `n`, without sign or leading zeros.
pub open spec fn decimal(n: nat) -> Seq<char>
    decreases n,
{
    if n < 10 {
        seq![digit_char(n)]
    } else {
        decimal(n / 10) + seq![digit_char(n % 10)]
    }
}

/// The text `WIDTHxHEIGHT@RATE` of a screen size.
pub open spec fn screen_size_text(width: u32, height: u32, rate: u16) -> Seq<char> {
    decimal(width as nat) + seq!['x'] + decimal(height as nat) + seq!['@'] + decimal(rate as nat)
}

/// Relies on std's `format!`: `{}` writes an unsigned integer in decimal.
#[verifier::external_body]
fn format_screen_size(width: u32, height: u32, rate: u16) -> (r: String)
    ensures
        r@ == screen_size_text(width, height, rate),
{
    format!("{}x{}@{}", width, height, rate)
}

/// Screen size and refresh rate
#[derive(Debug, Clone, Copy, PartialEq, Eq, Structural)]
pub struct ScreenSize {
    pub width: u32,
    pub height: u32,
    pub rate: u16,
}

impl ScreenSize {
    pub fn new(width: u32, height: u32, rate: u16) -> (r: Self)
        ensures
            r.width == width,
            r.height == height,
            r.rate == rate,
    {
        ScreenSize { width, height, rate }
    }

    /// The size written as `WIDTHxHEIGHT@RATE`, e.g. `1920x1080@60`.
    pub fn to_string(&self) -> (r: String)
        ensures
            r@ == screen_size_text(self.width, self.height, self.rate),
    {
        format_screen_size(self.width, self.height, self.rate)
    }
}

/// Mouse button codes
#[derive(Debug, Clone, Copy, PartialEq, Eq, Hash, Structural)]
pub enum MouseButton {
    Left,
    Middle,
    Right,
    ScrollUp,
    ScrollDown,
}

/// Keyboard modifiers
#[derive(Debug, Clone, Copy, PartialEq, Eq, Structural)]
pub struct KeyboardModifiers {
    pub shift: bool,
    pub control: bool,
    pub alt: bool,
    pub super_key: bool,
}

/// No modifier held.
pub open spec fn no_modifiers() -> KeyboardModifiers {
    KeyboardModifiers { shift: false, control: false, alt: false, super_key: false }
}

impl Default for KeyboardModifiers {
    fn default() -> (r: Self)
        ensures
            r == no_modifiers(),
    {
        KeyboardModifiers { shift: false, control: false, alt: false, super_key: false }
    }
}

/// Session state
#[derive(Debug, Clone)]
pub struct SessionState {
    pub is_connected: bool,
    pub is_watching: bool,
    pub connected_since: Option<std::time::SystemTime>,
    pub watching_since: Option<std::time::SystemTime>,
}

impl Default for SessionState {
    fn default() -> (r: Self)
        ensures
            !r.is_connected,
            !r.is_watching,
            r.connected_since is None,
            r.watching_since is None,
    {
        SessionState {
            is_connected: false,
            is_watching: false,
            connected_since: None,
            watching_since: None,
        }
    }
}

/// Member profile
#[derive(Debug, Clone)]
pub struct MemberProfile {
    pub name: String,
    pub is_admin: bool,
    pub can_login: bool,
    pub can_connect: bool,
    pub can_watch: bool,
    pub can_host: bool,
    pub can_access_clipboard: bool,
}

impl Default for MemberProfile {
    /// The agent's own profile: named `Agent`, with every permission.
    fn default() -> (r: Self)
        ensures
            r.name@ == "Agent"@,
            r.is_admin,
            r.can_login,
            r.can_connect,
            r.can_watch,
            r.can_host,
            r.can_access_clipboard,
    {
        MemberProfile {
            name: "Agent".to_string(),
            is_admin: true,
            can_login: true,
            can_connect: true,
            can_watch: true,
            can_host: true,
            can_access_clipboard: true,
        }
    }
}

/// Session settings
#[derive(Debug, Clone, PartialEq, Eq, Structural)]
pub struct Settings {
    pub private_mode: bool,
    pub locked_logins: bool,
    pub locked_controls: bool,
    pub control_protection: bool,
    pub implicit_hosting: bool,
    pub inactive_cursors: bool,
    pub merciful_reconnect: bool,
    pub heartbeat_interval: u32,
}

impl Default for Settings {
    fn default() -> (r: Self)
        ensures
            !r.private_mode,
            r.locked_logins,
            !r.locked_controls,
            !r.control_protection,
            r.implicit_hosting,
            !r.inactive_cursors,
            r.merciful_reconnect,
            r.heartbeat_interval == 10,
    {
        Settings {
            private_mode: false,
            locked_logins: true,
            locked_controls: false,
            control_protection: false,
            implicit_hosting: true,
            inactive_cursors: false,
            merciful_reconnect: true,
            heartbeat_interval: 10,
        }
    }
}

/// Cursor position
#[derive(Debug, Clone, PartialEq, Eq, Structural)]
pub struct Cursor {
    pub x: i32,
    pub y: i32,
}

/// Stats for the agent
#[derive(Debug, Clone)]
pub struct Stats {
    pub has_host: bool,
    pub host_id: String,
    pub server_started_at: std::time::SystemTime,
    pub total_users: u32,
    pub total_admins: u32,
}

} // verus!
