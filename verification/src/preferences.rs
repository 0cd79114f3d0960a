//! The user's settings, and the merge that carries settings of earlier
//! generations over.

use vstd::prelude::*;

verus! {

/// Interval, in seconds, that the first generation of the settings file
/// shipped as its default.
pub const FIRST_INTERVAL_DEFAULT: u64 = 4;

/// Interval, in seconds, that the second generation shipped as its default.
pub const SECOND_INTERVAL_DEFAULT: u64 = 10;

/// Interval, in seconds, used when no interval has been customized.
pub const INTERVAL_DEFAULT: u64 = 8;

/// Capture buffer length, in seconds, used when none has been customized.
pub const BUFFER_SIZE_DEFAULT: u64 = 12;

/// User settings. Every field is optional: `None` means that the user never
/// set it and the built-in default applies.
///
/// `request_interval_secs` and `request_interval_secs_v2` are kept only so
/// that older settings files still load; `request_interval_secs_v3` is the
/// one that is written.
#[derive(Clone, Debug)]
pub struct Preferences {
    pub enable_notifications: Option<bool>,
    pub enable_mpris: Option<bool>,
    pub no_duplicates: Option<bool>,
    pub buffer_size_secs: Option<u64>,
    pub request_interval_secs: Option<u64>,
    pub request_interval_secs_v2: Option<u64>,
    pub request_interval_secs_v3: Option<u64>,
    pub current_device_name: Option<String>,
}

/// Mathematical value of a [`Preferences`]: the same fields, with the device
/// name as a sequence of characters.
pub struct PreferencesView {
    pub enable_notifications: Option<bool>,
    pub enable_mpris: Option<bool>,
    pub no_duplicates: Option<bool>,
    pub buffer_size_secs: Option<u64>,
    pub request_interval_secs: Option<u64>,
    pub request_interval_secs_v2: Option<u64>,
    pub request_interval_secs_v3: Option<u64>,
    pub current_device_name: Option<Seq<char>>,
}

impl View for Preferences {
    type V = PreferencesView;

    open spec fn view(&self) -> PreferencesView {
        PreferencesView {
            enable_notifications: self.enable_notifications,
            enable_mpris: self.enable_mpris,
            no_duplicates: self.no_duplicates,
            buffer_size_secs: self.buffer_size_secs,
            request_interval_secs: self.request_interval_secs,
            request_interval_secs_v2: self.request_interval_secs_v2,
            request_interval_secs_v3: self.request_interval_secs_v3,
            current_device_name: match self.current_device_name {
                Some(name) => Some(name@),
                None => None,
            },
        }
    }
}

impl PreferencesView {
    /// The settings in which nothing is set.
    pub open spec fn unset() -> PreferencesView {
        PreferencesView {
            enable_notifications: None,
            enable_mpris: None,
            no_duplicates: None,
            buffer_size_secs: None,
            request_interval_secs: None,
            request_interval_secs_v2: None,
            request_interval_secs_v3: None,
            current_device_name: None,
        }
    }

    /// The built-in settings, with `interval` as the request interval.
    pub open spec fn builtin(interval: u64) -> PreferencesView {
        PreferencesView {
            enable_notifications: Some(true),
            enable_mpris: Some(false),
            no_duplicates: Some(true),
            buffer_size_secs: Some(BUFFER_SIZE_DEFAULT),
            request_interval_secs: None,
            request_interval_secs_v2: None,
            request_interval_secs_v3: Some(interval),
            current_device_name: None,
        }
    }
}

impl Preferences {
    /// Settings in which nothing is set.
    pub fn new() -> (prefs: Self)
        ensures
            prefs@ == PreferencesView::unset(),
    {
        Preferences {
            enable_notifications: None,
            enable_mpris: None,
            no_duplicates: None,
            buffer_size_secs: None,
            request_interval_secs: None,
            request_interval_secs_v2: None,
            request_interval_secs_v3: None,
            current_device_name: None,
        }
    }

    /// The built-in settings with the request interval replaced by
    /// `interval` seconds.
    pub fn with_interval(interval: u64) -> (prefs: Self)
        ensures
            prefs@ == PreferencesView::builtin(interval),
    {
        Preferences {
            enable_notifications: Some(true),
            enable_mpris: Some(false),
            no_duplicates: Some(true),
            buffer_size_secs: Some(BUFFER_SIZE_DEFAULT),
            request_interval_secs: None,
            request_interval_secs_v2: None,
            request_interval_secs_v3: Some(interval),
            current_device_name: None,
        }
    }
}

impl Default for Preferences {
    /// The built-in settings.
    fn default() -> (prefs: Self)
        ensures
            prefs@ == PreferencesView::builtin(INTERVAL_DEFAULT),
    {
        Preferences::with_interval(INTERVAL_DEFAULT)
    }
}

/// The first of two optional values that is set.
pub open spec fn first_set<T>(first: Option<T>, second: Option<T>) -> Option<T> {
    match first {
        Some(_) => first,
        None => second,
    }
}

/// A value of an earlier generation counts as customized unless it is
/// exactly the default that its generation shipped.
pub open spec fn customized(value: Option<u64>, shipped_default: u64) -> Option<u64> {
    match value {
        Some(interval) => if interval == shipped_default {
            None
        } else {
            value
        },
        None => None,
    }
}

/// The one interval that counts in `current` after `incoming` was merged
/// in: the update's own, else the oldest customized value of `current`,
/// its own generation last.
pub open spec fn merged_interval(current: PreferencesView, incoming: PreferencesView) -> Option<
    u64,
> {
    first_set(
        incoming.request_interval_secs_v2,
        first_set(
            customized(current.request_interval_secs, FIRST_INTERVAL_DEFAULT),
            first_set(
                customized(current.request_interval_secs_v2, SECOND_INTERVAL_DEFAULT),
                current.request_interval_secs_v3,
            ),
        ),
    )
}

/// `current` with the update `incoming` merged in: every field is the
/// update's where the update sets it, else the current one. The interval is
/// carried over into the newest generation, and the two older fields are
/// left unset.
pub open spec fn merge(current: PreferencesView, incoming: PreferencesView) -> PreferencesView {
    PreferencesView {
        enable_notifications: first_set(
            incoming.enable_notifications,
            current.enable_notifications,
        ),
        enable_mpris: first_set(incoming.enable_mpris, current.enable_mpris),
        no_duplicates: first_set(incoming.no_duplicates, current.no_duplicates),
        buffer_size_secs: first_set(incoming.buffer_size_secs, current.buffer_size_secs),
        request_interval_secs: None,
        request_interval_secs_v2: None,
        request_interval_secs_v3: merged_interval(current, incoming),
        current_device_name: first_set(incoming.current_device_name, current.current_device_name),
    }
}

impl PreferencesView {
    /// The interval between two requests that these settings ask for.
    pub open spec fn interval(self) -> u64 {
        match merged_interval(self, PreferencesView::unset()) {
            Some(interval) => interval,
            None => INTERVAL_DEFAULT,
        }
    }
}

fn or_first<T>(first: Option<T>, second: Option<T>) -> (chosen: Option<T>)
    ensures
        chosen == first_set(first, second),
{
    match first {
        Some(value) => Some(value),
        None => second,
    }
}

fn unless_default(value: Option<u64>, shipped_default: u64) -> (kept: Option<u64>)
    ensures
        kept == customized(value, shipped_default),
{
    match value {
        Some(interval) => if interval == shipped_default {
            None
        } else {
            Some(interval)
        },
        None => None,
    }
}

impl Preferences {
    /// Merges the update `incoming` into these settings.
    pub fn merge(self, incoming: Preferences) -> (merged: Preferences)
        ensures
            merged@ == self::merge(self@, incoming@),
    {
        let interval = or_first(
            incoming.request_interval_secs_v2,
            or_first(
                unless_default(self.request_interval_secs, FIRST_INTERVAL_DEFAULT),
                or_first(
                    unless_default(self.request_interval_secs_v2, SECOND_INTERVAL_DEFAULT),
                    self.request_interval_secs_v3,
                ),
            ),
        );
        Preferences {
            enable_notifications: or_first(incoming.enable_notifications, self.enable_notifications),
            enable_mpris: or_first(incoming.enable_mpris, self.enable_mpris),
            no_duplicates: or_first(incoming.no_duplicates, self.no_duplicates),
            buffer_size_secs: or_first(incoming.buffer_size_secs, self.buffer_size_secs),
            request_interval_secs: None,
            request_interval_secs_v2: None,
            request_interval_secs_v3: interval,
            current_device_name: or_first(incoming.current_device_name, self.current_device_name),
        }
    }

    /// The interval between two requests, in seconds: the one that counts
    /// among the three generations, or the built-in one where none is set.
    pub fn request_interval(&self) -> (interval: u64)
        ensures
            interval == self@.interval(),
    {
        let counted = or_first(
            unless_default(self.request_interval_secs, FIRST_INTERVAL_DEFAULT),
            or_first(
                unless_default(self.request_interval_secs_v2, SECOND_INTERVAL_DEFAULT),
                self.request_interval_secs_v3,
            ),
        );
        match counted {
            Some(interval) => interval,
            None => INTERVAL_DEFAULT,
        }
    }

    /// The length of the capture buffer, in seconds.
    pub fn buffer_size(&self) -> (seconds: u64)
        ensures
            seconds == match self.buffer_size_secs {
                Some(length) => length,
                None => BUFFER_SIZE_DEFAULT,
            },
    {
        match self.buffer_size_secs {
            Some(length) => length,
            None => BUFFER_SIZE_DEFAULT,
        }
    }

    /// Whether a track equal to the one delivered last is swallowed; it is
    /// unless the settings say otherwise.
    pub fn suppress_duplicates(&self) -> (suppress: bool)
        ensures
            suppress == match self.no_duplicates {
                Some(choice) => choice,
                None => true,
            },
    {
        match self.no_duplicates {
            Some(choice) => choice,
            None => true,
        }
    }
}

/// The settings of the running program together with the file they are
/// kept in.
#[derive(Clone, Debug)]
pub struct PreferencesInterface {
    /// Where the settings are written; `None` where they are not kept.
    pub preferences_file_path: Option<String>,
    pub preferences: Preferences,
}

/// Mathematical value of a [`PreferencesInterface`].
pub struct PreferencesInterfaceView {
    pub preferences_file_path: Option<Seq<char>>,
    pub preferences: PreferencesView,
}

impl View for PreferencesInterface {
    type V = PreferencesInterfaceView;

    open spec fn view(&self) -> PreferencesInterfaceView {
        PreferencesInterfaceView {
            preferences_file_path: match self.preferences_file_path {
                Some(path) => Some(path@),
                None => None,
            },
            preferences: self.preferences@,
        }
    }
}

impl PreferencesInterface {
    /// The settings at the start of the program: those read from the file
    /// at `preferences_file_path`, or the built-in ones where the file
    /// could not be read or understood (`loaded` is `None`).
    pub fn new(preferences_file_path: Option<String>, loaded: Option<Preferences>) -> (interface:
        Self)
        ensures
            interface@.preferences_file_path == match preferences_file_path {
                Some(path) => Some(path@),
                None => None,
            },
            interface@.preferences == match loaded {
                Some(preferences) => preferences@,
                None => PreferencesView::builtin(INTERVAL_DEFAULT),
            },
    {
        let preferences = match loaded {
            Some(preferences) => preferences,
            None => Preferences::default(),
        };
        PreferencesInterface { preferences_file_path, preferences }
    }

    /// Merges `update_preferences` into the settings. The file path stays
    /// as it is; writing the file is left to the caller.
    pub fn update(&mut self, update_preferences: Preferences)
        ensures
            final(self)@.preferences == merge(old(self)@.preferences, update_preferences@),
            final(self)@.preferences_file_path == old(self)@.preferences_file_path,
    {
        let mut current = Preferences::new();
        std::mem::swap(&mut self.preferences, &mut current);
        self.preferences = current.merge(update_preferences);
    }
}

/// The built-in settings stay as they are when an update that sets nothing
/// is merged in, however often.
pub proof fn lemma_builtin_settings_are_stable()
    ensures
        merge(PreferencesView::builtin(INTERVAL_DEFAULT), PreferencesView::unset())
            == PreferencesView::builtin(INTERVAL_DEFAULT),
{
}

/// Settings without values of earlier generations stay as they are when an
/// update that sets nothing is merged in.
pub proof fn lemma_empty_update_changes_nothing(current: PreferencesView)
    requires
        current.request_interval_secs is None,
        current.request_interval_secs_v2 is None,
    ensures
        merge(current, PreferencesView::unset()) == current,
{
}

/// A merge is settled: merging an update that sets nothing into its result
/// gives that result again.
pub proof fn lemma_merge_is_settled(current: PreferencesView, incoming: PreferencesView)
    ensures
        merge(merge(current, incoming), PreferencesView::unset()) == merge(current, incoming),
{
}

/// A value of an earlier generation that equals the default its generation
/// shipped does not count: the merge gives what it would give without it.
pub proof fn lemma_shipped_defaults_do_not_count(
    current: PreferencesView,
    incoming: PreferencesView,
)
    ensures
        current.request_interval_secs == Some(FIRST_INTERVAL_DEFAULT) ==> merge(current, incoming)
            == merge(PreferencesView { request_interval_secs: None, ..current }, incoming),
        current.request_interval_secs_v2 == Some(SECOND_INTERVAL_DEFAULT) ==> merge(
            current,
            incoming,
        ) == merge(PreferencesView { request_interval_secs_v2: None, ..current }, incoming),
{
}

/// A customized value of an earlier generation survives the merge, the
/// oldest one first, unless the update brings an interval of its own.
pub proof fn lemma_customized_interval_survives(
    current: PreferencesView,
    incoming: PreferencesView,
    interval: u64,
)
    requires
        incoming.request_interval_secs_v2 is None,
    ensures
        current.request_interval_secs == Some(interval) && interval != FIRST_INTERVAL_DEFAULT
            ==> merge(current, incoming).request_interval_secs_v3 == Some(interval),
        customized(current.request_interval_secs, FIRST_INTERVAL_DEFAULT) is None
            && current.request_interval_secs_v2 == Some(interval) && interval
            != SECOND_INTERVAL_DEFAULT ==> merge(current, incoming).request_interval_secs_v3
            == Some(interval),
{
}

/// Settings that hold nothing but the default that the first generation
/// shipped ask, once an update that sets nothing is merged in, for the
/// built-in interval and not for that old default.
pub proof fn lemma_first_default_is_upgraded(current: PreferencesView)
    requires
        current.request_interval_secs == Some(FIRST_INTERVAL_DEFAULT),
        current.request_interval_secs_v2 is None,
        current.request_interval_secs_v3 is None,
    ensures
        merge(current, PreferencesView::unset()).request_interval_secs is None,
        merge(current, PreferencesView::unset()).interval() == INTERVAL_DEFAULT,
        merge(current, PreferencesView::unset()).interval() != FIRST_INTERVAL_DEFAULT,
{
}

} // verus!
