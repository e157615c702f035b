//! Geometry of the settings window: the stored state, its partial-update
//! form, and the shared state that the rest of the application reads.
use vstd::prelude::*;

verus! {

/// A partial update of the settings window state: every field that is
/// `Some` overwrites the stored value, every `None` leaves it unchanged.
#[derive(Debug, Clone, PartialEq, Eq, Structural)]
pub struct PartialSettingWindowState {
    pub window_x: Option<i32>,
    pub window_y: Option<i32>,
    pub window_width: Option<u32>,
    pub window_height: Option<u32>,
}

impl PartialSettingWindowState {
    /// The partial update that changes nothing.
    pub open spec fn empty() -> PartialSettingWindowState {
        PartialSettingWindowState { window_x: None, window_y: None, window_width: None, window_height: None }
    }

    /// `self` laid over `under`: each field of `self` that is `Some` wins.
    pub open spec fn over(self, under: PartialSettingWindowState) -> PartialSettingWindowState {
        PartialSettingWindowState {
            window_x: if self.window_x is Some { self.window_x } else { under.window_x },
            window_y: if self.window_y is Some { self.window_y } else { under.window_y },
            window_width: if self.window_width is Some { self.window_width } else { under.window_width },
            window_height: if self.window_height is Some { self.window_height } else { under.window_height },
        }
    }

    /// Every field is present.
    pub open spec fn is_complete(self) -> bool {
        &&& self.window_x is Some
        &&& self.window_y is Some
        &&& self.window_width is Some
        &&& self.window_height is Some
    }
}

impl Default for PartialSettingWindowState {
    fn default() -> (r: Self)
        ensures
            r == PartialSettingWindowState::empty(),
    {
        PartialSettingWindowState { window_x: None, window_y: None, window_width: None, window_height: None }
    }
}

/// The stored position and size of the settings window.
#[derive(Debug, Clone, PartialEq, Eq, Structural)]
pub struct SettingWindowStateInner {
    /// Window X coordinate.
    pub window_x: i32,
    /// Window Y coordinate.
    pub window_y: i32,
    /// Window width.
    pub window_width: u32,
    /// Window height.
    pub window_height: u32,
}

/// Value of an optional field, or `current` when it is absent.
pub open spec fn or_keep<T>(field: Option<T>, current: T) -> T {
    match field {
        Some(v) => v,
        None => current,
    }
}

impl SettingWindowStateInner {
    /// The state after applying the partial update `p`.
    pub open spec fn applied(self, p: PartialSettingWindowState) -> SettingWindowStateInner {
        SettingWindowStateInner {
            window_x: or_keep(p.window_x, self.window_x),
            window_y: or_keep(p.window_y, self.window_y),
            window_width: or_keep(p.window_width, self.window_width),
            window_height: or_keep(p.window_height, self.window_height),
        }
    }

    /// The complete partial update that describes this state.
    pub open spec fn as_partial(self) -> PartialSettingWindowState {
        PartialSettingWindowState {
            window_x: Some(self.window_x),
            window_y: Some(self.window_y),
            window_width: Some(self.window_width),
            window_height: Some(self.window_height),
        }
    }

    /// The state a fresh installation starts from.
    pub open spec fn initial() -> SettingWindowStateInner {
        SettingWindowStateInner { window_x: 0, window_y: 0, window_width: 2000, window_height: 1200 }
    }

    pub fn default_window_x() -> (r: i32)
        ensures
            r == 0,
    {
        0
    }

    pub fn default_window_y() -> (r: i32)
        ensures
            r == 0,
    {
        0
    }

    pub fn default_window_width() -> (r: u32)
        ensures
            r == 2000,
    {
        2000
    }

    pub fn default_window_height() -> (r: u32)
        ensures
            r == 1200,
    {
        1200
    }

    /// Applies a partial update: every present field overwrites the stored one.
    pub fn update(&mut self, partial: PartialSettingWindowState)
        ensures
            *final(self) == old(self).applied(partial),
    {
        if let Some(x) = partial.window_x {
            self.window_x = x;
        }
        if let Some(y) = partial.window_y {
            self.window_y = y;
        }
        if let Some(width) = partial.window_width {
            self.window_width = width;
        }
        if let Some(height) = partial.window_height {
            self.window_height = height;
        }
    }

    /// The complete partial update that describes this state.
    pub fn to_partial(&self) -> (r: PartialSettingWindowState)
        ensures
            r == self.as_partial(),
    {
        PartialSettingWindowState {
            window_x: Some(self.window_x),
            window_y: Some(self.window_y),
            window_width: Some(self.window_width),
            window_height: Some(self.window_height),
        }
    }
}

impl Default for SettingWindowStateInner {
    fn default() -> (r: Self)
        ensures
            r == SettingWindowStateInner::initial(),
    {
        SettingWindowStateInner {
            window_x: Self::default_window_x(),
            window_y: Self::default_window_y(),
            window_width: Self::default_window_width(),
            window_height: Self::default_window_height(),
        }
    }
}

/// Applying the state's own partial form changes nothing.
pub proof fn lemma_update_with_own_partial(s: SettingWindowStateInner)
    ensures
        s.applied(s.as_partial()) == s,
{
}

/// After a complete partial update, the state reads back exactly that update.
pub proof fn lemma_partial_reads_back_complete_update(
    s: SettingWindowStateInner,
    p: PartialSettingWindowState,
)
    requires
        p.is_complete(),
    ensures
        s.applied(p).as_partial() == p,
{
}

/// The empty partial update changes nothing.
pub proof fn lemma_empty_update_is_identity(s: SettingWindowStateInner)
    ensures
        s.applied(PartialSettingWindowState::empty()) == s,
{
}

/// Two updates in a row equal one update with the later laid over the earlier.
pub proof fn lemma_updates_compose(
    s: SettingWindowStateInner,
    first: PartialSettingWindowState,
    second: PartialSettingWindowState,
)
    ensures
        s.applied(first).applied(second) == s.applied(second.over(first)),
{
}

/// Updating never changes a field that the update leaves out, and sets every
/// field that it holds.
pub proof fn lemma_update_is_fieldwise(s: SettingWindowStateInner, p: PartialSettingWindowState)
    ensures
        p.window_x is None ==> s.applied(p).window_x == s.window_x,
        p.window_x matches Some(x) ==> s.applied(p).window_x == x,
        p.window_y is None ==> s.applied(p).window_y == s.window_y,
        p.window_y matches Some(y) ==> s.applied(p).window_y == y,
        p.window_width is None ==> s.applied(p).window_width == s.window_width,
        p.window_width matches Some(w) ==> s.applied(p).window_width == w,
        p.window_height is None ==> s.applied(p).window_height == s.window_height,
        p.window_height matches Some(h) ==> s.applied(p).window_height == h,
{
}

/// The settings window state held by the application. Reads go through
/// `&self`; an update needs exclusive access, which the application's
/// lock around this value provides.
#[derive(Debug)]
pub struct SettingWindowState {
    inner: SettingWindowStateInner,
}

impl SettingWindowState {
    /// The stored state.
    pub closed spec fn state(self) -> SettingWindowStateInner {
        self.inner
    }

    /// Applies a partial update to the stored state.
    pub fn update(&mut self, partial: PartialSettingWindowState)
        ensures
            final(self).state() == old(self).state().applied(partial),
    {
        self.inner.update(partial);
    }

    pub fn get_window_x(&self) -> (r: i32)
        ensures
            r == self.state().window_x,
    {
        self.inner.window_x
    }

    pub fn get_window_y(&self) -> (r: i32)
        ensures
            r == self.state().window_y,
    {
        self.inner.window_y
    }

    pub fn get_window_width(&self) -> (r: u32)
        ensures
            r == self.state().window_width,
    {
        self.inner.window_width
    }

    pub fn get_window_height(&self) -> (r: u32)
        ensures
            r == self.state().window_height,
    {
        self.inner.window_height
    }

    pub fn to_partial(&self) -> (r: PartialSettingWindowState)
        ensures
            r == self.state().as_partial(),
    {
        self.inner.to_partial()
    }
}

impl Default for SettingWindowState {
    fn default() -> (r: Self)
        ensures
            r.state() == SettingWindowStateInner::initial(),
    {
        SettingWindowState { inner: SettingWindowStateInner::default() }
    }
}

} // verus!
