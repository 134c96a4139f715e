use crate::clock::elapsed_millis;
use crate::clock::now;
use std::time::Instant;
use vstd::prelude::*;

verus! {

/// The number of notifications that are kept at most.
pub const MAX_TOASTS: usize = 5;

/// The milliseconds for which a notification is shown.
pub const TOAST_LIFETIME_MS: u128 = 3000;

/// The milliseconds after which a notification is shown dimmed.
pub const TOAST_FADE_MS: u128 = 2500;

/// The milliseconds for which a notification blinks.
pub const TOAST_FRESH_MS: u128 = 500;

/// A rectangle of terminal cells.
#[derive(Debug, Clone, Copy, PartialEq, Eq, Structural)]
pub struct Rect {
    pub x: u16,
    pub y: u16,
    pub width: u16,
    pub height: u16,
}

impl Rect {
    /// Whether the cell `(x, y)` lies in the rectangle.
    pub open spec fn holds(self, x: u16, y: u16) -> bool {
        x >= self.x && x < self.x + self.width && y >= self.y && y < self.y + self.height
    }

    /// Whether the cell `(x, y)` lies in the rectangle.
    pub fn contains(&self, x: u16, y: u16) -> (r: bool)
        ensures
            r == self.holds(x, y),
    {
        x >= self.x && x - self.x < self.width && y >= self.y && y - self.y < self.height
    }
}

/// What a notification reports.
#[derive(Debug, Clone, Copy, PartialEq, Eq, Structural)]
pub enum ToastType {
    Info,
    Success,
    Warning,
    Error,
}

/// Where on the screen a notification stands.
#[derive(Debug, Clone, Copy, PartialEq, Eq, Structural)]
pub enum ToastPosition {
    TopRight,
    TopLeft,
    BottomRight,
    BottomLeft,
    Center,
}

/// A notification to the user.
#[derive(Debug)]
pub struct ToastMessage {
    pub message: String,
    pub message_type: ToastType,
    pub created_at: Instant,
    pub is_hovered: bool,
    pub position: ToastPosition,
}

/// The mathematical content of a [`ToastMessage`]: all of it but the moment
/// of its making.
pub ghost struct ToastView {
    pub message: Seq<char>,
    pub message_type: ToastType,
    pub is_hovered: bool,
    pub position: ToastPosition,
}

impl View for ToastMessage {
    type V = ToastView;

    open spec fn view(&self) -> ToastView {
        ToastView {
            message: self.message@,
            message_type: self.message_type,
            is_hovered: self.is_hovered,
            position: self.position,
        }
    }
}

impl DeepView for ToastMessage {
    type V = ToastView;

    open spec fn deep_view(&self) -> ToastView {
        self@
    }
}

/// A fresh notification: not hovered over, in the top right corner.
pub open spec fn toast(message: Seq<char>, message_type: ToastType) -> ToastView {
    ToastView { message, message_type, is_hovered: false, position: ToastPosition::TopRight }
}

/// Whether a notification that was made `elapsed_ms` milliseconds ago is still
/// shown: as long as the mouse hovers over it, and else for three seconds.
pub open spec fn shown_after(elapsed_ms: u128, hover: Option<(u16, u16)>, area: Rect) -> bool {
    (match hover {
        Some((x, y)) => area.holds(x, y),
        None => false,
    }) || elapsed_ms < TOAST_LIFETIME_MS
}

/// `a - b`, or 0 where `b` is the larger.
pub open spec fn sub_or_zero(a: int, b: int) -> u16 {
    if a >= b {
        (a - b) as u16
    } else {
        0
    }
}

/// `n` as a screen coordinate: capped at the largest one.
pub open spec fn coordinate(n: int) -> u16 {
    if n > u16::MAX {
        u16::MAX
    } else if n < 0 {
        0
    } else {
        n as u16
    }
}

/// The width of a notification on a screen: 50 cells, or four less than the
/// screen where that is narrower.
pub open spec fn toast_width(screen: Rect) -> u16 {
    let room = sub_or_zero(screen.width as int, 4);
    if room < 50 {
        room
    } else {
        50
    }
}

/// The area of the notification number `index` at a position on a screen.
/// Notifications are five cells high and stand one cell apart.
pub open spec fn toast_area(position: ToastPosition, index: usize, screen: Rect) -> Rect {
    let width = toast_width(screen);
    let height = 5u16;
    let offset = coordinate(index * 6);
    match position {
        ToastPosition::TopRight => Rect {
            x: sub_or_zero(screen.width as int, width + 2),
            y: coordinate(1 + offset),
            width,
            height,
        },
        ToastPosition::TopLeft => Rect { x: 2, y: coordinate(1 + offset), width, height },
        ToastPosition::BottomRight => Rect {
            x: sub_or_zero(screen.width as int, width + 2),
            y: sub_or_zero(screen.height as int, 6 + offset),
            width,
            height,
        },
        ToastPosition::BottomLeft => Rect {
            x: 2,
            y: sub_or_zero(screen.height as int, 6 + offset),
            width,
            height,
        },
        ToastPosition::Center => Rect {
            x: sub_or_zero(screen.width as int / 2, width as int / 2),
            y: coordinate(sub_or_zero(screen.height as int / 2, 2) + offset),
            width,
            height,
        },
    }
}

impl ToastMessage {
    /// A fresh notification, made now.
    pub fn new(message: String, toast_type: ToastType) -> (r: Self)
        ensures
            r@ == toast(message@, toast_type),
    {
        Self {
            message,
            message_type: toast_type,
            created_at: now(),
            is_hovered: false,
            position: ToastPosition::TopRight,
        }
    }

    /// The notification at another position.
    pub fn with_position(self, position: ToastPosition) -> (r: Self)
        ensures
            r@ == (ToastView { position, ..self@ }),
            r.created_at == self.created_at,
    {
        let mut r = self;
        r.position = position;
        r
    }

    /// Whether the notification is still shown, going by the clock. Under the
    /// mouse it always is.
    pub fn should_show(&self, hover_mouse_pos: Option<(u16, u16)>, toast_area: Rect) -> (r: bool)
        ensures
            (hover_mouse_pos matches Some((x, y)) && toast_area.holds(x, y)) ==> r,
    {
        let elapsed_ms = elapsed_millis(&self.created_at);
        self.should_show_after(elapsed_ms, hover_mouse_pos, toast_area)
    }

    /// Whether the notification is still shown `elapsed_ms` milliseconds after
    /// it was made.
    pub fn should_show_after(
        &self,
        elapsed_ms: u128,
        hover_mouse_pos: Option<(u16, u16)>,
        toast_area: Rect,
    ) -> (r: bool)
        ensures
            r == shown_after(elapsed_ms, hover_mouse_pos, toast_area),
    {
        if let Some((mouse_x, mouse_y)) = hover_mouse_pos {
            if toast_area.contains(mouse_x, mouse_y) {
                return true;
            }
        }
        elapsed_ms < TOAST_LIFETIME_MS
    }

    /// Whether the notification is shown dimmed `elapsed_ms` milliseconds
    /// after it was made: once more than two and a half seconds have passed.
    pub fn is_fading_after(&self, elapsed_ms: u128) -> (r: bool)
        ensures
            r == (elapsed_ms > TOAST_FADE_MS),
    {
        elapsed_ms > TOAST_FADE_MS
    }

    /// Whether the notification still blinks `elapsed_ms` milliseconds after
    /// it was made: for half a second.
    pub fn is_fresh_after(&self, elapsed_ms: u128) -> (r: bool)
        ensures
            r == (elapsed_ms < TOAST_FRESH_MS),
    {
        elapsed_ms < TOAST_FRESH_MS
    }

    /// The milliseconds that have passed since the notification was made,
    /// going by the clock.
    pub fn age_ms(&self) -> u128 {
        elapsed_millis(&self.created_at)
    }

    /// The sign that stands before the notification's text.
    pub fn get_icon(&self) -> (r: &'static str)
        ensures
            r@ == match self.message_type {
                ToastType::Info => "ℹ"@,
                ToastType::Success => "✓"@,
                ToastType::Warning => "⚠"@,
                ToastType::Error => "✗"@,
            },
    {
        match self.message_type {
            ToastType::Info => "ℹ",
            ToastType::Success => "✓",
            ToastType::Warning => "⚠",
            ToastType::Error => "✗",
        }
    }
}

/// What the session hands to the screen besides its content: the
/// notifications, oldest first, the place of the mouse, and the frame of the
/// spinner.
#[derive(Debug)]
pub struct UI {
    pub toast_messages: Vec<ToastMessage>,
    pub last_mouse_position: Option<(u16, u16)>,
    pub spinner_frame: usize,
}

/// The notifications once one more is added: the oldest goes where there
/// would be more than five.
pub open spec fn with_toast(toasts: Seq<ToastView>, t: ToastView) -> Seq<ToastView> {
    if toasts.len() + 1 > MAX_TOASTS {
        toasts.push(t).drop_first()
    } else {
        toasts.push(t)
    }
}

/// Whether every item of `part` is an item of `whole`, in the same order.
pub open spec fn is_subsequence<T>(part: Seq<T>, whole: Seq<T>) -> bool {
    exists|places: Seq<int>|
        {
            &&& places.len() == part.len()
            &&& forall|i: int| 0 <= i < places.len() ==> 0 <= #[trigger] places[i] < whole.len()
            &&& forall|i: int, j: int|
                0 <= i < j < places.len() ==> #[trigger] places[i] < #[trigger] places[j]
            &&& forall|i: int|
                0 <= i < part.len() ==> #[trigger] part[i] == whole[places[i]]
        }
}

impl UI {
    /// The notifications, oldest first.
    pub open spec fn toasts(&self) -> Seq<ToastView> {
        self.toast_messages.deep_view()
    }

    /// No notifications, no mouse, and the spinner at its start.
    pub fn new() -> (r: Self)
        ensures
            r.toasts() == Seq::<ToastView>::empty(),
            r.last_mouse_position is None,
            r.spinner_frame == 0,
    {
        let r = Self { toast_messages: Vec::new(), last_mouse_position: None, spinner_frame: 0 };
        assert(r.toasts() =~= Seq::empty());
        r
    }

    /// Takes note of where the mouse is.
    pub fn update_mouse_position(&mut self, x: u16, y: u16)
        ensures
            final(self).last_mouse_position == Some((x, y)),
            final(self).toast_messages == old(self).toast_messages,
            final(self).spinner_frame == old(self).spinner_frame,
    {
        self.last_mouse_position = Some((x, y));
    }

    /// Adds a notification; the oldest goes where there would be more than
    /// five.
    pub fn add_toast(&mut self, message: String, toast_type: ToastType)
        ensures
            final(self).toasts() == with_toast(old(self).toasts(), toast(message@, toast_type)),
            final(self).last_mouse_position == old(self).last_mouse_position,
            final(self).spinner_frame == old(self).spinner_frame,
    {
        let t = ToastMessage::new(message, toast_type);
        let ghost before = self.toasts();
        self.toast_messages.push(t);
        assert(self.toasts() =~= before.push(t@));
        if self.toast_messages.len() > MAX_TOASTS {
            let ghost full = self.toasts();
            self.toast_messages.remove(0);
            assert(self.toasts() =~= full.drop_first());
        }
    }

    /// Drops the notifications whose time is over, going by the clock. Those
    /// that stay keep their order, and one under the mouse always stays.
    pub fn update_toasts(&mut self, screen_size: Rect)
        ensures
            is_subsequence(final(self).toast_messages@, old(self).toast_messages@),
            final(self).last_mouse_position == old(self).last_mouse_position,
            final(self).spinner_frame == old(self).spinner_frame,
            forall|i: int|
                0 <= i < old(self).toast_messages@.len() && (old(self).last_mouse_position matches Some(
                    (x, y),
                ) && toast_area(old(self).toast_messages@[i].position, 0, screen_size).holds(x, y))
                    ==> final(self).toast_messages@.contains(#[trigger] old(self).toast_messages@[i]),
    {
        let mouse_pos = self.last_mouse_position;
        let mut kept: Vec<ToastMessage> = Vec::new();
        let ghost mut places: Seq<int> = Seq::empty();
        let mut i: usize = 0;
        while i < self.toast_messages.len()
            invariant
                0 <= i <= self.toast_messages.len(),
                *self == *old(self),
                mouse_pos == self.last_mouse_position,
                places.len() == kept@.len(),
                forall|k: int| 0 <= k < places.len() ==> 0 <= #[trigger] places[k] < i,
                forall|k: int, j: int|
                    0 <= k < j < places.len() ==> #[trigger] places[k] < #[trigger] places[j],
                forall|k: int|
                    0 <= k < kept@.len() ==> #[trigger] kept@[k] == self.toast_messages@[places[k]],
                forall|j: int|
                    0 <= j < i && (mouse_pos matches Some((x, y)) && toast_area(
                        self.toast_messages@[j].position,
                        0,
                        screen_size,
                    ).holds(x, y)) ==> kept@.contains(#[trigger] self.toast_messages@[j]),
            decreases self.toast_messages.len() - i,
        {
            let t = &self.toast_messages[i];
            let area = Self::calculate_toast_area_static(&t.position, 0, screen_size);
            let ghost before = kept@;
            if t.should_show(mouse_pos, area) {
                kept.push(t.clone());
                proof {
                    places = places.push(i as int);
                    assert(kept@.last() == self.toast_messages@[i as int]);
                    assert forall|j: int|
                        0 <= j < i + 1 && (mouse_pos matches Some((x, y)) && toast_area(
                            self.toast_messages@[j].position,
                            0,
                            screen_size,
                        ).holds(x, y)) implies kept@.contains(
                        #[trigger] self.toast_messages@[j],
                    ) by {
                        if j < i {
                            let w = choose|w: int|
                                0 <= w < before.len() && before[w] == self.toast_messages@[j];
                            assert(kept@[w] == self.toast_messages@[j]);
                        } else {
                            assert(kept@[kept@.len() - 1] == self.toast_messages@[j]);
                        }
                    }
                }
            }
            i += 1;
        }
        self.toast_messages = kept;
    }

    /// The area of the notification number `index` at a position on a screen.
    pub fn calculate_toast_area_static(position: &ToastPosition, index: usize, screen_size: Rect) -> (r:
        Rect)
        ensures
            r == toast_area(*position, index, screen_size),
    {
        let width: u16 = if screen_size.width >= 54 {
            50
        } else if screen_size.width >= 4 {
            screen_size.width - 4
        } else {
            0
        };
        let height: u16 = 5;
        let offset: u16 = if index > 10922 {
            u16::MAX
        } else {
            (index * 6) as u16
        };
        let from_top: u16 = if offset == u16::MAX {
            u16::MAX
        } else {
            1 + offset
        };
        let from_bottom: u16 = if offset > u16::MAX - 6 || screen_size.height < 6 + offset {
            0
        } else {
            screen_size.height - (6 + offset)
        };
        let right: u16 = if screen_size.width >= width + 2 {
            screen_size.width - (width + 2)
        } else {
            0
        };
        match position {
            ToastPosition::TopRight => Rect { x: right, y: from_top, width, height },
            ToastPosition::TopLeft => Rect { x: 2, y: from_top, width, height },
            ToastPosition::BottomRight => Rect { x: right, y: from_bottom, width, height },
            ToastPosition::BottomLeft => Rect { x: 2, y: from_bottom, width, height },
            ToastPosition::Center => {
                let center_x = screen_size.width / 2;
                let center_y = screen_size.height / 2;
                let top: u16 = if center_y >= 2 {
                    center_y - 2
                } else {
                    0
                };
                Rect {
                    x: if center_x >= width / 2 {
                        center_x - width / 2
                    } else {
                        0
                    },
                    y: if offset > u16::MAX - top {
                        u16::MAX
                    } else {
                        top + offset
                    },
                    width,
                    height,
                }
            },
        }
    }

    /// The area of the notification number `index` at a position on a screen.
    pub fn calculate_toast_area(&self, position: &ToastPosition, index: usize, screen_size: Rect) -> (r:
        Rect)
        ensures
            r == toast_area(*position, index, screen_size),
    {
        Self::calculate_toast_area_static(position, index, screen_size)
    }
}

impl Default for UI {
    fn default() -> (r: Self)
        ensures
            r.toasts() == Seq::<ToastView>::empty(),
            r.last_mouse_position is None,
            r.spinner_frame == 0,
    {
        Self::new()
    }
}

impl Clone for ToastMessage {
    fn clone(&self) -> (r: Self)
        ensures
            r == *self,
    {
        Self {
            message: self.message.clone(),
            message_type: self.message_type,
            created_at: self.created_at,
            is_hovered: self.is_hovered,
            position: self.position,
        }
    }
}

} // verus!
