//! Input reports of pointing devices and keyboards, and a cursor that follows
//! them.
use vstd::prelude::*;

verus! {

/// One event decoded from an input report.
#[derive(Copy, Clone, Debug, PartialEq, Eq, Structural)]
pub enum InputEvent {
    Mouse { source: i32, delta_x: i32, delta_y: i32, buttons: i32 },
    Keyboard { keycode: u8, pressed: bool },
}

/// Size of a boot-protocol mouse report: buttons, then the signed x and y
/// movement.
pub const MOUSE_REPORT_SIZE: usize = 3;

/// The value of a byte read as a two's complement signed byte.
pub open spec fn signed_byte(b: u8) -> i32 {
    if b < 128 {
        b as i32
    } else {
        (b - 256) as i32
    }
}

/// The event of the mouse report `b[at..at + 3]` from `source`.
pub open spec fn mouse_event(source: i32, b: Seq<u8>, at: int) -> InputEvent {
    InputEvent::Mouse {
        source,
        delta_x: signed_byte(b[at + 1]),
        delta_y: signed_byte(b[at + 2]),
        buttons: b[at] as i32,
    }
}

/// The events of the consecutive mouse reports that fill `b`.
pub open spec fn mouse_events(source: i32, b: Seq<u8>) -> Seq<InputEvent> {
    Seq::new((b.len() / 3) as nat, |i: int| mouse_event(source, b, 3 * i))
}

/// Decodes the reports of one kind of input device into events.
pub trait InputReportHandler {
    /// Whether a buffer can be decoded by this handler.
    spec fn accepts(&self, buffer: Seq<u8>) -> bool;

    /// The events that a buffer from `source` holds.
    spec fn events(&self, source: i32, buffer: Seq<u8>) -> Seq<InputEvent>;

    /// Decodes a buffer read from the device `source`.
    fn parse(&mut self, source: i32, buffer: &Vec<u8>) -> (r: Vec<InputEvent>)
        requires
            old(self).accepts(buffer@),
        ensures
            r@ == old(self).events(source, buffer@),
    ;
}

/// Decodes boot-protocol mouse reports.
pub struct MouseReportHandler {}

impl InputReportHandler for MouseReportHandler {
    open spec fn accepts(&self, buffer: Seq<u8>) -> bool {
        buffer.len() % 3 == 0
    }

    open spec fn events(&self, source: i32, buffer: Seq<u8>) -> Seq<InputEvent> {
        mouse_events(source, buffer)
    }

    fn parse(&mut self, source: i32, buffer: &Vec<u8>) -> (r: Vec<InputEvent>) {
        let mut events: Vec<InputEvent> = Vec::new();
        let mut index: usize = 0;
        while index < buffer.len()
            invariant
                buffer@.len() % 3 == 0,
                index % 3 == 0,
                index <= buffer@.len(),
                events@ == mouse_events(source, buffer@.subrange(0, index as int)),
            decreases buffer@.len() - index,
        {
            let buttons = buffer[index];
            let rel_x = buffer[index + 1];
            let rel_y = buffer[index + 2];
            let event = InputEvent::Mouse {
                source,
                delta_x: if rel_x < 128 { rel_x as i32 } else { rel_x as i32 - 256 },
                delta_y: if rel_y < 128 { rel_y as i32 } else { rel_y as i32 - 256 },
                buttons: buttons as i32,
            };
            events.push(event);
            index = index + MOUSE_REPORT_SIZE;
            assert(events@ =~= mouse_events(source, buffer@.subrange(0, index as int)));
        }
        assert(buffer@.subrange(0, index as int) =~= buffer@);
        events
    }
}

/// Decodes keyboard reports; no keyboard event is decoded yet.
pub struct KeyboardReportHandler {}

impl InputReportHandler for KeyboardReportHandler {
    open spec fn accepts(&self, buffer: Seq<u8>) -> bool {
        true
    }

    open spec fn events(&self, source: i32, buffer: Seq<u8>) -> Seq<InputEvent> {
        Seq::empty()
    }

    fn parse(&mut self, _source: i32, _buffer: &Vec<u8>) -> (r: Vec<InputEvent>) {
        Vec::new()
    }
}

/// The report decoder of a device, by kind.
pub enum ReportHandler {
    Keyboard(KeyboardReportHandler),
    Mouse(MouseReportHandler),
}

impl InputReportHandler for ReportHandler {
    open spec fn accepts(&self, buffer: Seq<u8>) -> bool {
        match self {
            ReportHandler::Keyboard(h) => h.accepts(buffer),
            ReportHandler::Mouse(h) => h.accepts(buffer),
        }
    }

    open spec fn events(&self, source: i32, buffer: Seq<u8>) -> Seq<InputEvent> {
        match self {
            ReportHandler::Keyboard(h) => h.events(source, buffer),
            ReportHandler::Mouse(h) => h.events(source, buffer),
        }
    }

    fn parse(&mut self, source: i32, buffer: &Vec<u8>) -> (r: Vec<InputEvent>) {
        match self {
            ReportHandler::Keyboard(h) => h.parse(source, buffer),
            ReportHandler::Mouse(h) => h.parse(source, buffer),
        }
    }
}

/// Input protocol of a keyboard.
pub const INPUT_PROTO_KBD: i32 = 1;

/// Input protocol of a mouse.
pub const INPUT_PROTO_MOUSE: i32 = 2;

/// The report decoder for a device of this input protocol, if there is one.
pub fn new_handler(input_protocol: i32) -> (r: Option<ReportHandler>)
    ensures
        input_protocol == INPUT_PROTO_KBD <==> r matches Some(ReportHandler::Keyboard(_)),
        input_protocol == INPUT_PROTO_MOUSE <==> r matches Some(ReportHandler::Mouse(_)),
        r is None <==> input_protocol != INPUT_PROTO_KBD && input_protocol != INPUT_PROTO_MOUSE,
{
    match input_protocol {
        1 => Some(ReportHandler::Keyboard(KeyboardReportHandler {})),
        2 => Some(ReportHandler::Mouse(MouseReportHandler {})),
        _ => None,
    }
}

/// What happened to one button between two reports.
#[derive(Copy, Clone, Debug, PartialEq, Eq, Structural)]
pub enum ButtonAction {
    NoChange,
    Down,
    Up,
}

/// What happened to each button, by button index.
pub type ButtonActions = std::collections::HashMap<usize, ButtonAction>;

/// Number of buttons a cursor tracks.
pub const BUTTON_COUNT: usize = 8;

/// `v` limited to `0..=max`, the upper limit applied first.
pub open spec fn clamp(v: int, max: int) -> int {
    let t = if max < v {
        max
    } else {
        v
    };
    if t < 0 {
        0
    } else {
        t
    }
}

/// Whether bit `i` of `v` is set.
pub open spec fn bit_set(v: i32, i: u32) -> bool {
    (v >> i) & 1 != 0
}

/// What happened to button `i` when the button state went from `previous` to
/// `current`.
pub open spec fn button_action(previous: i32, current: i32, i: u32) -> ButtonAction {
    if bit_set(previous ^ current, i) {
        if bit_set(current, i) {
            ButtonAction::Down
        } else {
            ButtonAction::Up
        }
    } else {
        ButtonAction::NoChange
    }
}

/// A pointer position within `0..=max_x` by `0..=max_y`, and the state of its
/// buttons, one bit each.
#[derive(Copy, Clone, Debug, PartialEq, Eq, Structural)]
pub struct Cursor {
    max_x: i32,
    max_y: i32,
    pub x: i32,
    pub y: i32,
    buttons: i32,
}

impl Cursor {
    /// The largest horizontal position.
    pub closed spec fn max_x(&self) -> i32 {
        self.max_x
    }

    /// The largest vertical position.
    pub closed spec fn max_y(&self) -> i32 {
        self.max_y
    }

    /// The position, horizontal then vertical.
    pub closed spec fn position(&self) -> (i32, i32) {
        (self.x, self.y)
    }

    /// The button state of the last event.
    pub closed spec fn buttons(&self) -> i32 {
        self.buttons
    }

    /// A cursor at the origin with no button pressed.
    pub fn new(max_x: i32, max_y: i32) -> (r: Cursor)
        ensures
            r.max_x() == max_x,
            r.max_y() == max_y,
            r.position() == (0i32, 0i32),
            r.buttons() == 0,
    {
        Cursor { max_x, max_y, x: 0, y: 0, buttons: 0 }
    }

    /// Moves the cursor by a movement report, clamped to its bounds, and takes
    /// the report's button state; returns what happened to each button.
    pub fn create_event(&mut self, event_source: i32, delta_x: i32, delta_y: i32, buttons: i32) -> (r:
        ButtonActions)
        ensures
            final(self).max_x() == old(self).max_x(),
            final(self).max_y() == old(self).max_y(),
            final(self).position().0 == clamp(
                old(self).position().0 + delta_x,
                old(self).max_x() as int,
            ),
            final(self).position().1 == clamp(
                old(self).position().1 + delta_y,
                old(self).max_y() as int,
            ),
            final(self).buttons() == buttons,
            r@.dom() == Set::new(|i: usize| i < BUTTON_COUNT),
            forall|i: usize|
                i < BUTTON_COUNT ==> #[trigger] r@[i] == button_action(
                    old(self).buttons(),
                    buttons,
                    i as u32,
                ),
    {
        let x: i64 = self.x as i64 + delta_x as i64;
        let x: i64 = if (self.max_x as i64) < x {
            self.max_x as i64
        } else {
            x
        };
        self.x = if x < 0 {
            0
        } else {
            x as i32
        };
        let y: i64 = self.y as i64 + delta_y as i64;
        let y: i64 = if (self.max_y as i64) < y {
            self.max_y as i64
        } else {
            y
        };
        self.y = if y < 0 {
            0
        } else {
            y as i32
        };
        let changed = self.buttons ^ buttons;
        let mut actions: ButtonActions = std::collections::HashMap::new();
        let mut i: usize = 0;
        while i < BUTTON_COUNT
            invariant
                i <= BUTTON_COUNT,
                changed == old(self).buttons() ^ buttons,
                actions@.dom() == Set::new(|j: usize| j < i),
                forall|j: usize|
                    j < i ==> #[trigger] actions@[j] == button_action(
                        old(self).buttons(),
                        buttons,
                        j as u32,
                    ),
            decreases BUTTON_COUNT - i,
        {
            let bit: u32 = i as u32;
            let action = if (changed >> bit) & 1 != 0 {
                if (buttons >> bit) & 1 != 0 {
                    ButtonAction::Down
                } else {
                    ButtonAction::Up
                }
            } else {
                ButtonAction::NoChange
            };
            actions.insert(i, action);
            i = i + 1;
            assert(actions@.dom() =~= Set::new(|j: usize| j < i));
        }
        self.buttons = buttons;
        actions
    }
}

} // verus!
