//! The command interpreter: consumes decoded commands, maintains the
//! authoritative per-light state, and publishes full state snapshots to the
//! per-light mailboxes.
//!
//! A command addresses one light by a one-based id. Commands with an
//! unparsable or out-of-range id, an unknown topic, an unknown field, or a
//! malformed color payload are dropped without mutating anything. A dropped
//! command publishes nothing; every accepted command publishes the full
//! updated state of its light, overwriting any pending unread snapshot.

use vstd::prelude::*;

use crate::leds::{Anim, Color, LedStatus};
use crate::channel::Channel;
use crate::mailbox::Mailbox;
use crate::parse::{
    hex_component, is_numeral, numeral_value, parse_id, parse_power, spec_hex_component,
};

verus! {

/// A decoded command tuple, delivered by the external messaging collaborator.
/// The payload is opaque text; only its shape is interpreted here.
#[derive(Debug, Clone)]
pub struct Command {
    pub topic: Vec<char>,
    pub id: Vec<char>,
    pub field: Vec<char>,
    pub payload: Vec<char>,
}

impl Command {
    /// Field length bounds of the external command surface.
    pub open spec fn wf(&self) -> bool {
        &&& self.topic@.len() <= 12
        &&& self.id@.len() <= 8
        &&& self.field@.len() <= 8
        &&& self.payload@.len() <= 32
    }
}

/// The only recognized topic.
pub open spec fn spec_led_topic() -> Seq<char> {
    seq!['l', 'e', 'd']
}

/// The field selecting a light's color.
pub open spec fn spec_color_field() -> Seq<char> {
    seq!['c', 'o', 'l', 'o', 'r']
}

/// The field selecting a light's power level.
pub open spec fn spec_power_field() -> Seq<char> {
    seq!['p', 'o', 'w', 'e', 'r']
}

/// The field selecting a light's animation; accepted and inert.
pub open spec fn spec_anim_field() -> Seq<char> {
    seq!['a', 'n', 'i', 'm']
}

/// The color a single-letter payload selects: case-insensitive `r`, `g`, `b`,
/// and `0`/`O`/`o` for off. Any other letter selects nothing.
pub open spec fn letter_color(c: char) -> Option<Color> {
    if c == 'R' || c == 'r' {
        Some(Color { red: 255u8, green: 0u8, blue: 0u8 })
    } else if c == 'G' || c == 'g' {
        Some(Color { red: 0u8, green: 255u8, blue: 0u8 })
    } else if c == 'B' || c == 'b' {
        Some(Color { red: 0u8, green: 0u8, blue: 255u8 })
    } else if c == '0' || c == 'O' || c == 'o' {
        Some(Color { red: 0u8, green: 0u8, blue: 0u8 })
    } else {
        None
    }
}

/// What a color payload does to the color field: `None` rejects the whole
/// command; `Some(c)` is the new value of the field. An empty payload clears
/// the field; a single unrecognized letter leaves it unchanged (the command
/// is still accepted); a `#` followed by three hex digits sets each channel
/// to its digit times sixteen; any other shape rejects the command.
pub open spec fn color_update(payload: Seq<char>, old_color: Option<Color>) -> Option<
    Option<Color>,
> {
    if payload.len() == 0 {
        Some(None)
    } else if payload.len() == 1 {
        match letter_color(payload[0]) {
            Some(c) => Some(Some(c)),
            None => Some(old_color),
        }
    } else if payload.len() == 4 && payload[0] == '#' {
        Some(
            Some(
                Color {
                    red: spec_hex_component(payload[1]),
                    green: spec_hex_component(payload[2]),
                    blue: spec_hex_component(payload[3]),
                },
            ),
        )
    } else {
        None
    }
}

/// What a power payload sets the power field to: a numeral that fits in
/// eight bits sets it; anything else — including the explicit empty payload —
/// clears it to unset. A power command is never rejected.
pub open spec fn power_update(payload: Seq<char>) -> Option<u8> {
    if is_numeral(payload) && numeral_value(payload) <= 255 {
        Some(numeral_value(payload) as u8)
    } else {
        None
    }
}

/// The new state of the addressed light, or `None` when the command is
/// dropped because of an unknown field or a malformed color payload.
pub open spec fn spec_effect(field: Seq<char>, payload: Seq<char>, state: LedStatus) -> Option<
    LedStatus,
> {
    if field == spec_color_field() {
        match color_update(payload, state.color) {
            Some(c) => Some(LedStatus { color: c, power: state.power, anim: state.anim }),
            None => None,
        }
    } else if field == spec_power_field() {
        Some(LedStatus { color: state.color, power: power_update(payload), anim: state.anim })
    } else if field == spec_anim_field() {
        Some(state)
    } else {
        None
    }
}

/// The zero-based slot a command addresses, or `None` when the topic is not
/// recognized or the id does not parse to a number in `[1, count]`.
pub open spec fn target_slot(topic: Seq<char>, id: Seq<char>, count: nat) -> Option<int> {
    if !is_numeral(id) {
        None
    } else if topic != spec_led_topic() {
        None
    } else {
        let n = numeral_value(id);
        if n == 0 || n > count {
            None
        } else {
            Some(n - 1)
        }
    }
}

/// The per-light states after one command is processed.
pub open spec fn spec_apply(cmd: Command, lights: Seq<LedStatus>) -> Seq<LedStatus> {
    match target_slot(cmd.topic@, cmd.id@, lights.len()) {
        Some(i) => match spec_effect(cmd.field@, cmd.payload@, lights[i]) {
            Some(st) => lights.update(i, st),
            None => lights,
        },
        None => lights,
    }
}

/// The snapshot one command publishes, with its slot, or `None` when the
/// command is dropped.
pub open spec fn spec_published(cmd: Command, lights: Seq<LedStatus>) -> Option<
    (int, LedStatus),
> {
    match target_slot(cmd.topic@, cmd.id@, lights.len()) {
        Some(i) => match spec_effect(cmd.field@, cmd.payload@, lights[i]) {
            Some(st) => Some((i, st)),
            None => None,
        },
        None => None,
    }
}

/// The mailboxes after one command is processed: the published snapshot
/// overwrites the addressed light's mailbox, and a dropped command leaves
/// every mailbox untouched.
pub open spec fn spec_mailboxes_after(
    cmd: Command,
    lights: Seq<LedStatus>,
    mailboxes: Seq<Mailbox<LedStatus>>,
) -> Seq<Mailbox<LedStatus>> {
    match spec_published(cmd, lights) {
        Some((i, st)) => mailboxes.update(i, (Mailbox { pending: Some(st) })),
        None => mailboxes,
    }
}

/// Lights and mailboxes after a whole queue of commands is processed in FIFO
/// order.
pub open spec fn spec_drain(
    cmds: Seq<Command>,
    lights: Seq<LedStatus>,
    mailboxes: Seq<Mailbox<LedStatus>>,
) -> (Seq<LedStatus>, Seq<Mailbox<LedStatus>>)
    decreases cmds.len(),
{
    if cmds.len() == 0 {
        (lights, mailboxes)
    } else {
        spec_drain(
            cmds.skip(1),
            spec_apply(cmds[0], lights),
            spec_mailboxes_after(cmds[0], lights, mailboxes),
        )
    }
}

/// For every id outside `[1, count]` — non-numeric ids included — processing
/// a command leaves every light state unchanged and publishes nothing.
pub proof fn lemma_out_of_range_id_unchanged(cmd: Command, lights: Seq<LedStatus>)
    requires
        !(is_numeral(cmd.id@) && 1 <= numeral_value(cmd.id@) <= lights.len()),
    ensures
        spec_apply(cmd, lights) == lights,
        spec_published(cmd, lights) is None,
{
}

/// Processing the same command twice in a row is idempotent: the second pass
/// leaves the light states exactly as the first did, and publishes exactly
/// the same snapshot (or, like the first, none at all).
pub proof fn lemma_process_idempotent(cmd: Command, lights: Seq<LedStatus>)
    ensures
        spec_apply(cmd, spec_apply(cmd, lights)) == spec_apply(cmd, lights),
        spec_published(cmd, spec_apply(cmd, lights)) == spec_published(cmd, lights),
{
    let once = spec_apply(cmd, lights);
    match target_slot(cmd.topic@, cmd.id@, lights.len()) {
        None => {},
        Some(i) => {
            match spec_effect(cmd.field@, cmd.payload@, lights[i]) {
                None => {},
                Some(st) => {
                    assert(once == lights.update(i, st));
                    assert(once[i] == st);
                    assert(spec_effect(cmd.field@, cmd.payload@, st) == Some(st));
                    assert(once.update(i, st) =~= once);
                },
            }
        },
    }
}

fn is_topic_led(topic: &Vec<char>) -> (r: bool)
    ensures
        r == (topic@ == spec_led_topic()),
{
    let r = topic.len() == 3 && *topic.get(0).unwrap() == 'l' && *topic.get(1).unwrap() == 'e'
        && *topic.get(2).unwrap() == 'd';
    proof {
        if r {
            assert(topic@ =~= spec_led_topic());
        } else {
            assert(spec_led_topic().len() == 3);
            assert(topic@ != spec_led_topic());
        }
    }
    r
}

fn is_field_color(field: &Vec<char>) -> (r: bool)
    ensures
        r == (field@ == spec_color_field()),
{
    let r = field.len() == 5 && *field.get(0).unwrap() == 'c' && *field.get(1).unwrap() == 'o'
        && *field.get(2).unwrap() == 'l' && *field.get(3).unwrap() == 'o' && *field.get(
        4,
    ).unwrap() == 'r';
    proof {
        if r {
            assert(field@ =~= spec_color_field());
        } else {
            assert(spec_color_field().len() == 5);
            assert(field@ != spec_color_field());
        }
    }
    r
}

fn is_field_power(field: &Vec<char>) -> (r: bool)
    ensures
        r == (field@ == spec_power_field()),
{
    let r = field.len() == 5 && *field.get(0).unwrap() == 'p' && *field.get(1).unwrap() == 'o'
        && *field.get(2).unwrap() == 'w' && *field.get(3).unwrap() == 'e' && *field.get(
        4,
    ).unwrap() == 'r';
    proof {
        if r {
            assert(field@ =~= spec_power_field());
        } else {
            assert(spec_power_field().len() == 5);
            assert(field@ != spec_power_field());
        }
    }
    r
}

fn is_field_anim(field: &Vec<char>) -> (r: bool)
    ensures
        r == (field@ == spec_anim_field()),
{
    let r = field.len() == 4 && *field.get(0).unwrap() == 'a' && *field.get(1).unwrap() == 'n'
        && *field.get(2).unwrap() == 'i' && *field.get(3).unwrap() == 'm';
    proof {
        if r {
            assert(field@ =~= spec_anim_field());
        } else {
            assert(spec_anim_field().len() == 4);
            assert(field@ != spec_anim_field());
        }
    }
    r
}

/// The command interpreter: the sole owner and sole mutator of the per-light
/// states, and the sole writer of the per-light mailboxes.
pub struct Interpreter {
    pub lights: Vec<LedStatus>,
    pub mailboxes: Vec<Mailbox<LedStatus>>,
}

impl Interpreter {
    /// One mailbox per light.
    pub open spec fn wf(&self) -> bool {
        self.lights@.len() == self.mailboxes@.len()
    }

    /// A fresh interpreter for `count` lights: every state fully unset, every
    /// mailbox empty. Created once at startup and never destroyed.
    pub fn new(count: usize) -> (r: Interpreter)
        ensures
            r.wf(),
            r.lights@.len() == count,
            forall|i: int|
                0 <= i < count ==> r.lights@[i] == (LedStatus {
                    color: None,
                    power: None,
                    anim: Anim::Off,
                }),
            forall|i: int| 0 <= i < count ==> r.mailboxes@[i]@ is None,
    {
        let mut lights: Vec<LedStatus> = Vec::new();
        let mut mailboxes: Vec<Mailbox<LedStatus>> = Vec::new();
        let mut i: usize = 0;
        while i < count
            invariant
                i <= count,
                lights@.len() == i,
                mailboxes@.len() == i,
                forall|j: int|
                    0 <= j < i ==> lights@[j] == (LedStatus {
                        color: None,
                        power: None,
                        anim: Anim::Off,
                    }),
                forall|j: int| 0 <= j < i ==> mailboxes@[j]@ is None,
            decreases count - i,
        {
            lights.push(LedStatus::unset());
            mailboxes.push(Mailbox::new());
            i = i + 1;
        }
        Interpreter { lights, mailboxes }
    }

    /// How many lights the interpreter drives.
    pub fn light_count(&self) -> (r: usize)
        ensures
            r == self.lights@.len(),
    {
        self.lights.len()
    }

    /// Process one dequeued command: parse and validate it, update the
    /// addressed light's state, and publish the full updated state to that
    /// light's mailbox. Returns the slot published to, or `None` when the
    /// command was dropped; a dropped command mutates nothing.
    pub fn process(&mut self, cmd: &Command) -> (published: Option<usize>)
        requires
            old(self).wf(),
            cmd.wf(),
        ensures
            final(self).wf(),
            final(self).lights@ == spec_apply(*cmd, old(self).lights@),
            final(self).mailboxes@ == spec_mailboxes_after(
                *cmd,
                old(self).lights@,
                old(self).mailboxes@,
            ),
            match spec_published(*cmd, old(self).lights@) {
                Some((slot, st)) => published == Some(slot as usize),
                None => published is None,
            },
    {
        let n: usize = match parse_id(&cmd.id) {
            Some(n) => n,
            None => {
                return None;
            },
        };
        proof {
            crate::parse::lemma_numeral_value_bound(cmd.id@);
            assert(n == numeral_value(cmd.id@));
        }
        if !is_topic_led(&cmd.topic) {
            return None;
        }
        if n == 0 || n > self.lights.len() {
            return None;
        }
        let slot = n - 1;
        let state = self.lights[slot];
        let new_state: LedStatus;
        if is_field_color(&cmd.field) {
            let len = cmd.payload.len();
            if len == 0 {
                new_state = LedStatus { color: None, power: state.power, anim: state.anim };
            } else if len == 1 {
                let c = cmd.payload[0];
                if c == 'R' || c == 'r' {
                    new_state = LedStatus {
                        color: Some(Color::red()),
                        power: state.power,
                        anim: state.anim,
                    };
                } else if c == 'G' || c == 'g' {
                    new_state = LedStatus {
                        color: Some(Color::green()),
                        power: state.power,
                        anim: state.anim,
                    };
                } else if c == 'B' || c == 'b' {
                    new_state = LedStatus {
                        color: Some(Color::blue()),
                        power: state.power,
                        anim: state.anim,
                    };
                } else if c == '0' || c == 'O' || c == 'o' {
                    new_state = LedStatus {
                        color: Some(Color::off()),
                        power: state.power,
                        anim: state.anim,
                    };
                } else {
                    new_state = state;
                }
            } else if len == 4 && cmd.payload[0] == '#' {
                let red = hex_component(cmd.payload[1]);
                let green = hex_component(cmd.payload[2]);
                let blue = hex_component(cmd.payload[3]);
                new_state = LedStatus {
                    color: Some(Color::new(red, green, blue)),
                    power: state.power,
                    anim: state.anim,
                };
            } else {
                return None;
            }
        } else if is_field_power(&cmd.field) {
            new_state = LedStatus {
                color: state.color,
                power: parse_power(&cmd.payload),
                anim: state.anim,
            };
        } else if is_field_anim(&cmd.field) {
            new_state = state;
        } else {
            return None;
        }
        self.lights[slot] = new_state;
        self.mailboxes[slot].publish(new_state);
        proof {
            assert(self.mailboxes@ =~= old(self).mailboxes@.update(
                slot as int,
                (Mailbox { pending: Some(new_state) }),
            ));
        }
        Some(slot)
    }

    /// Consume the whole command bus in FIFO order, processing every queued
    /// command. This is the interpreter's turn of the cooperative loop; the
    /// scheduler suspends it again once the bus is empty.
    pub fn drain(&mut self, bus: &mut Channel<Command>)
        requires
            old(self).wf(),
            old(bus).wf(),
            forall|j: int| 0 <= j < old(bus)@.len() ==> (#[trigger] old(bus)@[j]).wf(),
        ensures
            final(self).wf(),
            final(bus).wf(),
            final(bus)@ == Seq::<Command>::empty(),
            final(bus).spec_capacity() == old(bus).spec_capacity(),
            (final(self).lights@, final(self).mailboxes@) == spec_drain(
                old(bus)@,
                old(self).lights@,
                old(self).mailboxes@,
            ),
    {
        while bus.len() > 0
            invariant
                self.wf(),
                bus.wf(),
                bus.spec_capacity() == old(bus).spec_capacity(),
                forall|j: int| 0 <= j < bus@.len() ==> (#[trigger] bus@[j]).wf(),
                spec_drain(bus@, self.lights@, self.mailboxes@) == spec_drain(
                    old(bus)@,
                    old(self).lights@,
                    old(self).mailboxes@,
                ),
            decreases bus@.len(),
        {
            let ghost prev_bus = bus@;
            let ghost prev_lights = self.lights@;
            let ghost prev_mail = self.mailboxes@;
            match bus.try_receive() {
                Some(cmd) => {
                    self.process(&cmd);
                    proof {
                        assert(forall|j: int|
                            0 <= j < bus@.len() ==> #[trigger] bus@[j] == prev_bus[j + 1]);
                        assert(spec_drain(prev_bus, prev_lights, prev_mail) == spec_drain(
                            bus@,
                            self.lights@,
                            self.mailboxes@,
                        ));
                    }
                },
                None => {
                    proof {
                        assert(false);
                    }
                },
            }
        }
        proof {
            assert(bus@ =~= Seq::<Command>::empty());
        }
    }
}

} // verus!
