//! External commands: recognizing topics, parsing payloads, and applying
//! commands to the bulb, with the echo of the authoritative value that each
//! applied command sends back outward.

use vstd::prelude::*;
use crate::MAX_BRIGHTNESS;
use crate::bulb::{Bulb, Status};

verus! {

/// A command drained from the control channel, already interpreted.
#[derive(Clone, Copy, PartialEq, Eq, Structural, Debug)]
pub enum Command {
    SetStatus(Status),
    SetBrightness(u32),
}

/// What the bulb echoes back outward after a state change: the applied
/// (post-clamp) value, not the raw external request.
#[derive(Clone, Copy, PartialEq, Eq, Structural, Debug)]
pub enum Echo {
    Status(Status),
    Brightness(u32),
}

/// The result of interpreting one `(topic, payload)` pair.
#[derive(Clone, Copy, PartialEq, Eq, Structural, Debug)]
pub enum ParseOutcome {
    /// A recognized topic with a well-formed payload.
    Recognized(Command),
    /// An unrecognized topic, or a switch payload that is neither "0" nor
    /// "1"; silently ignored.
    Ignored,
    /// A brightness payload that is not a decimal integer fitting `u32`;
    /// the caller treats this as fatal.
    MalformedPayload,
}

/// Topic that switches the bulb on or off.
pub open spec fn switch_topic() -> Seq<char> {
    "bedroom/light/switch"@
}

/// Topic that sets the target brightness.
pub open spec fn brightness_set_topic() -> Seq<char> {
    "bedroom/light/brightness/set"@
}

/// A decimal digit byte.
pub open spec fn is_digit(b: u8) -> bool {
    48 <= b <= 57
}

/// Numeric value of a digit byte; non-digits count as 0.
pub open spec fn digit_of(b: u8) -> nat {
    if is_digit(b) {
        (b - 48) as nat
    } else {
        0
    }
}

/// Every byte of the payload is a decimal digit.
pub open spec fn all_digits(p: Seq<u8>) -> bool {
    forall|k: int| 0 <= k < p.len() ==> is_digit(p[k])
}

/// The base-10 value of a digit string.
pub open spec fn dec_value(p: Seq<u8>) -> nat
    decreases p.len(),
{
    if p.len() == 0 {
        0
    } else {
        dec_value(p.drop_last()) * 10 + digit_of(p.last())
    }
}

/// A prefix of a digit string never exceeds the whole string's value.
pub proof fn lemma_dec_value_prefix(p: Seq<u8>, j: int)
    requires
        0 <= j <= p.len(),
    ensures
        dec_value(p.subrange(0, j)) <= dec_value(p),
    decreases p.len(),
{
    if j == p.len() {
        assert(p.subrange(0, j) =~= p);
    } else {
        lemma_dec_value_prefix(p.drop_last(), j);
        assert(p.drop_last().subrange(0, j) =~= p.subrange(0, j));
    }
}

/// The value of a decimal payload, if it is one: nonempty, all digits, and
/// fitting `u32`.
pub open spec fn spec_parse_u32(p: Seq<u8>) -> Option<u32> {
    if p.len() > 0 && all_digits(p) && dec_value(p) <= u32::MAX {
        Some(dec_value(p) as u32)
    } else {
        None
    }
}

/// Parses a decimal integer payload. Returns `Some` exactly on nonempty
/// all-digit payloads whose value fits `u32`, and then the value itself.
pub fn parse_u32(payload: &[u8]) -> (r: Option<u32>)
    ensures
        r == spec_parse_u32(payload@),
{
    let n = payload.len();
    if n == 0 {
        return None;
    }
    let mut acc: u32 = 0;
    let mut i: usize = 0;
    while i < n
        invariant
            0 < n == payload@.len(),
            i <= n,
            forall|k: int| 0 <= k < i ==> is_digit(payload@[k]),
            acc == dec_value(payload@.subrange(0, i as int)),
        decreases n - i,
    {
        let b = payload[i];
        if b < 48 || b > 57 {
            assert(!all_digits(payload@));
            return None;
        }
        let d: u32 = (b - 48) as u32;
        if acc > (u32::MAX - d) / 10 {
            proof {
                assert(payload@.subrange(0, (i + 1) as int).drop_last() =~= payload@.subrange(
                    0,
                    i as int,
                ));
                assert(dec_value(payload@.subrange(0, (i + 1) as int)) == acc * 10 + d);
                if all_digits(payload@) {
                    lemma_dec_value_prefix(payload@, (i + 1) as int);
                }
            }
            return None;
        }
        proof {
            assert(payload@.subrange(0, (i + 1) as int).drop_last() =~= payload@.subrange(
                0,
                i as int,
            ));
        }
        acc = acc * 10 + d;
        i += 1;
    }
    proof {
        assert(payload@.subrange(0, n as int) =~= payload@);
    }
    Some(acc)
}

/// Interpretation of one drained `(topic, payload)` pair: a status change on
/// the switch topic, a brightness-target change on the brightness topic, and
/// nothing on any other topic.
pub open spec fn spec_parse_command(topic: Seq<char>, payload: Seq<u8>) -> ParseOutcome {
    if topic == switch_topic() {
        if payload.len() == 1 && payload[0] == 49 {
            ParseOutcome::Recognized(Command::SetStatus(Status::On))
        } else if payload.len() == 1 && payload[0] == 48 {
            ParseOutcome::Recognized(Command::SetStatus(Status::Off))
        } else {
            ParseOutcome::Ignored
        }
    } else if topic == brightness_set_topic() {
        match spec_parse_u32(payload) {
            Some(v) => ParseOutcome::Recognized(Command::SetBrightness(v)),
            None => ParseOutcome::MalformedPayload,
        }
    } else {
        ParseOutcome::Ignored
    }
}

/// Interprets one drained message. Unknown topics are ignored; a malformed
/// brightness payload is reported so the caller can fail as configured.
pub fn parse_command(topic: &String, payload: &[u8]) -> (r: ParseOutcome)
    ensures
        r == spec_parse_command(topic@, payload@),
{
    let switch: String = "bedroom/light/switch".to_owned();
    let brightness_set: String = "bedroom/light/brightness/set".to_owned();
    if topic.eq(&switch) {
        if payload.len() == 1 && payload[0] == 49 {
            ParseOutcome::Recognized(Command::SetStatus(Status::On))
        } else if payload.len() == 1 && payload[0] == 48 {
            ParseOutcome::Recognized(Command::SetStatus(Status::Off))
        } else {
            ParseOutcome::Ignored
        }
    } else if topic.eq(&brightness_set) {
        match parse_u32(payload) {
            Some(v) => ParseOutcome::Recognized(Command::SetBrightness(v)),
            None => ParseOutcome::MalformedPayload,
        }
    } else {
        ParseOutcome::Ignored
    }
}

/// Clamp an externally received brightness into the full-scale range.
pub open spec fn clamp_brightness(v: u32) -> u32 {
    if v > MAX_BRIGHTNESS {
        MAX_BRIGHTNESS
    } else {
        v
    }
}

/// The bulb after one command: a status command replaces the status, a
/// brightness command replaces the target with the clamped value.
pub open spec fn spec_apply_command(b: Bulb, c: Command) -> Bulb {
    match c {
        Command::SetStatus(s) => Bulb { current_status: s, ..b },
        Command::SetBrightness(v) => Bulb { target_brightness: clamp_brightness(v), ..b },
    }
}

/// The echo a command produces: the applied, clamped value.
pub open spec fn spec_echo_of(c: Command) -> Echo {
    match c {
        Command::SetStatus(s) => Echo::Status(s),
        Command::SetBrightness(v) => Echo::Brightness(clamp_brightness(v)),
    }
}

/// The bulb after a whole drained batch, applied in order.
pub open spec fn spec_apply_all(b: Bulb, cmds: Seq<Command>) -> Bulb
    decreases cmds.len(),
{
    if cmds.len() == 0 {
        b
    } else {
        spec_apply_command(spec_apply_all(b, cmds.drop_last()), cmds.last())
    }
}

/// The echoes of a whole drained batch, one per command, in order.
pub open spec fn spec_echoes_of(cmds: Seq<Command>) -> Seq<Echo> {
    cmds.map_values(|c: Command| spec_echo_of(c))
}

impl Bulb {
    /// Applies one command and returns its echo.
    pub fn apply_command(&mut self, c: Command) -> (e: Echo)
        requires
            old(self).wf(),
        ensures
            final(self).wf(),
            *final(self) == spec_apply_command(*old(self), c),
            e == spec_echo_of(c),
    {
        match c {
            Command::SetStatus(s) => {
                self.current_status = s;
                Echo::Status(s)
            },
            Command::SetBrightness(v) => {
                let clamped = if v > MAX_BRIGHTNESS {
                    MAX_BRIGHTNESS
                } else {
                    v
                };
                self.target_brightness = clamped;
                Echo::Brightness(clamped)
            },
        }
    }

    /// Applies a whole drained batch in order: every command of the batch
    /// takes effect, none is dropped, and each produces its echo.
    pub fn apply_commands(&mut self, cmds: &Vec<Command>) -> (es: Vec<Echo>)
        requires
            old(self).wf(),
        ensures
            final(self).wf(),
            *final(self) == spec_apply_all(*old(self), cmds@),
            es@ == spec_echoes_of(cmds@),
            es@.len() == cmds@.len(),
            final(self).current_brightness == old(self).current_brightness,
    {
        let ghost b0 = *self;
        let mut es: Vec<Echo> = Vec::new();
        let mut i: usize = 0;
        while i < cmds.len()
            invariant
                old(self).wf(),
                self.wf(),
                i <= cmds@.len(),
                *self == spec_apply_all(b0, cmds@.subrange(0, i as int)),
                es@ =~= spec_echoes_of(cmds@.subrange(0, i as int)),
                self.current_brightness == b0.current_brightness,
                b0 == *old(self),
            decreases cmds@.len() - i,
        {
            let e = self.apply_command(cmds[i]);
            es.push(e);
            proof {
                assert(cmds@.subrange(0, (i + 1) as int).drop_last() =~= cmds@.subrange(
                    0,
                    i as int,
                ));
                assert(es@ =~= spec_echoes_of(cmds@.subrange(0, (i + 1) as int)));
            }
            i += 1;
        }
        proof {
            assert(cmds@.subrange(0, cmds@.len() as int) =~= cmds@);
        }
        es
    }
}

} // verus!
