//! Commands and their wire encoding: `AT`, the command's name, an optional
//! `=` with its argument, and a carriage return and line feed.
use vstd::prelude::*;
use vstd::string::StringSliceAdditionalSpecFns;
use vstd::utf8::encode_utf8;
use crate::text::{chars6, str6, string6_from};

verus! {

/// The line terminator, carriage return then line feed.
pub open spec fn crlf() -> Seq<u8> {
    seq![13u8, 10u8]
}

/// The protocol prefix `AT` that every line starts with.
pub open spec fn at_prefix() -> Seq<u8> {
    seq![65u8, 84u8]
}

/// An argument as it stands on the wire: bare, or between double quotes.
pub open spec fn arg_token(arg: Seq<u8>, quoted: bool) -> Seq<u8> {
    if quoted {
        seq![34u8] + arg + seq![34u8]
    } else {
        arg
    }
}

/// What follows the name: nothing, or `=` and the argument.
pub open spec fn arg_part(arg: Option<Seq<u8>>, quoted: bool) -> Seq<u8> {
    match arg {
        None => Seq::empty(),
        Some(a) => seq![61u8] + arg_token(a, quoted),
    }
}

/// The full line for a command with the given name and argument.
pub open spec fn at_line(name: Seq<u8>, arg: Option<Seq<u8>>, quoted: bool) -> Seq<u8> {
    at_prefix() + name + arg_part(arg, quoted) + crlf()
}

/// The bytes of an optional argument.
pub open spec fn arg_view(arg: Option<&[u8]>) -> Option<Seq<u8>> {
    match arg {
        None => None,
        Some(a) => Some(a@),
    }
}

fn push_all(out: &mut Vec<u8>, s: &[u8])
    ensures
        final(out)@ == old(out)@ + s@,
{
    let mut i: usize = 0;
    while i < s.len()
        invariant
            i <= s@.len(),
            out@ == old(out)@ + s@.subrange(0, i as int),
        decreases s@.len() - i,
    {
        out.push(s[i]);
        i = i + 1;
        proof {
            assert(s@.subrange(0, i as int) == s@.subrange(0, i - 1 as int).push(s@[i - 1]));
        }
    }
    proof {
        assert(s@.subrange(0, s@.len() as int) == s@);
    }
}

/// Builds the line for a command from its name and optional argument.
pub fn encode_line(name: &[u8], arg: Option<&[u8]>, quoted: bool) -> (r: Vec<u8>)
    ensures
        r@ == at_line(name@, arg_view(arg), quoted),
{
    let mut out: Vec<u8> = Vec::new();
    out.push(65u8);
    out.push(84u8);
    push_all(&mut out, name);
    match arg {
        None => {},
        Some(a) => {
            out.push(61u8);
            if quoted {
                out.push(34u8);
            }
            push_all(&mut out, a);
            if quoted {
                out.push(34u8);
            }
        },
    }
    out.push(13u8);
    out.push(10u8);
    proof {
        assert(out@ =~= at_line(name@, arg_view(arg), quoted));
    }
    out
}

/// How `write` leaves `buf` after it was handed `line`: the line at the
/// front and the rest untouched when it fits, `buf` untouched otherwise.
/// Either way the count returned is the length of the line.
pub open spec fn written(before: Seq<u8>, after: Seq<u8>, line: Seq<u8>, n: usize) -> bool {
    &&& n == line.len()
    &&& line.len() <= before.len() ==> after == line + before.subrange(line.len() as int, before.len() as int)
    &&& line.len() > before.len() ==> after == before
}

/// Copies `line` to the front of `buf` when it fits, and returns its length
/// either way, so that a caller can tell a short buffer from the count.
pub fn write_line(line: &Vec<u8>, buf: &mut Vec<u8>) -> (n: usize)
    ensures
        written(old(buf)@, final(buf)@, line@, n),
{
    let n = line.len();
    if n <= buf.len() {
        let mut i: usize = 0;
        while i < n
            invariant
                n == line@.len(),
                n <= old(buf)@.len(),
                i <= n,
                buf@.len() == old(buf)@.len(),
                forall|j: int| 0 <= j < i ==> buf@[j] == line@[j],
                forall|j: int| i <= j < buf@.len() ==> buf@[j] == old(buf)@[j],
            decreases n - i,
        {
            buf[i] = line[i];
            i = i + 1;
        }
        proof {
            assert(buf@ =~= line@ + old(buf)@.subrange(n as int, old(buf)@.len() as int));
        }
    }
    n
}

/// A line with the protocol prefix and the terminator taken off.
pub open spec fn strip_framing(line: Seq<u8>) -> Seq<u8> {
    line.subrange(2, line.len() - 2)
}

/// Every encoded line starts with `AT` and ends with the terminator; taking
/// both off gives back the command's name, then, if it has an argument, `=`
/// and the argument's token, from which the argument itself is read back.
pub proof fn lemma_line_round_trip(name: Seq<u8>, arg: Option<Seq<u8>>, quoted: bool)
    ensures
        at_line(name, arg, quoted).subrange(0, 2) == at_prefix(),
        at_line(name, arg, quoted).subrange(
            at_line(name, arg, quoted).len() - 2,
            at_line(name, arg, quoted).len() as int,
        ) == crlf(),
        strip_framing(at_line(name, arg, quoted)) == name + arg_part(arg, quoted),
        strip_framing(at_line(name, arg, quoted)).subrange(0, name.len() as int) == name,
        arg is None ==> strip_framing(at_line(name, arg, quoted)).len() == name.len(),
        arg matches Some(a) ==> {
            let body = strip_framing(at_line(name, arg, quoted));
            &&& body[name.len() as int] == 61u8
            &&& body.subrange(name.len() as int + 1, body.len() as int) == arg_token(a, quoted)
            &&& quoted ==> arg_token(a, quoted).subrange(1, a.len() as int + 1) == a
        },
{
    let line = at_line(name, arg, quoted);
    let body = name + arg_part(arg, quoted);
    assert(line == at_prefix() + body + crlf());
    assert(line.subrange(0, 2) =~= at_prefix());
    assert(line.subrange(line.len() - 2, line.len() as int) =~= crlf());
    assert(strip_framing(line) =~= body);
    assert(body.subrange(0, name.len() as int) =~= name);
    if let Some(a) = arg {
        assert(body.subrange(name.len() as int + 1, body.len() as int) =~= arg_token(a, quoted));
        if quoted {
            assert(arg_token(a, quoted).subrange(1, a.len() as int + 1) =~= a);
        }
    }
}

/// The shape of reply that a command expects.
#[derive(Clone, Copy, Debug, PartialEq, Eq, Structural)]
pub enum ResponseShape {
    /// The bare acknowledgement `OK`.
    Ack,
    /// One of `ON` and `OFF`.
    OnOff,
}

/// The timeout that the dispatch engine applies when a command does not set
/// its own, in milliseconds.
pub const DEFAULT_TIMEOUT_MS: u32 = 1000;

/// The name of `GetCpin`: `+CPIN`.
pub open spec fn cpin_name() -> Seq<u8> {
    seq![43u8, 67u8, 80u8, 73u8, 78u8]
}

/// The name of `AteGet`: `+ATE=?`.
pub open spec fn ate_get_name() -> Seq<u8> {
    seq![43u8, 65u8, 84u8, 69u8, 61u8, 63u8]
}

/// The name of `AteSet`: `+ATE`.
pub open spec fn ate_name() -> Seq<u8> {
    seq![43u8, 65u8, 84u8, 69u8]
}

/// The name of `SleepGet`: `+SLEEP=?`.
pub open spec fn sleep_get_name() -> Seq<u8> {
    seq![43u8, 83u8, 76u8, 69u8, 69u8, 80u8, 61u8, 63u8]
}

/// The name of `SleepSet`: `+SLEEP`.
pub open spec fn sleep_name() -> Seq<u8> {
    seq![43u8, 83u8, 76u8, 69u8, 69u8, 80u8]
}

/// The name of `Reset`: `+RESET`.
pub open spec fn reset_name() -> Seq<u8> {
    seq![43u8, 82u8, 69u8, 83u8, 69u8, 84u8]
}

/// Asks for the PIN status.
#[derive(Clone, Copy, Debug)]
pub struct GetCpin;

impl GetCpin {
    pub open spec fn spec_line(&self) -> Seq<u8> {
        at_line(cpin_name(), None, true)
    }

    /// The line `AT+CPIN\r\n`.
    pub fn encode(&self) -> (r: Vec<u8>)
        ensures
            r@ == self.spec_line(),
    {
        let name: [u8; 5] = [43, 67, 80, 73, 78];
        let r = encode_line(name.as_slice(), None, true);
        proof {
            assert(name@ =~= cpin_name());
        }
        r
    }

    /// Writes the line into `buf` when it fits; returns its length.
    pub fn write(&self, buf: &mut Vec<u8>) -> (n: usize)
        ensures
            written(old(buf)@, final(buf)@, self.spec_line(), n),
    {
        let line = self.encode();
        write_line(&line, buf)
    }

    pub fn expected_response(&self) -> (r: ResponseShape)
        ensures
            r == ResponseShape::Ack,
    {
        ResponseShape::Ack
    }

    pub fn timeout_ms(&self) -> (r: u32)
        ensures
            r == DEFAULT_TIMEOUT_MS,
    {
        DEFAULT_TIMEOUT_MS
    }
}

/// A string of at most six bytes holding `s`, which must fit.
fn six_of(s: &str) -> (r: heapless::String<6>)
    requires
        s@.len() <= 6,
        vstd::string::is_ascii(s),
    ensures
        chars6(r) == s@,
{
    proof {
        vstd::string::is_ascii_spec_bytes(s);
    }
    match string6_from(s) {
        Ok(h) => h,
        Err(_) => {
            proof {
                assert(false);
            }
            heapless::String::new()
        },
    }
}

/// Checks that the device answers at all: the bare line `AT`.
#[derive(Clone, Copy, Debug)]
pub struct VerifyComIsWorking {}

impl VerifyComIsWorking {
    pub open spec fn spec_line(&self) -> Seq<u8> {
        at_line(Seq::empty(), None, true)
    }

    /// The line `AT\r\n`.
    pub fn encode(&self) -> (r: Vec<u8>)
        ensures
            r@ == self.spec_line(),
    {
        let name: [u8; 0] = [];
        let r = encode_line(name.as_slice(), None, true);
        proof {
            assert(name@ =~= Seq::<u8>::empty());
        }
        r
    }

    /// Writes the line into `buf` when it fits; returns its length.
    pub fn write(&self, buf: &mut Vec<u8>) -> (n: usize)
        ensures
            written(old(buf)@, final(buf)@, self.spec_line(), n),
    {
        let line = self.encode();
        write_line(&line, buf)
    }

    pub fn expected_response(&self) -> (r: ResponseShape)
        ensures
            r == ResponseShape::Ack,
    {
        ResponseShape::Ack
    }

    /// A liveness check waits five seconds.
    pub fn timeout_ms(&self) -> (r: u32)
        ensures
            r == 5000,
    {
        5000
    }
}

/// Asks whether the device echoes what it receives.
#[derive(Clone, Copy, Debug)]
pub struct AteGet {}

impl AteGet {
    pub open spec fn spec_line(&self) -> Seq<u8> {
        at_line(ate_get_name(), None, true)
    }

    /// The line `AT+ATE=?\r\n`.
    pub fn encode(&self) -> (r: Vec<u8>)
        ensures
            r@ == self.spec_line(),
    {
        let name: [u8; 6] = [43, 65, 84, 69, 61, 63];
        let r = encode_line(name.as_slice(), None, true);
        proof {
            assert(name@ =~= ate_get_name());
        }
        r
    }

    /// Writes the line into `buf` when it fits; returns its length.
    pub fn write(&self, buf: &mut Vec<u8>) -> (n: usize)
        ensures
            written(old(buf)@, final(buf)@, self.spec_line(), n),
    {
        let line = self.encode();
        write_line(&line, buf)
    }

    pub fn expected_response(&self) -> (r: ResponseShape)
        ensures
            r == ResponseShape::OnOff,
    {
        ResponseShape::OnOff
    }

    pub fn timeout_ms(&self) -> (r: u32)
        ensures
            r == DEFAULT_TIMEOUT_MS,
    {
        DEFAULT_TIMEOUT_MS
    }
}

/// Switches the device's echo on or off.
#[derive(Debug)]
pub struct AteSet {
    pub on: heapless::String<6>,
}

impl AteSet {
    pub open spec fn spec_line(&self) -> Seq<u8> {
        at_line(ate_name(), Some(encode_utf8(chars6(self.on))), false)
    }

    /// Switches it on.
    pub fn on() -> (r: Self)
        ensures
            chars6(r.on) == "ON"@,
    {
        proof {
            reveal_strlit("ON");
        }
        Self { on: six_of("ON") }
    }

    /// Switches it off.
    pub fn off() -> (r: Self)
        ensures
            chars6(r.on) == "OFF"@,
    {
        proof {
            reveal_strlit("OFF");
        }
        Self { on: six_of("OFF") }
    }

    /// The line `AT+ATE=` and the bare argument, then `\r\n`.
    pub fn encode(&self) -> (r: Vec<u8>)
        ensures
            r@ == self.spec_line(),
    {
        let name: [u8; 4] = [43, 65, 84, 69];
        let arg = str6(&self.on).as_bytes();
        let r = encode_line(name.as_slice(), Some(arg), false);
        proof {
            assert(name@ =~= ate_name());
        }
        r
    }

    /// Writes the line into `buf` when it fits; returns its length.
    pub fn write(&self, buf: &mut Vec<u8>) -> (n: usize)
        ensures
            written(old(buf)@, final(buf)@, self.spec_line(), n),
    {
        let line = self.encode();
        write_line(&line, buf)
    }

    pub fn expected_response(&self) -> (r: ResponseShape)
        ensures
            r == ResponseShape::OnOff,
    {
        ResponseShape::OnOff
    }

    /// A state change may take the device up to eight seconds.
    pub fn timeout_ms(&self) -> (r: u32)
        ensures
            r == 8000,
    {
        8000
    }
}

/// Asks whether the device sleeps.
#[derive(Clone, Copy, Debug)]
pub struct SleepGet {}

impl SleepGet {
    pub open spec fn spec_line(&self) -> Seq<u8> {
        at_line(sleep_get_name(), None, true)
    }

    /// The line `AT+SLEEP=?\r\n`.
    pub fn encode(&self) -> (r: Vec<u8>)
        ensures
            r@ == self.spec_line(),
    {
        let name: [u8; 8] = [43, 83, 76, 69, 69, 80, 61, 63];
        let r = encode_line(name.as_slice(), None, true);
        proof {
            assert(name@ =~= sleep_get_name());
        }
        r
    }

    /// Writes the line into `buf` when it fits; returns its length.
    pub fn write(&self, buf: &mut Vec<u8>) -> (n: usize)
        ensures
            written(old(buf)@, final(buf)@, self.spec_line(), n),
    {
        let line = self.encode();
        write_line(&line, buf)
    }

    pub fn expected_response(&self) -> (r: ResponseShape)
        ensures
            r == ResponseShape::OnOff,
    {
        ResponseShape::OnOff
    }

    pub fn timeout_ms(&self) -> (r: u32)
        ensures
            r == DEFAULT_TIMEOUT_MS,
    {
        DEFAULT_TIMEOUT_MS
    }
}

/// Puts the device to sleep or wakes it.
#[derive(Debug)]
pub struct SleepSet {
    pub on: heapless::String<6>,
}

impl SleepSet {
    pub open spec fn spec_line(&self) -> Seq<u8> {
        at_line(sleep_name(), Some(encode_utf8(chars6(self.on))), false)
    }

    /// Switches it on.
    pub fn on() -> (r: Self)
        ensures
            chars6(r.on) == "ON"@,
    {
        proof {
            reveal_strlit("ON");
        }
        Self { on: six_of("ON") }
    }

    /// Switches it off.
    pub fn off() -> (r: Self)
        ensures
            chars6(r.on) == "OFF"@,
    {
        proof {
            reveal_strlit("OFF");
        }
        Self { on: six_of("OFF") }
    }

    /// The line `AT+SLEEP=` and the bare argument, then `\r\n`.
    pub fn encode(&self) -> (r: Vec<u8>)
        ensures
            r@ == self.spec_line(),
    {
        let name: [u8; 6] = [43, 83, 76, 69, 69, 80];
        let arg = str6(&self.on).as_bytes();
        let r = encode_line(name.as_slice(), Some(arg), false);
        proof {
            assert(name@ =~= sleep_name());
        }
        r
    }

    /// Writes the line into `buf` when it fits; returns its length.
    pub fn write(&self, buf: &mut Vec<u8>) -> (n: usize)
        ensures
            written(old(buf)@, final(buf)@, self.spec_line(), n),
    {
        let line = self.encode();
        write_line(&line, buf)
    }

    pub fn expected_response(&self) -> (r: ResponseShape)
        ensures
            r == ResponseShape::OnOff,
    {
        ResponseShape::OnOff
    }

    /// A state change may take the device up to eight seconds.
    pub fn timeout_ms(&self) -> (r: u32)
        ensures
            r == 8000,
    {
        8000
    }
}

/// Restarts the device.
#[derive(Clone, Copy, Debug)]
pub struct Reset {}

impl Reset {
    pub open spec fn spec_line(&self) -> Seq<u8> {
        at_line(reset_name(), None, true)
    }

    /// The line `AT+RESET\r\n`.
    pub fn encode(&self) -> (r: Vec<u8>)
        ensures
            r@ == self.spec_line(),
    {
        let name: [u8; 6] = [43, 82, 69, 83, 69, 84];
        let r = encode_line(name.as_slice(), None, true);
        proof {
            assert(name@ =~= reset_name());
        }
        r
    }

    /// Writes the line into `buf` when it fits; returns its length.
    pub fn write(&self, buf: &mut Vec<u8>) -> (n: usize)
        ensures
            written(old(buf)@, final(buf)@, self.spec_line(), n),
    {
        let line = self.encode();
        write_line(&line, buf)
    }

    pub fn expected_response(&self) -> (r: ResponseShape)
        ensures
            r == ResponseShape::Ack,
    {
        ResponseShape::Ack
    }

    /// A reset is answered within two seconds.
    pub fn timeout_ms(&self) -> (r: u32)
        ensures
            r == 2000,
    {
        2000
    }
}

} // verus!
