//! Replies of the device and how their text is read.
use vstd::prelude::*;
use vstd::utf8::{decode_utf8, valid_utf8};
use crate::text::{
    chars4, chars6, chars20, same_text, str4, str6, str20, string4_from, string6_from,
    string20_from, text_of,
};

verus! {

/// Why a reply could not be read as the shape that was asked for.
#[derive(Clone, Copy, Debug, PartialEq, Eq, Structural)]
pub enum DecodeError {
    /// The text is not what the shape allows.
    Malformed,
    /// The text is longer than the shape can hold.
    TooLong,
}

/// The bytes `OK`.
pub open spec fn ok_bytes() -> Seq<u8> {
    seq![79u8, 75u8]
}

/// The bytes `ON`.
pub open spec fn on_bytes() -> Seq<u8> {
    seq![79u8, 78u8]
}

/// The bytes `OFF`.
pub open spec fn off_bytes() -> Seq<u8> {
    seq![79u8, 70u8, 70u8]
}

/// The bare acknowledgement.
#[derive(Debug)]
pub struct OkResponse {
    pub ok: heapless::String<4>,
}

impl OkResponse {
    /// Whether the reply reads `OK`.
    pub fn is_ok(&self) -> (r: bool)
        ensures
            r == (chars4(self.ok) == "OK"@),
    {
        same_text(str4(&self.ok), "OK")
    }
}

/// A reply that reads `ON` or `OFF`.
#[derive(Debug)]
pub struct OnOff {
    pub on_off: heapless::String<6>,
}

impl OnOff {
    /// Whether the reply reads `ON`.
    pub fn is_on(&self) -> (r: bool)
        ensures
            r == (chars6(self.on_off) == "ON"@),
    {
        same_text(str6(&self.on_off), "ON")
    }

    /// Whether the reply reads `OFF`.
    pub fn is_off(&self) -> (r: bool)
        ensures
            r == (chars6(self.on_off) == "OFF"@),
    {
        same_text(str6(&self.on_off), "OFF")
    }
}

/// The phrase of an error reply, such as `ERROR (-3)`.
#[derive(Debug)]
pub struct ErrorResponse {
    pub error: heapless::String<20>,
}

/// The application identifier that the device reports, as sixteen hex digits.
#[derive(Clone, Copy, Debug, PartialEq, Eq, Structural)]
pub struct AppEui {
    pub app_eui: u64,
}

fn bytes_are(raw: &[u8], want: &[u8]) -> (r: bool)
    ensures
        r == (raw@ == want@),
{
    if raw.len() != want.len() {
        return false;
    }
    let mut i: usize = 0;
    while i < raw.len()
        invariant
            raw@.len() == want@.len(),
            i <= raw@.len(),
            forall|j: int| 0 <= j < i ==> raw@[j] == want@[j],
        decreases raw@.len() - i,
    {
        if raw[i] != want[i] {
            return false;
        }
        i = i + 1;
    }
    proof {
        assert(raw@ =~= want@);
    }
    true
}

/// Reads an acknowledgement: only the exact text `OK` is one.
pub fn decode_ok(raw: &[u8]) -> (r: Result<OkResponse, DecodeError>)
    ensures
        r is Ok <==> raw@ == ok_bytes(),
        r matches Ok(v) ==> chars4(v.ok) == "OK"@,
        r matches Err(e) ==> e == DecodeError::Malformed,
{
    let want: [u8; 2] = [79, 75];
    proof {
        assert(want@ =~= ok_bytes());
    }
    if bytes_are(raw, want.as_slice()) {
        let s = "OK";
        proof {
            reveal_strlit("OK");
            vstd::string::is_ascii_spec_bytes(s);
        }
        match string4_from(s) {
            Ok(h) => Ok(OkResponse { ok: h }),
            Err(_) => {
                proof {
                    assert(false);
                }
                Err(DecodeError::Malformed)
            },
        }
    } else {
        Err(DecodeError::Malformed)
    }
}

/// Reads an on/off state: only the exact texts `ON` and `OFF` are one.
pub fn decode_on_off(raw: &[u8]) -> (r: Result<OnOff, DecodeError>)
    ensures
        r is Ok <==> (raw@ == on_bytes() || raw@ == off_bytes()),
        r matches Ok(v) ==> (raw@ == on_bytes() ==> chars6(v.on_off) == "ON"@) && (raw@
            == off_bytes() ==> chars6(v.on_off) == "OFF"@),
        r matches Err(e) ==> e == DecodeError::Malformed,
{
    let on: [u8; 2] = [79, 78];
    let off: [u8; 3] = [79, 70, 70];
    proof {
        assert(on@ =~= on_bytes());
        assert(off@ =~= off_bytes());
    }
    let s = if bytes_are(raw, on.as_slice()) {
        "ON"
    } else if bytes_are(raw, off.as_slice()) {
        "OFF"
    } else {
        return Err(DecodeError::Malformed);
    };
    proof {
        reveal_strlit("ON");
        reveal_strlit("OFF");
        vstd::string::is_ascii_spec_bytes(s);
    }
    match string6_from(s) {
        Ok(h) => Ok(OnOff { on_off: h }),
        Err(_) => {
            proof {
                assert(false);
            }
            Err(DecodeError::Malformed)
        },
    }
}

/// Reads the phrase of an error reply: any UTF-8 text of at most twenty bytes.
pub fn decode_error(raw: &[u8]) -> (r: Result<ErrorResponse, DecodeError>)
    ensures
        r is Ok <==> valid_utf8(raw@) && raw@.len() <= 20,
        r matches Ok(v) ==> chars20(v.error) == decode_utf8(raw@),
        r matches Err(e) ==> (e == DecodeError::Malformed <==> !valid_utf8(raw@)),
{
    match text_of(raw) {
        None => Err(DecodeError::Malformed),
        Some(s) => match string20_from(s) {
            Ok(h) => Ok(ErrorResponse { error: h }),
            Err(_) => Err(DecodeError::TooLong),
        },
    }
}

/// Whether `b` is a hex digit, in either case.
pub open spec fn is_hex_digit(b: u8) -> bool {
    (48 <= b <= 57) || (65 <= b <= 70) || (97 <= b <= 102)
}

/// The value of a hex digit.
pub open spec fn digit_value(b: u8) -> nat {
    if 48 <= b <= 57 {
        (b - 48) as nat
    } else if 65 <= b <= 70 {
        (b - 55) as nat
    } else {
        (b - 87) as nat
    }
}

/// The number that a run of hex digits spells, most significant first.
pub open spec fn hex_value(s: Seq<u8>) -> nat
    decreases s.len(),
{
    if s.len() == 0 {
        0
    } else {
        hex_value(s.drop_last()) * 16 + digit_value(s.last())
    }
}

/// Sixteen to the power `n`.
pub open spec fn pow16(n: nat) -> nat
    decreases n,
{
    if n == 0 {
        1
    } else {
        16 * pow16((n - 1) as nat)
    }
}

/// The number of hex digits in an identifier.
pub const APP_EUI_DIGITS: usize = 16;

proof fn lemma_pow16_grows(a: nat, b: nat)
    requires
        a <= b,
    ensures
        pow16(a) <= pow16(b),
    decreases b,
{
    if a < b {
        lemma_pow16_grows(a, (b - 1) as nat);
    }
}

fn hex_digit_value(b: u8) -> (r: Option<u8>)
    ensures
        r is Some <==> is_hex_digit(b),
        r matches Some(d) ==> d as nat == digit_value(b) && d < 16,
{
    if 48 <= b && b <= 57 {
        Some(b - 48)
    } else if 65 <= b && b <= 70 {
        Some(b - 55)
    } else if 97 <= b && b <= 102 {
        Some(b - 87)
    } else {
        None
    }
}

/// Reads an identifier: exactly sixteen hex digits, most significant first.
pub fn decode_app_eui(raw: &[u8]) -> (r: Result<AppEui, DecodeError>)
    ensures
        r is Ok <==> raw@.len() == APP_EUI_DIGITS && forall|i: int|
            0 <= i < raw@.len() ==> is_hex_digit(#[trigger] raw@[i]),
        r matches Ok(v) ==> v.app_eui as nat == hex_value(raw@),
        r matches Err(e) ==> e == DecodeError::Malformed,
{
    if raw.len() != APP_EUI_DIGITS {
        return Err(DecodeError::Malformed);
    }
    let mut acc: u64 = 0;
    let mut i: usize = 0;
    while i < raw.len()
        invariant
            raw@.len() == 16,
            i <= 16,
            forall|j: int| 0 <= j < i ==> is_hex_digit(#[trigger] raw@[j]),
            acc as nat == hex_value(raw@.subrange(0, i as int)),
            hex_value(raw@.subrange(0, i as int)) < pow16(i as nat),
        decreases 16 - i,
    {
        let d = match hex_digit_value(raw[i]) {
            Some(d) => d,
            None => {
                return Err(DecodeError::Malformed);
            },
        };
        proof {
            let pre = raw@.subrange(0, i as int);
            let next = raw@.subrange(0, i + 1);
            assert(next.drop_last() =~= pre);
            assert(next.last() == raw@[i as int]);
            lemma_pow16_grows((i + 1) as nat, 16);
            reveal_with_fuel(pow16, 17);
            assert(pow16(16) == 0x1_0000_0000_0000_0000);
            let p = pow16(i as nat);
            assert(acc * 16 + d < 16 * p) by (nonlinear_arith)
                requires
                    acc < p,
                    d < 16,
            ;
        }
        acc = acc * 16 + d as u64;
        i = i + 1;
    }
    proof {
        assert(raw@.subrange(0, 16) =~= raw@);
    }
    Ok(AppEui { app_eui: acc })
}

} // verus!
