use vstd::prelude::*;
use vstd::string::StringExecFns;

verus! {

/// The decimal digit character for `d`, when `d < 10`.
pub open spec fn digit_char(d: nat) -> char {
    if d == 0 {
        '0'
    } else if d == 1 {
        '1'
    } else if d == 2 {
        '2'
    } else if d == 3 {
        '3'
    } else if d == 4 {
        '4'
    } else if d == 5 {
        '5'
    } else if d == 6 {
        '6'
    } else if d == 7 {
        '7'
    } else if d == 8 {
        '8'
    } else {
        '9'
    }
}

/// `n` written in decimal, without leading zeros.
pub open spec fn decimal(n: nat) -> Seq<char>
    decreases n,
{
    if n < 10 {
        seq![digit_char(n)]
    } else {
        decimal(n / 10) + seq![digit_char(n % 10)]
    }
}

/// The two-digit year after "20" that the first firmware byte encodes.
///
/// The high nibble is the year offset. A nibble of at most 9 stands for
/// `nibble + 0x10`; a larger one (a hex digit A to F) stands for itself.
pub open spec fn firmware_year(b0: u8) -> nat {
    let hi = (b0 / 16) as nat;
    if hi <= 9 {
        hi + 16
    } else {
        hi
    }
}

/// The month that the first firmware byte encodes: its low nibble.
pub open spec fn firmware_month(b0: u8) -> nat {
    (b0 % 16) as nat
}

/// The text before the year: `Firmware version: 20`.
pub open spec fn firmware_prefix() -> Seq<char> {
    seq![
        'F', 'i', 'r', 'm', 'w', 'a', 'r', 'e', ' ', 'v', 'e', 'r', 's', 'i', 'o', 'n', ':', ' ',
        '2', '0',
    ]
}

/// The readable firmware version of the two raw bytes:
/// `Firmware version: 20<year>_<month>_<day>`, the day being the second byte.
pub open spec fn firmware_version_text(b0: u8, b1: u8) -> Seq<char> {
    firmware_prefix() + decimal(firmware_year(b0)) + seq!['_'] + decimal(firmware_month(b0))
        + seq!['_'] + decimal(b1 as nat)
}

fn digit_str(d: u32) -> (r: &'static str)
    requires
        d < 10,
    ensures
        r@ == seq![digit_char(d as nat)],
{
    if d == 0 {
        proof { reveal_strlit("0"); }
        "0"
    } else if d == 1 {
        proof { reveal_strlit("1"); }
        "1"
    } else if d == 2 {
        proof { reveal_strlit("2"); }
        "2"
    } else if d == 3 {
        proof { reveal_strlit("3"); }
        "3"
    } else if d == 4 {
        proof { reveal_strlit("4"); }
        "4"
    } else if d == 5 {
        proof { reveal_strlit("5"); }
        "5"
    } else if d == 6 {
        proof { reveal_strlit("6"); }
        "6"
    } else if d == 7 {
        proof { reveal_strlit("7"); }
        "7"
    } else if d == 8 {
        proof { reveal_strlit("8"); }
        "8"
    } else {
        proof { reveal_strlit("9"); }
        "9"
    }
}

/// Appends `n` in decimal to `out`.
fn append_decimal(out: &mut String, n: u32)
    ensures
        final(out)@ == old(out)@ + decimal(n as nat),
    decreases n,
{
    if n < 10 {
        out.append(digit_str(n));
    } else {
        append_decimal(out, n / 10);
        out.append(digit_str(n % 10));
        proof {
            assert(final(out)@ =~= old(out)@ + decimal(n as nat));
        }
    }
}

/// Decodes the first two bytes of the firmware buffer into readable text.
pub fn decode_firmware_version(b0: u8, b1: u8) -> (r: String)
    ensures
        r@ == firmware_version_text(b0, b1),
{
    let mut out = String::from_str("Firmware version: 20");
    proof {
        reveal_strlit("Firmware version: 20");
        assert(out@ =~= firmware_prefix());
    }
    let hi: u8 = b0 / 16;
    let year: u32 = if hi <= 9 {
        hi as u32 + 16
    } else {
        hi as u32
    };
    append_decimal(&mut out, year);
    out.append("_");
    append_decimal(&mut out, (b0 % 16) as u32);
    out.append("_");
    append_decimal(&mut out, b1 as u32);
    proof {
        reveal_strlit("_");
        assert(out@ =~= firmware_version_text(b0, b1));
    }
    out
}

/// The year branch: a high nibble of at most 9 gives `20<nibble + 16>`,
/// a larger one gives `20<nibble>`; the month is the low nibble and the day
/// the second byte.
pub proof fn lemma_firmware_year_branches(b0: u8, b1: u8)
    ensures
        b0 / 16 <= 9 ==> firmware_year(b0) == b0 / 16 + 16,
        b0 / 16 > 9 ==> firmware_year(b0) == b0 / 16,
        firmware_version_text(b0, b1) == firmware_prefix() + decimal(firmware_year(b0)) + seq![
            '_',
        ] + decimal((b0 % 16) as nat) + seq!['_'] + decimal(b1 as nat),
{
}

} // verus!
