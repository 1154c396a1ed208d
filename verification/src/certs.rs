//! The certificate identities the operator chooses between, and the
//! renderings derived from raw certificate material: hexadecimal serials
//! and thumbprints, validity dates, and the case-blind subject search.
//!
//! Enumerating the OS certificate store is the shell's business; it hands
//! this module the plain fields.

use vstd::prelude::*;

use crate::encode::{dec_rep, digit_char};
use crate::text::push_char;

verus! {

/// One selectable identity: the textual fields read off a certificate.
#[derive(Clone, Debug)]
pub struct CertificateInfo {
    pub subject_name: String,
    pub issuer_name: String,
    pub serial_number: String,
    pub thumbprint: String,
    pub valid_from: String,
    pub valid_to: String,
}

impl CertificateInfo {
    /// A copy whose fields equal the original's.
    pub fn duplicate(&self) -> (r: CertificateInfo)
        ensures
            r == *self,
    {
        CertificateInfo {
            subject_name: self.subject_name.clone(),
            issuer_name: self.issuer_name.clone(),
            serial_number: self.serial_number.clone(),
            thumbprint: self.thumbprint.clone(),
            valid_from: self.valid_from.clone(),
            valid_to: self.valid_to.clone(),
        }
    }

    /// The multi-line description shown for a certificate: subject, issuer,
    /// serial number and validity window.
    pub fn details(&self) -> (r: String)
        ensures
            r@ == self.subject_name@ + "\nВыдан: "@ + self.issuer_name@
                + "\nСерийный номер: "@ + self.serial_number@ + "\nДействителен с: "@
                + self.valid_from@ + " по: "@ + self.valid_to@,
    {
        let mut out = self.subject_name.clone();
        out.append("\nВыдан: ");
        out.append(self.issuer_name.as_str());
        out.append("\nСерийный номер: ");
        out.append(self.serial_number.as_str());
        out.append("\nДействителен с: ");
        out.append(self.valid_from.as_str());
        out.append(" по: ");
        out.append(self.valid_to.as_str());
        out
    }
}

/// The message shown while a file is being signed with a certificate.
pub fn prepare_signature_message(cert: &CertificateInfo) -> (r: String)
    ensures
        r@ == "Подпись файла с помощью: "@ + cert.subject_name@,
{
    let mut out = String::new();
    out.append("Подпись файла с помощью: ");
    out.append(cert.subject_name.as_str());
    assert(out@ =~= "Подпись файла с помощью: "@ + cert.subject_name@);
    out
}

/// The uppercase hexadecimal digits.
pub open spec fn hex_char_upper(d: int) -> char {
    if d < 10 {
        digit_char(d)
    } else if d == 10 {
        'A'
    } else if d == 11 {
        'B'
    } else if d == 12 {
        'C'
    } else if d == 13 {
        'D'
    } else if d == 14 {
        'E'
    } else {
        'F'
    }
}

/// Two uppercase hexadecimal digits for one byte.
pub open spec fn hex_byte(b: u8) -> Seq<char> {
    seq![hex_char_upper(b as int / 16), hex_char_upper(b as int % 16)]
}

/// Bytes as uppercase hexadecimal pairs joined by colons, the rendering
/// used for serial numbers and thumbprints.
pub open spec fn hex_colon(bs: Seq<u8>) -> Seq<char>
    decreases bs.len(),
{
    if bs.len() == 0 {
        Seq::<char>::empty()
    } else if bs.len() == 1 {
        hex_byte(bs[0])
    } else {
        hex_colon(bs.drop_last()) + seq![':'] + hex_byte(bs.last())
    }
}

fn hex_upper_of(d: u8) -> (c: char)
    requires
        d < 16,
    ensures
        c == hex_char_upper(d as int),
{
    if d == 0 {
        '0'
    } else if d == 1 {
        '1'
    } else if d == 2 {
        '2'
    } else if d == 3 {
        '3'
    } else if d == 4 {
        '4'
    } else if d == 5 {
        '5'
    } else if d == 6 {
        '6'
    } else if d == 7 {
        '7'
    } else if d == 8 {
        '8'
    } else if d == 9 {
        '9'
    } else if d == 10 {
        'A'
    } else if d == 11 {
        'B'
    } else if d == 12 {
        'C'
    } else if d == 13 {
        'D'
    } else if d == 14 {
        'E'
    } else {
        'F'
    }
}

/// Renders raw certificate bytes as colon-separated uppercase hex pairs.
pub fn format_hex_colon(bytes: &Vec<u8>) -> (r: String)
    ensures
        r@ == hex_colon(bytes@),
{
    let mut out = String::new();
    let mut i: usize = 0;
    assert(bytes@.subrange(0, 0) =~= Seq::<u8>::empty());
    while i < bytes.len()
        invariant
            0 <= i <= bytes@.len(),
            out@ == hex_colon(bytes@.subrange(0, i as int)),
        decreases bytes@.len() - i,
    {
        if i > 0 {
            push_char(&mut out, ':');
        }
        let b = bytes[i];
        push_char(&mut out, hex_upper_of(b / 16));
        push_char(&mut out, hex_upper_of(b % 16));
        proof {
            let pre = bytes@.subrange(0, i + 1);
            assert(pre.drop_last() =~= bytes@.subrange(0, i as int));
            assert(pre.last() == bytes@[i as int]);
            assert(out@ =~= hex_colon(pre));
        }
        i = i + 1;
    }
    assert(bytes@.subrange(0, bytes@.len() as int) =~= bytes@);
    out
}

/// The distance from the Windows file-time epoch to the Unix epoch, in
/// nanoseconds.
pub open spec fn windows_epoch_offset_ns() -> int {
    11_644_473_600int * 1_000_000_000int
}

/// A Windows file time (100-nanosecond ticks since 1601) as nanoseconds
/// since the Unix epoch: the multiplication saturates at the far end of
/// the range, and times before the Unix epoch have no rendering.
pub open spec fn unix_ns_of_ticks(ticks: int) -> Option<int> {
    let total = if ticks * 100 <= u64::MAX { ticks * 100 } else { u64::MAX as int };
    if total >= windows_epoch_offset_ns() {
        Option::Some(total - windows_epoch_offset_ns())
    } else {
        Option::None
    }
}

/// Converts a Windows file time to nanoseconds since the Unix epoch.
pub fn filetime_ticks_to_unix_ns(ticks: u64) -> (r: Option<u64>)
    ensures
        match r {
            Option::Some(ns) => unix_ns_of_ticks(ticks as int) == Option::Some(ns as int),
            Option::None => unix_ns_of_ticks(ticks as int) is None,
        },
{
    let total: u64 = if ticks <= u64::MAX / 100 {
        ticks * 100
    } else {
        assert(ticks as int * 100 > u64::MAX) by (nonlinear_arith)
            requires
                ticks > u64::MAX / 100,
        ;
        u64::MAX
    };
    let offset: u64 = 11_644_473_600u64 * 1_000_000_000u64;
    if total >= offset {
        Option::Some(total - offset)
    } else {
        Option::None
    }
}

/// A number zero-padded on the left to at least `width` digits.
pub open spec fn zero_padded(n: int, width: int) -> Seq<char>
    decreases width,
{
    if width <= 1 || n >= pow10(width - 1) {
        dec_rep(n)
    } else {
        seq!['0'] + zero_padded(n, width - 1)
    }
}

pub open spec fn pow10(k: int) -> int
    decreases k,
{
    if k <= 0 {
        1
    } else {
        10 * pow10(k - 1)
    }
}

fn push_padded(out: &mut String, n: u16, width: u16)
    requires
        1 <= width <= 4,
    ensures
        final(out)@ == old(out)@ + zero_padded(n as int, width as int),
    decreases width,
{
    proof {
        reveal_with_fuel(pow10, 5);
    }
    let threshold: u16 = if width == 2 {
        10
    } else if width == 3 {
        100
    } else if width == 4 {
        1000
    } else {
        1
    };
    if width > 1 && n < threshold {
        push_char(out, '0');
        push_padded(out, n, width - 1);
        assert(final(out)@ =~= old(out)@ + zero_padded(n as int, width as int));
    } else {
        let mut tmp = String::new();
        crate::encode::push_u64_dec(&mut tmp, n as u64);
        assert(tmp@ =~= dec_rep(n as int));
        out.append(tmp.as_str());
    }
}

/// The `dd.mm.yyyy` rendering of a certificate validity date.
pub fn format_dmy(day: u16, month: u16, year: u16) -> (r: String)
    ensures
        r@ == zero_padded(day as int, 2) + seq!['.'] + zero_padded(month as int, 2) + seq!['.']
            + zero_padded(year as int, 4),
{
    let mut out = String::new();
    push_padded(&mut out, day, 2);
    push_char(&mut out, '.');
    push_padded(&mut out, month, 2);
    push_char(&mut out, '.');
    push_padded(&mut out, year, 4);
    assert(out@ =~= Seq::<char>::empty() + zero_padded(day as int, 2) + seq!['.'] + zero_padded(
        month as int,
        2,
    ) + seq!['.'] + zero_padded(year as int, 4));
    out
}

} // verus!
