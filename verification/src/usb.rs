//! Recognising DFU devices, and the vendor and product ids that name them.
use vstd::prelude::*;
use crate::error::{DfuError, DfuErrorView, viewed};
use crate::protocol::{USB_CLASS_APP_SPECIFIC, USB_SUBCLASS_DFU};
use crate::text::{decimal3, decimal3_text, digit_char, hex4, hex4_text};

verus! {

/// What enumeration learned of a DFU-capable device.
#[derive(Debug)]
pub struct DfuDevice {
    pub vendor_id: u16,
    pub product_id: u16,
    pub bus: u8,
    pub address: u8,
    pub manufacturer: Option<String>,
    pub product: Option<String>,
    pub serial: Option<String>,
}

/// A name string as listed: the string, or `unknown` when the device did
/// not give it.
pub open spec fn name_or_unknown(s: Option<String>) -> Seq<char> {
    match s {
        Some(m) => m@,
        None => "unknown"@,
    }
}

impl DfuDevice {
    /// The device's line in a listing.
    pub open spec fn spec_listing(self) -> Seq<char> {
        "  ["@ + hex4(self.vendor_id) + ":"@ + hex4(self.product_id) + "] bus "@ + decimal3(self.bus)
            + " device "@ + decimal3(self.address) + " \u{2014} "@ + name_or_unknown(
            self.manufacturer,
        ) + " "@ + name_or_unknown(self.product)
    }

    /// The device's line in a listing: vendor and product id, bus and
    /// address, manufacturer and product names.
    pub fn listing(&self) -> (res: String)
        ensures
            res@ == self.spec_listing(),
    {
        let mut s = String::from_str("  [");
        s.append(hex4_text(self.vendor_id).as_str());
        s.append(":");
        s.append(hex4_text(self.product_id).as_str());
        s.append("] bus ");
        s.append(decimal3_text(self.bus).as_str());
        s.append(" device ");
        s.append(decimal3_text(self.address).as_str());
        s.append(" \u{2014} ");
        match &self.manufacturer {
            Some(m) => s.append(m.as_str()),
            None => s.append("unknown"),
        }
        s.append(" ");
        match &self.product {
            Some(p) => s.append(p.as_str()),
            None => s.append("unknown"),
        }
        s
    }
}

/// The listing line is the 35-character device part, then the
/// manufacturer's name, one space and the product's name, each taken from
/// its own field, or `unknown` where the device gave none.
pub proof fn lemma_listing_names(dev: DfuDevice)
    ensures
        dev.spec_listing().len() >= 35,
        ({
            let l = dev.spec_listing();
            let m = match dev.manufacturer {
                Some(x) => x@,
                None => "unknown"@,
            };
            let p = match dev.product {
                Some(x) => x@,
                None => "unknown"@,
            };
            &&& l.len() == 35 + m.len() + 1 + p.len()
            &&& l.subrange(35, 35 + m.len() as int) == m
            &&& l[35 + m.len() as int] == ' '
            &&& l.subrange(l.len() - p.len(), l.len() as int) == p
        }),
        dev.product matches Some(p) ==> dev.spec_listing().subrange(
            dev.spec_listing().len() - p@.len(),
            dev.spec_listing().len() as int,
        ) == p@,
        dev.manufacturer matches Some(m) ==> dev.spec_listing().subrange(35, 35 + m@.len() as int)
            == m@,
{
    reveal_strlit("  [");
    reveal_strlit(":");
    reveal_strlit("] bus ");
    reveal_strlit(" device ");
    reveal_strlit(" \u{2014} ");
    reveal_strlit(" ");
    reveal_strlit("unknown");
    let head = "  ["@ + hex4(dev.vendor_id) + ":"@ + hex4(dev.product_id) + "] bus "@ + decimal3(
        dev.bus,
    ) + " device "@ + decimal3(dev.address) + " \u{2014} "@;
    assert(head.len() == 35);
    let m = name_or_unknown(dev.manufacturer);
    let p = name_or_unknown(dev.product);
    let l = dev.spec_listing();
    assert(l == head + m + " "@ + p);
    assert(l.subrange(35, 35 + m.len() as int) == m);
    assert(l.subrange(l.len() - p.len(), l.len() as int) == p);
}

/// The bus number and device address stand in the listing as three
/// decimal digits each, at fixed columns.
pub proof fn lemma_listing_numbers(dev: DfuDevice)
    ensures
        ({
            let l = dev.spec_listing();
            &&& '0' <= l[18] <= '9' && '0' <= l[19] <= '9' && '0' <= l[20] <= '9'
            &&& '0' <= l[29] <= '9' && '0' <= l[30] <= '9' && '0' <= l[31] <= '9'
            &&& (l[18] as nat - '0' as nat) * 100 + (l[19] as nat - '0' as nat) * 10 + (l[20] as nat
                - '0' as nat) == dev.bus as nat
            &&& (l[29] as nat - '0' as nat) * 100 + (l[30] as nat - '0' as nat) * 10 + (l[31] as nat
                - '0' as nat) == dev.address as nat
        }),
{
    reveal_strlit("  [");
    reveal_strlit(":");
    reveal_strlit("] bus ");
    reveal_strlit(" device ");
    let l = dev.spec_listing();
    let head = "  ["@ + hex4(dev.vendor_id) + ":"@ + hex4(dev.product_id) + "] bus "@;
    assert(head.len() == 18);
    let bus = decimal3(dev.bus);
    let mid = head + bus + " device "@;
    assert(mid.len() == 29);
    let adr = decimal3(dev.address);
    assert(l[18] == bus[0] && l[19] == bus[1] && l[20] == bus[2]);
    assert(l[29] == adr[0] && l[30] == adr[1] && l[31] == adr[2]);
    lemma_digit_value(dev.bus as nat / 100);
    lemma_digit_value(dev.bus as nat / 10 % 10);
    lemma_digit_value(dev.bus as nat % 10);
    lemma_digit_value(dev.address as nat / 100);
    lemma_digit_value(dev.address as nat / 10 % 10);
    lemma_digit_value(dev.address as nat % 10);
}

/// Whether an interface setting with this class and subclass is a DFU
/// interface.
pub fn is_dfu_interface(class_code: u8, sub_class_code: u8) -> (res: bool)
    ensures
        res == (class_code == USB_CLASS_APP_SPECIFIC && sub_class_code == USB_SUBCLASS_DFU),
{
    class_code == USB_CLASS_APP_SPECIFIC && sub_class_code == USB_SUBCLASS_DFU
}

/// `s` without any number of leading `"0x"`.
pub open spec fn strip_hex_prefixes(s: Seq<char>) -> Seq<char>
    decreases s.len(),
{
    if s.len() >= 2 && s[0] == '0' && s[1] == 'x' {
        strip_hex_prefixes(s.skip(2))
    } else {
        s
    }
}

/// The value of a hexadecimal digit of either case.
pub open spec fn hex_digit_value(c: char) -> Option<nat> {
    if '0' <= c <= '9' {
        Some((c as nat - '0' as nat) as nat)
    } else if 'a' <= c <= 'f' {
        Some((c as nat - 'a' as nat + 10) as nat)
    } else if 'A' <= c <= 'F' {
        Some((c as nat - 'A' as nat + 10) as nat)
    } else {
        None
    }
}

/// The value of a string of hexadecimal digits; the empty string is 0.
pub open spec fn hex_digits_value(s: Seq<char>) -> Option<nat>
    decreases s.len(),
{
    if s.len() == 0 {
        Some(0)
    } else {
        match (hex_digits_value(s.drop_last()), hex_digit_value(s.last())) {
            (Some(v), Some(d)) => Some(v * 16 + d),
            _ => None,
        }
    }
}

/// A base-16 unsigned number no larger than `max`: one optional `+`, then
/// at least one digit, and a value that fits.
pub open spec fn spec_parse_hex(s: Seq<char>, max: nat) -> Option<nat> {
    if s.len() == 0 || (s.len() == 1 && (s[0] == '+' || s[0] == '-')) {
        None
    } else {
        let digits = if s[0] == '+' { s.skip(1) } else { s };
        match hex_digits_value(digits) {
            Some(v) => if v <= max { Some(v) } else { None },
            None => None,
        }
    }
}

/// `u16::from_str_radix(s, 16)`.
pub open spec fn spec_parse_hex_u16(s: Seq<char>) -> Option<u16> {
    match spec_parse_hex(s, 0xFFFF) {
        Some(v) => Some(v as u16),
        None => None,
    }
}

/// `u32::from_str_radix(s, 16)`.
pub open spec fn spec_parse_hex_u32(s: Seq<char>) -> Option<u32> {
    match spec_parse_hex(s, 0xFFFF_FFFF) {
        Some(v) => Some(v as u32),
        None => None,
    }
}

/// A USB id as typed on the command line: hexadecimal, after leading
/// `"0x"` are removed.
pub open spec fn spec_parse_usb_id(text: Seq<char>) -> Option<u16> {
    spec_parse_hex_u16(strip_hex_prefixes(text))
}

/// A flash address as typed on the command line: hexadecimal, after
/// leading `"0x"` are removed.
pub open spec fn spec_parse_address(text: Seq<char>) -> Option<u32> {
    spec_parse_hex_u32(strip_hex_prefixes(text))
}

/// Message for an id that does not parse; `label` names the id.
pub open spec fn invalid_id_message(label: Seq<char>, text: Seq<char>) -> Seq<char> {
    "invalid "@ + label + ": "@ + text
}

proof fn lemma_digit_value(d: nat)
    requires
        d < 16,
    ensures
        hex_digit_value(digit_char(d)) == Some(d),
{
}

/// An id written as enumeration lists it, with or without a leading `0x`,
/// is read back as the same id.
pub proof fn lemma_listed_id_roundtrip(v: u16)
    ensures
        spec_parse_usb_id(hex4(v)) == Some(v),
        spec_parse_usb_id(seq!['0', 'x'] + hex4(v)) == Some(v),
{
    let h = hex4(v);
    let d0 = v as nat / 0x1000;
    let d1 = v as nat / 0x100 % 16;
    let d2 = v as nat / 0x10 % 16;
    let d3 = v as nat % 16;
    lemma_digit_value(d0);
    lemma_digit_value(d1);
    lemma_digit_value(d2);
    lemma_digit_value(d3);
    assert(h.drop_last() == seq![digit_char(d0), digit_char(d1), digit_char(d2)]);
    assert(h.drop_last().drop_last() == seq![digit_char(d0), digit_char(d1)]);
    assert(h.drop_last().drop_last().drop_last() == seq![digit_char(d0)]);
    assert(h.drop_last().drop_last().drop_last().drop_last() == Seq::<char>::empty());
    assert(seq![digit_char(d0)].drop_last() == Seq::<char>::empty());
    assert(hex_digits_value(Seq::<char>::empty()) == Some(0nat));
    assert(hex_digits_value(seq![digit_char(d0)]) == Some(d0));
    assert(hex_digits_value(seq![digit_char(d0), digit_char(d1)]) == Some(d0 * 16 + d1));
    assert(hex_digits_value(seq![digit_char(d0), digit_char(d1), digit_char(d2)]) == Some(
        (d0 * 16 + d1) * 16 + d2,
    ));
    assert(hex_digits_value(h) == Some(((d0 * 16 + d1) * 16 + d2) * 16 + d3));
    assert(((d0 * 16 + d1) * 16 + d2) * 16 + d3 == v as nat);
    assert(strip_hex_prefixes(h) == h);
    let p = seq!['0', 'x'] + h;
    assert(p.skip(2) == h);
    assert(strip_hex_prefixes(p) == strip_hex_prefixes(h));
}

/// The ids in a device's listing line, copied as they stand, are read back
/// as that device's vendor and product id.
pub proof fn lemma_listing_ids_parse(dev: DfuDevice)
    ensures
        spec_parse_usb_id(dev.spec_listing().subrange(3, 7)) == Some(dev.vendor_id),
        spec_parse_usb_id(dev.spec_listing().subrange(8, 12)) == Some(dev.product_id),
{
    reveal_strlit("  [");
    reveal_strlit(":");
    let l = dev.spec_listing();
    let head = "  ["@ + hex4(dev.vendor_id) + ":"@ + hex4(dev.product_id);
    assert(head.len() == 12);
    assert(l.subrange(0, 12) == head);
    assert(l.subrange(3, 7) == hex4(dev.vendor_id));
    assert(l.subrange(8, 12) == hex4(dev.product_id));
    lemma_listed_id_roundtrip(dev.vendor_id);
    lemma_listed_id_roundtrip(dev.product_id);
}

proof fn lemma_strip_step(s: Seq<char>, start: int)
    requires
        0 <= start,
        start + 2 <= s.len(),
        s[start] == '0',
        s[start + 1] == 'x',
    ensures
        strip_hex_prefixes(s.skip(start)) == strip_hex_prefixes(s.skip(start + 2)),
{
    assert(s.skip(start).skip(2) == s.skip(start + 2));
}

/// A prefix of a valid digit string is valid and its value is no larger.
proof fn lemma_prefix_value(s: Seq<char>, k: int)
    requires
        0 <= k <= s.len(),
        hex_digits_value(s) is Some,
    ensures
        hex_digits_value(s.take(k)) is Some,
        hex_digits_value(s.take(k)).unwrap() <= hex_digits_value(s).unwrap(),
    decreases s.len(),
{
    if k == s.len() {
        assert(s.take(k) == s);
    } else {
        lemma_prefix_value(s.drop_last(), k);
        assert(s.drop_last().take(k) == s.take(k));
    }
}

/// Parses a base-16 number no larger than `max`, as `from_str_radix` with
/// radix 16 does for the unsigned type whose largest value is `max`.
fn parse_hex(text: &str, max: u32) -> (res: Option<u32>)
    ensures
        match spec_parse_hex(text@, max as nat) {
            Some(v) => res == Some(v as u32),
            None => res is None,
        },
{
    let n = text.unicode_len();
    if n == 0 {
        return None;
    }
    let first = text.get_char(0);
    if n == 1 && (first == '+' || first == '-') {
        return None;
    }
    let start: usize = if first == '+' { 1 } else { 0 };
    let ghost digits = if first == '+' { text@.skip(1) } else { text@ };
    assert(digits == text@.skip(start as int));
    let mut acc: u64 = 0;
    let mut i = start;
    assert(text@.subrange(start as int, start as int) == Seq::<char>::empty());
    while i < n
        invariant
            n == text@.len(),
            n >= 1,
            text@[0] == first,
            !(n == 1 && (first == '+' || first == '-')),
            start == (if first == '+' { 1usize } else { 0usize }),
            digits == (if first == '+' { text@.skip(1) } else { text@ }),
            start <= i <= n,
            digits == text@.skip(start as int),
            acc <= max,
            hex_digits_value(text@.subrange(start as int, i as int)) == Some(acc as nat),
        decreases n - i,
    {
        let c = text.get_char(i);
        let d: u64 = if '0' <= c && c <= '9' {
            (c as u64) - ('0' as u64)
        } else if 'a' <= c && c <= 'f' {
            (c as u64) - ('a' as u64) + 10
        } else if 'A' <= c && c <= 'F' {
            (c as u64) - ('A' as u64) + 10
        } else {
            proof {
                let p = text@.subrange(start as int, i as int + 1);
                assert(p.drop_last() == text@.subrange(start as int, i as int));
                assert(p.last() == c);
                assert(hex_digits_value(p) is None);
                if hex_digits_value(digits) is Some {
                    lemma_prefix_value(digits, i - start + 1);
                    assert(digits.take(i - start + 1) == p);
                }
            }
            return None;
        };
        let ghost p = text@.subrange(start as int, i as int + 1);
        proof {
            assert(p.drop_last() == text@.subrange(start as int, i as int));
            assert(p.last() == c);
        }
        let next = acc * 16 + d;
        i = i + 1;
        if next > max as u64 {
            proof {
                assert(hex_digit_value(c) == Some(d as nat));
                assert(hex_digits_value(p) == Some(next as nat));
                if hex_digits_value(digits) is Some {
                    lemma_prefix_value(digits, i - start);
                    assert(digits.take(i - start) == p);
                }
            }
            return None;
        }
        acc = next;
    }
    assert(text@.subrange(start as int, n as int) == digits);
    Some(acc as u32)
}

/// Parses a base-16 `u16` as `u16::from_str_radix(text, 16)` does.
pub fn parse_hex_u16(text: &str) -> (res: Option<u16>)
    ensures
        res == spec_parse_hex_u16(text@),
{
    match parse_hex(text, 0xFFFF) {
        Some(v) => Some(v as u16),
        None => None,
    }
}

/// Parses a base-16 `u32` as `u32::from_str_radix(text, 16)` does.
pub fn parse_hex_u32(text: &str) -> (res: Option<u32>)
    ensures
        res == spec_parse_hex_u32(text@),
{
    parse_hex(text, 0xFFFF_FFFF)
}

/// The position after the leading `"0x"` of `text`.
fn skip_hex_prefixes(text: &str) -> (start: usize)
    ensures
        start <= text@.len(),
        text@.skip(start as int) == strip_hex_prefixes(text@),
{
    let n = text.unicode_len();
    let mut start: usize = 0;
    assert(text@.skip(0) == text@);
    while n - start > 1 && text.get_char(start) == '0' && text.get_char(start + 1) == 'x'
        invariant
            n == text@.len(),
            start <= n,
            strip_hex_prefixes(text@.skip(start as int)) == strip_hex_prefixes(text@),
        decreases n - start,
    {
        proof {
            lemma_strip_step(text@, start as int);
        }
        start = start + 2;
    }
    proof {
        let rest = text@.skip(start as int);
        assert(!(rest.len() >= 2 && rest[0] == '0' && rest[1] == 'x'));
        assert(strip_hex_prefixes(rest) == rest);
    }
    start
}

/// `"invalid "`, the label, `": "`, then the text.
fn invalid_id_error(label: &str, text: &str) -> (res: DfuError)
    ensures
        res@ == DfuErrorView::InvalidFirmware(invalid_id_message(label@, text@)),
{
    let mut m = String::from_str("invalid ");
    m.append(label);
    m.append(": ");
    m.append(text);
    DfuError::InvalidFirmware(m)
}

/// Parses a vendor or product id as the command line gives it: any leading
/// `"0x"` are dropped, the rest is base 16. `label` names the id in the
/// error message.
pub fn parse_usb_id(text: &str, label: &str) -> (res: Result<u16, DfuError>)
    ensures
        viewed(res) == match spec_parse_usb_id(text@) {
            Some(v) => Ok(v),
            None => Err(DfuErrorView::InvalidFirmware(invalid_id_message(label@, text@))),
        },
{
    let start = skip_hex_prefixes(text);
    match parse_hex_u16(text.substring_char(start, text.unicode_len())) {
        Some(v) => Ok(v),
        None => Err(invalid_id_error(label, text)),
    }
}

/// Parses the flash address as the command line gives it: any leading
/// `"0x"` are dropped, the rest is base 16.
pub fn parse_address(text: &str) -> (res: Result<u32, DfuError>)
    ensures
        viewed(res) == match spec_parse_address(text@) {
            Some(v) => Ok(v),
            None => Err(DfuErrorView::InvalidFirmware(invalid_id_message("address"@, text@))),
        },
{
    let start = skip_hex_prefixes(text);
    match parse_hex_u32(text.substring_char(start, text.unicode_len())) {
        Some(v) => Ok(v),
        None => Err(invalid_id_error("address", text)),
    }
}

} // verus!
