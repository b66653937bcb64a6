use vstd::prelude::*;

verus! {

/// A serial port offered to the user: its path and, for USB hardware, the
/// manufacturer and the vendor and product ids as four upper-case hex digits.
#[derive(Debug, Clone)]
pub struct SerialPortInfo {
    pub path: String,
    pub manufacturer: Option<String>,
    pub vendor_id: Option<String>,
    pub product_id: Option<String>,
}

/// USB identification of a port.
#[derive(Debug, Clone)]
pub struct UsbIds {
    pub vid: u16,
    pub pid: u16,
    pub manufacturer: Option<String>,
}

/// A port as the system enumerates it; `usb` is present for USB ports only.
#[derive(Debug, Clone)]
pub struct PortEntry {
    pub name: String,
    pub usb: Option<UsbIds>,
}

/// The upper-case hexadecimal digit of `d`.
pub open spec fn hex_digit(d: nat) -> char {
    if d < 10 {
        ((d + 48) as u8) as char
    } else {
        ((d + 55) as u8) as char
    }
}

/// `v` as exactly four upper-case hexadecimal digits, most significant first.
pub open spec fn hex4(v: nat) -> Seq<char> {
    seq![hex_digit((v / 4096) % 16), hex_digit((v / 256) % 16), hex_digit((v / 16) % 16), hex_digit(v % 16)]
}

fn hex_char(d: u16) -> (c: char)
    requires
        d < 16,
    ensures
        c == hex_digit(d as nat),
{
    if d < 10 {
        ((d as u8) + 48) as char
    } else {
        ((d as u8) + 55) as char
    }
}

/// Formats an id as four upper-case hexadecimal digits.
pub fn format_id(v: u16) -> (r: String)
    ensures
        r@ == hex4(v as nat),
{
    let digits: [char; 4] = [hex_char((v / 4096) % 16), hex_char((v / 256) % 16), hex_char((v / 16) % 16), hex_char(v % 16)];
    let mut r = String::new();
    let mut i: usize = 0;
    while i < 4
        invariant
            i <= 4,
            digits@ == hex4(v as nat),
            r@ == digits@.take(i as int),
        decreases 4 - i,
    {
        let one = char_text(digits[i]);
        r.append(one.as_str());
        assert(digits@.take(i + 1) =~= digits@.take(i as int) + seq![digits@[i as int]]);
        i = i + 1;
    }
    assert(digits@.take(4) =~= digits@);
    r
}

/// Relies on `char::to_string`: the text made of the one character.
#[verifier::external_body]
fn char_text(c: char) -> (r: String)
    ensures
        r@ == seq![c],
{
    c.to_string()
}

/// The record shown for a USB port.
pub open spec fn usb_port_spec(p: PortEntry, r: SerialPortInfo) -> bool {
    &&& p.usb is Some
    &&& r.path@ == p.name@
    &&& r.manufacturer == p.usb->Some_0.manufacturer
    &&& r.vendor_id matches Some(v) && v@ == hex4(p.usb->Some_0.vid as nat)
    &&& r.product_id matches Some(v) && v@ == hex4(p.usb->Some_0.pid as nat)
}

/// The USB ports among `ports`, in order.
pub open spec fn usb_ports(ports: Seq<PortEntry>) -> Seq<PortEntry>
    decreases ports.len(),
{
    if ports.len() == 0 {
        Seq::empty()
    } else if ports.last().usb is Some {
        usb_ports(ports.drop_last()).push(ports.last())
    } else {
        usb_ports(ports.drop_last())
    }
}

/// Keeps the USB ports, which are real hardware, and describes each.
pub fn list_ports(ports: Vec<PortEntry>) -> (r: Vec<SerialPortInfo>)
    ensures
        r@.len() == usb_ports(ports@).len(),
        forall|k: int| 0 <= k < r@.len() ==> usb_port_spec(#[trigger] usb_ports(ports@)[k], r@[k]),
{
    let mut r: Vec<SerialPortInfo> = Vec::new();
    let mut i: usize = 0;
    while i < ports.len()
        invariant
            i <= ports.len(),
            r@.len() == usb_ports(ports@.take(i as int)).len(),
            forall|k: int| 0 <= k < r@.len() ==> usb_port_spec(#[trigger] usb_ports(ports@.take(i as int))[k], r@[k]),
        decreases ports.len() - i,
    {
        let p = &ports[i];
        assert(ports@.take(i + 1).drop_last() =~= ports@.take(i as int));
        assert(ports@.take(i + 1).last() == ports@[i as int]);
        if let Some(usb) = &p.usb {
            let info = SerialPortInfo {
                path: p.name.clone(),
                manufacturer: usb.manufacturer.clone(),
                vendor_id: Some(format_id(usb.vid)),
                product_id: Some(format_id(usb.pid)),
            };
            r.push(info);
        }
        i = i + 1;
    }
    assert(ports@.take(ports.len() as int) =~= ports@);
    r
}

} // verus!
