use vstd::prelude::*;

verus! {

/// Manufacturer string of the USB adapter that carries the base unit.
pub const MANUFACTURER: &'static str = "FTDI";

/// Product string of the USB adapter that carries the base unit.
pub const PRODUCT: &'static str = "FT232R USB UART";

/// A serial port that the base unit may sit behind.
#[derive(Debug, Clone, PartialEq, Eq)]
pub struct PortInfo {
    pub port_name: String,
    pub serial_number: Option<String>,
}

/// An identity string that is either absent or equal to `expected`.
pub open spec fn absent_or(s: Option<String>, expected: Seq<char>) -> bool {
    match s {
        Some(v) => v@ == expected,
        None => true,
    }
}

fn absent_or_equal(s: &Option<String>, expected: &str) -> (r: bool)
    ensures
        r == absent_or(*s, expected@),
{
    match s {
        Some(v) => {
            let e = expected.to_owned();
            v.eq(&e)
        },
        None => true,
    }
}

/// The port to offer for a USB adapter with the given identity: one whose
/// manufacturer and product strings, where the adapter reports them, are those
/// of the base unit's adapter.
pub fn select_port(
    port_name: String,
    manufacturer: Option<String>,
    product: Option<String>,
    serial_number: Option<String>,
) -> (r: Option<PortInfo>)
    ensures
        r is Some <==> absent_or(manufacturer, MANUFACTURER@) && absent_or(product, PRODUCT@),
        r matches Some(p) ==> p.port_name == port_name && p.serial_number == serial_number,
{
    if absent_or_equal(&manufacturer, MANUFACTURER) && absent_or_equal(&product, PRODUCT) {
        Some(PortInfo { port_name, serial_number })
    } else {
        None
    }
}

} // verus!
