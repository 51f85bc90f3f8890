//! Snapshots of a device's connectors, encoders and CRTCs, and the names that
//! outputs get from them.

use vstd::prelude::*;
use vstd::string::*;
use crate::mode::Mode;

verus! {

/// Capabilities of one encoder, as queried from the device.
#[derive(Clone, Copy, Debug, PartialEq, Eq, Structural)]
pub struct EncoderInfo {
    /// Hardware handle of the encoder.
    pub handle: u32,
    /// Bit `i` is set when the encoder can drive the device's `i`-th CRTC.
    pub possible_crtcs: u32,
}

/// Order of the subpixels of a connected display.
#[derive(Clone, Copy, Debug, PartialEq, Eq, Structural)]
pub enum Subpixel {
    /// The geometry is not known.
    Unknown,
    /// Horizontal, red first.
    HorizontalRgb,
    /// Horizontal, blue first.
    HorizontalBgr,
    /// Vertical, red first.
    VerticalRgb,
    /// Vertical, blue first.
    VerticalBgr,
    /// The display has no subpixels.
    NoSubpixels,
}

/// Names read from a display's identification block.
#[derive(Clone, Debug)]
pub struct EdidInfo {
    /// Name of the manufacturer.
    pub manufacturer: String,
    /// Name of the model.
    pub model: String,
}

/// State and capabilities of one connector, as queried from the device.
#[derive(Clone, Debug)]
pub struct ConnectorInfo {
    /// Hardware handle of the connector.
    pub handle: u32,
    /// Kind of the physical interface, in the kernel's numbering.
    pub interface: u32,
    /// Number that tells connectors of one kind apart.
    pub interface_id: u32,
    /// Whether a display is plugged in.
    pub connected: bool,
    /// Physical size of the display in millimetres, where known.
    pub size: Option<(u32, u32)>,
    /// Subpixel order of the display.
    pub subpixel: Subpixel,
    /// Modes the display supports, in the order the hardware lists them.
    pub modes: Vec<Mode>,
    /// Encoders that can feed this connector, in the order the hardware lists them.
    pub encoders: Vec<EncoderInfo>,
    /// Names read from the display, where it could be identified.
    pub edid: Option<EdidInfo>,
}

/// Everything a scan reads from a device: its CRTCs and its connectors, each
/// in enumeration order.
#[derive(Clone, Debug)]
pub struct Resources {
    /// Handles of the device's CRTCs.
    pub crtcs: Vec<u32>,
    /// The device's connectors.
    pub connectors: Vec<ConnectorInfo>,
}

impl ConnectorInfo {
    /// A connector takes part in the assignment when a display is plugged in
    /// and reports at least one mode.
    pub open spec fn usable(self) -> bool {
        self.connected && self.modes@.len() > 0
    }

    /// Tells whether the connector takes part in the assignment.
    pub fn is_usable(&self) -> (r: bool)
        ensures
            r == self.usable(),
    {
        self.connected && self.modes.len() > 0
    }
}

/// Name of a kind of physical interface, as the `drm` crate spells it.
pub uninterp spec fn interface_name(interface: u32) -> Seq<char>;

/// `drm::control::connector::Interface::as_str`, on the interface that
/// `Interface::from` makes of the kernel's number. The result is the name that
/// the crate's table gives for that number: a function of the number alone.
#[verifier::external_body]
fn interface_str(interface: u32) -> (r: String)
    ensures
        r@ == interface_name(interface),
{
    String::from(drm::control::connector::Interface::from(interface).as_str())
}

/// Decimal digits of a number, most significant first, without leading zeros.
pub open spec fn decimal(n: nat) -> Seq<char>
    decreases n,
{
    if n < 10 {
        seq![digit_char(n)]
    } else {
        decimal(n / 10).push(digit_char(n % 10))
    }
}

/// The character of a digit below ten.
pub open spec fn digit_char(d: nat) -> char {
    if d == 0 {
        '0'
    } else if d == 1 {
        '1'
    } else if d == 2 {
        '2'
    } else if d == 3 {
        '3'
    } else if d == 4 {
        '4'
    } else if d == 5 {
        '5'
    } else if d == 6 {
        '6'
    } else if d == 7 {
        '7'
    } else if d == 8 {
        '8'
    } else {
        '9'
    }
}

fn digit_str(d: u32) -> (r: &'static str)
    requires
        d < 10,
    ensures
        r@ == seq![digit_char(d as nat)],
{
    proof {
        reveal_strlit("0");
        reveal_strlit("1");
        reveal_strlit("2");
        reveal_strlit("3");
        reveal_strlit("4");
        reveal_strlit("5");
        reveal_strlit("6");
        reveal_strlit("7");
        reveal_strlit("8");
        reveal_strlit("9");
    }
    let r = if d == 0 {
        "0"
    } else if d == 1 {
        "1"
    } else if d == 2 {
        "2"
    } else if d == 3 {
        "3"
    } else if d == 4 {
        "4"
    } else if d == 5 {
        "5"
    } else if d == 6 {
        "6"
    } else if d == 7 {
        "7"
    } else if d == 8 {
        "8"
    } else {
        "9"
    };
    r
}

/// Appends the decimal digits of `n` to `out`.
fn push_decimal(out: &mut String, n: u32)
    ensures
        final(out)@ == old(out)@ + decimal(n as nat),
    decreases n,
{
    if n >= 10 {
        push_decimal(out, n / 10);
    }
    out.append(digit_str(n % 10));
}

/// The name of an output: the interface's name, a hyphen, the interface id.
pub open spec fn output_name_of(interface: Seq<char>, interface_id: u32) -> Seq<char> {
    interface + seq!['-'] + decimal(interface_id as nat)
}

/// Builds an output's name from the name of its interface and the
/// interface id, as in `HDMI-A-1`.
pub fn output_name(interface: &str, interface_id: u32) -> (r: String)
    ensures
        r@ == output_name_of(interface@, interface_id),
{
    let mut name = String::from_str(interface);
    proof {
        reveal_strlit("-");
    }
    name.append("-");
    push_decimal(&mut name, interface_id);
    name
}

/// The name under which a connector's output is announced.
pub fn connector_name(connector: &ConnectorInfo) -> (r: String)
    ensures
        r@ == output_name_of(interface_name(connector.interface), connector.interface_id),
{
    let interface = interface_str(connector.interface);
    output_name(interface.as_str(), connector.interface_id)
}

} // verus!
