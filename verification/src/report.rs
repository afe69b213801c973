//! Boot-protocol mouse reports: how one is built from a motion sample, when
//! it has to be sent, and its three bytes on the wire.

use vstd::prelude::*;

verus! {

/// Largest movement, in either sense, that a report carries on one axis.
pub const REPORT_LIMIT: i8 = 127;

/// One mouse report: the left button and a relative movement on two axes.
#[derive(Clone, Copy, PartialEq, Eq, Structural, Debug)]
pub struct HidReport {
    pub button: bool,
    pub dx: i8,
    pub dy: i8,
}

/// `v` brought into the range that a report carries, `-127 ..= 127`.
pub open spec fn saturated(v: int) -> int {
    if v < -(REPORT_LIMIT as int) {
        -(REPORT_LIMIT as int)
    } else if v > REPORT_LIMIT {
        REPORT_LIMIT as int
    } else {
        v
    }
}

/// The byte that carries the signed value `v` in two's complement.
pub open spec fn byte_of(v: i8) -> u8 {
    if v >= 0 {
        v as u8
    } else {
        (v + 256) as u8
    }
}

/// The signed value that the byte `b` carries in two's complement.
pub open spec fn signed_of(b: u8) -> i8 {
    if b < 128 {
        b as i8
    } else {
        (b - 256) as i8
    }
}

impl HidReport {
    /// Whether both movements lie in the range that the report descriptor
    /// announces, `-127 ..= 127`.
    pub open spec fn in_range(self) -> bool {
        &&& -(REPORT_LIMIT as int) <= self.dx <= REPORT_LIMIT
        &&& -(REPORT_LIMIT as int) <= self.dy <= REPORT_LIMIT
    }

    /// The report on the wire: the button mask with the left button in bit 0,
    /// then `dx`, then `dy`.
    pub open spec fn wire(self) -> Seq<u8> {
        seq![
            if self.button {
                1u8
            } else {
                0u8
            },
            byte_of(self.dx),
            byte_of(self.dy),
        ]
    }

    /// The report that three bytes on the wire stand for. Of the button mask
    /// only bit 0 is read.
    pub open spec fn parsed(bytes: Seq<u8>) -> HidReport {
        HidReport { button: bytes[0] % 2 == 1, dx: signed_of(bytes[1]), dy: signed_of(bytes[2]) }
    }

    /// Encodes the report in the three bytes of the boot-protocol format.
    pub fn to_bytes(&self) -> (bytes: [u8; 3])
        ensures
            bytes@ == self.wire(),
    {
        let mask: u8 = if self.button {
            1
        } else {
            0
        };
        let bytes: [u8; 3] = [mask, encode_axis(self.dx), encode_axis(self.dy)];
        assert(bytes@ =~= self.wire());
        bytes
    }

    /// Decodes a report from the three bytes of the boot-protocol format.
    pub fn from_bytes(bytes: [u8; 3]) -> (report: HidReport)
        ensures
            report == Self::parsed(bytes@),
    {
        let mask: u8 = bytes[0];
        assert(mask & 1 == mask % 2) by (bit_vector);
        HidReport {
            button: mask & 1 == 1,
            dx: decode_axis(bytes[1]),
            dy: decode_axis(bytes[2]),
        }
    }

    /// A report that is encoded and then decoded comes back unchanged; this
    /// holds of every report, those in range among them.
    pub proof fn wire_round_trip(report: HidReport)
        ensures
            report.wire().len() == 3,
            Self::parsed(report.wire()) == report,
    {
    }
}

fn encode_axis(v: i8) -> (b: u8)
    ensures
        b == byte_of(v),
{
    if v >= 0 {
        v as u8
    } else {
        (v as i16 + 256) as u8
    }
}

fn decode_axis(b: u8) -> (v: i8)
    ensures
        v == signed_of(b),
{
    if b < 128 {
        b as i8
    } else {
        (b as i16 - 256) as i8
    }
}

/// Builds reports from filtered motion samples and decides which of them
/// have to be sent.
pub struct ReportBuilder;

impl ReportBuilder {
    /// The report for a button state and a filtered sample: the axes are
    /// swapped and negated, as the sensor is mounted, and each movement is
    /// brought into `-127 ..= 127`.
    pub open spec fn report_of(button: bool, dx: int, dy: int) -> HidReport {
        HidReport { button, dx: saturated(-dy) as i8, dy: saturated(-dx) as i8 }
    }

    /// Whether a report has to be sent: the button changed or the sample
    /// moves the pointer.
    pub open spec fn must_transmit(previous_button: bool, button: bool, dx: int, dy: int) -> bool {
        button != previous_button || dx != 0 || dy != 0
    }

    /// What goes to the host for one sample: the report where one has to be
    /// sent, nothing otherwise.
    pub open spec fn decision(previous_button: bool, button: bool, dx: int, dy: int) -> Option<
        HidReport,
    > {
        if Self::must_transmit(previous_button, button, dx, dy) {
            Some(Self::report_of(button, dx, dy))
        } else {
            None
        }
    }

    /// Builds the report for a button state and a filtered motion sample.
    pub fn build(button: bool, dx: i16, dy: i16) -> (report: HidReport)
        ensures
            report == Self::report_of(button, dx as int, dy as int),
            report.button == button,
            report.dx == saturated(-dy),
            report.dy == saturated(-dx),
            report.in_range(),
    {
        HidReport { button, dx: negate_and_saturate(dy), dy: negate_and_saturate(dx) }
    }

    /// Builds the report for one sample if it has to be sent: `Some` exactly
    /// when the button differs from `previous_button` or the sample is not
    /// `(0, 0)`.
    pub fn decide(previous_button: bool, button: bool, dx: i16, dy: i16) -> (outcome: Option<
        HidReport,
    >)
        ensures
            outcome == Self::decision(previous_button, button, dx as int, dy as int),
            outcome is Some <==> button != previous_button || dx != 0 || dy != 0,
            outcome matches Some(report) ==> report.in_range(),
    {
        if button != previous_button || dx != 0 || dy != 0 {
            Some(Self::build(button, dx, dy))
        } else {
            None
        }
    }

    /// A sample at rest with the button unchanged sends nothing; a change of
    /// the button sends a report whatever the sample is.
    pub proof fn button_edges_are_never_dropped(
        previous_button: bool,
        button: bool,
        dx: int,
        dy: int,
    )
        ensures
            button == previous_button ==> Self::decision(previous_button, button, 0, 0) is None,
            button != previous_button ==> Self::decision(previous_button, button, dx, dy) == Some(
                Self::report_of(button, dx, dy),
            ),
            button != previous_button ==> Self::decision(previous_button, button, 0, 0) == Some(
                HidReport { button, dx: 0, dy: 0 },
            ),
    {
    }
}

fn negate_and_saturate(v: i16) -> (out: i8)
    ensures
        out == saturated(-(v as int)),
{
    let negated: i32 = -(v as i32);
    if negated < -(REPORT_LIMIT as i32) {
        -REPORT_LIMIT
    } else if negated > REPORT_LIMIT as i32 {
        REPORT_LIMIT
    } else {
        negated as i8
    }
}

} // verus!
