//! The LIFX product catalogue.

use vstd::prelude::*;

verus! {

/// Represents a LIFX product.
#[allow(missing_docs)]
#[derive(Clone, Copy, Debug, PartialEq, Eq, Structural)]
pub enum Product {
    Original1000,
    Color650,
    White800LV,
    White800HV,
    White900BR30,
    Color1000BR30,
    Color1000,
    LIFXA19,
    LIFXBR30,
    LIFXPlusA19,
    LIFXPlusBR30,
    LIFXZ,
    LIFXZ2,
    LIFXDownlight,
    LIFXBeam,
    LIFXMini,
    LIFXMiniDayDusk,
    LIFXMiniWhite,
    LIFXGU10,
    LIFXTile,
}

impl Product {
    /// The product ID that the vendor gave the product.
    pub open spec fn id(self) -> u32 {
        match self {
            Product::Original1000 => 1,
            Product::Color650 => 3,
            Product::White800LV => 10,
            Product::White800HV => 11,
            Product::White900BR30 => 18,
            Product::Color1000BR30 => 20,
            Product::Color1000 => 22,
            Product::LIFXA19 => 27,
            Product::LIFXBR30 => 28,
            Product::LIFXPlusA19 => 29,
            Product::LIFXPlusBR30 => 30,
            Product::LIFXZ => 31,
            Product::LIFXZ2 => 32,
            Product::LIFXDownlight => 36,
            Product::LIFXBeam => 38,
            Product::LIFXMini => 49,
            Product::LIFXMiniDayDusk => 50,
            Product::LIFXMiniWhite => 51,
            Product::LIFXGU10 => 52,
            Product::LIFXTile => 55,
        }
    }

    /// The name under which the product is sold.
    pub open spec fn title(self) -> Seq<char> {
        match self {
            Product::Original1000 => "Original 1000"@,
            Product::Color650 => "Color 650"@,
            Product::White800LV => "White 800 (Low Voltage)"@,
            Product::White800HV => "White 800 (High Voltage)"@,
            Product::White900BR30 => "White 900 BR30 (Low Voltage)"@,
            Product::Color1000BR30 => "Color 1000 BR30"@,
            Product::Color1000 => "Color 1000"@,
            Product::LIFXA19 => "LIFX A19"@,
            Product::LIFXBR30 => "LIFX BR30"@,
            Product::LIFXPlusA19 => "LIFX+ A19"@,
            Product::LIFXPlusBR30 => "LIFX+ BR30"@,
            Product::LIFXZ => "LIFX Z"@,
            Product::LIFXZ2 => "LIFX Z 2"@,
            Product::LIFXDownlight => "LIFX Downlight"@,
            Product::LIFXBeam => "LIFX Beam"@,
            Product::LIFXMini => "LIFX Mini"@,
            Product::LIFXMiniDayDusk => "LIFX Mini Day and Dusk"@,
            Product::LIFXMiniWhite => "LIFX Mini White"@,
            Product::LIFXGU10 => "LIFX GU10"@,
            Product::LIFXTile => "LIFX Tile"@,
        }
    }

    /// Whether the product is one of the white-only bulbs.
    pub open spec fn white_only(self) -> bool {
        self == Product::White800LV || self == Product::White800HV || self
            == Product::White900BR30 || self == Product::LIFXMiniDayDusk || self
            == Product::LIFXMiniWhite
    }

    /// Whether the product belongs to the LIFX+ line, which adds infrared.
    pub open spec fn plus(self) -> bool {
        self == Product::LIFXPlusA19 || self == Product::LIFXPlusBR30
    }

    /// Whether the product is a strip or a beam, lit zone by zone.
    pub open spec fn linear(self) -> bool {
        self == Product::LIFXZ || self == Product::LIFXZ2 || self == Product::LIFXBeam
    }

    /// Gives the vendor ID of this product.
    pub fn vid(&self) -> (vid: u32)
        ensures
            vid == 1,
    {
        1
    }

    /// Gives the product ID of this product.
    pub fn pid(&self) -> (pid: u32)
        ensures
            pid == self.id(),
    {
        match self {
            Product::Original1000 => 1,
            Product::Color650 => 3,
            Product::White800LV => 10,
            Product::White800HV => 11,
            Product::White900BR30 => 18,
            Product::Color1000BR30 => 20,
            Product::Color1000 => 22,
            Product::LIFXA19 => 27,
            Product::LIFXBR30 => 28,
            Product::LIFXPlusA19 => 29,
            Product::LIFXPlusBR30 => 30,
            Product::LIFXZ => 31,
            Product::LIFXZ2 => 32,
            Product::LIFXDownlight => 36,
            Product::LIFXBeam => 38,
            Product::LIFXMini => 49,
            Product::LIFXMiniDayDusk => 50,
            Product::LIFXMiniWhite => 51,
            Product::LIFXGU10 => 52,
            Product::LIFXTile => 55,
        }
    }

    /// Gives the consumer-friendly name of this product.
    pub fn name(&self) -> (name: &'static str)
        ensures
            name@ == self.title(),
    {
        match self {
            Product::Original1000 => "Original 1000",
            Product::Color650 => "Color 650",
            Product::White800LV => "White 800 (Low Voltage)",
            Product::White800HV => "White 800 (High Voltage)",
            Product::White900BR30 => "White 900 BR30 (Low Voltage)",
            Product::Color1000BR30 => "Color 1000 BR30",
            Product::Color1000 => "Color 1000",
            Product::LIFXA19 => "LIFX A19",
            Product::LIFXBR30 => "LIFX BR30",
            Product::LIFXPlusA19 => "LIFX+ A19",
            Product::LIFXPlusBR30 => "LIFX+ BR30",
            Product::LIFXZ => "LIFX Z",
            Product::LIFXZ2 => "LIFX Z 2",
            Product::LIFXDownlight => "LIFX Downlight",
            Product::LIFXBeam => "LIFX Beam",
            Product::LIFXMini => "LIFX Mini",
            Product::LIFXMiniDayDusk => "LIFX Mini Day and Dusk",
            Product::LIFXMiniWhite => "LIFX Mini White",
            Product::LIFXGU10 => "LIFX GU10",
            Product::LIFXTile => "LIFX Tile",
        }
    }

    /// Indicates whether this product has color support.
    pub fn color(&self) -> (color: bool)
        ensures
            color == !self.white_only(),
    {
        match self {
            Product::White800LV
            | Product::White800HV
            | Product::White900BR30
            | Product::LIFXMiniDayDusk
            | Product::LIFXMiniWhite => false,
            _ => true,
        }
    }

    /// Indicates whether this product has infrared support.
    pub fn infrared(&self) -> (infrared: bool)
        ensures
            infrared == self.plus(),
    {
        match self {
            Product::LIFXPlusBR30 | Product::LIFXPlusA19 => true,
            _ => false,
        }
    }

    /// Indicates whether this product supports multizoning.
    pub fn multizone(&self) -> (multizone: bool)
        ensures
            multizone == self.linear(),
    {
        match self {
            Product::LIFXZ | Product::LIFXZ2 | Product::LIFXBeam => true,
            _ => false,
        }
    }
}

/// No two products share a product ID, so the ID tells the product.
pub proof fn lemma_pid_tells_product(a: Product, b: Product)
    requires
        a.id() == b.id(),
    ensures
        a == b,
{
}

/// Every product with infrared or with zones is a color product.
pub proof fn lemma_extras_have_color(p: Product)
    requires
        p.plus() || p.linear(),
    ensures
        !p.white_only(),
{
}

} // verus!
