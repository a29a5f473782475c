//! Selectors name the lights that a request acts on.

use vstd::prelude::*;
use crate::http::text::{
    after, before, cut, decimal, lemma_absent, lemma_cut, lemma_position, occurs, position,
    push_decimal, same,
};

verus! {

/// Selectors are used to identify one or more lights belonging to a particular account.
///
/// All resolutions of selectors are treated as sets, even if they are logically a single device,
/// for consistency with the API.
///
/// A selector may be constrained to specific zones with [`Selector::zoned`], and a
/// random device can be chosen from those it matches through [`Randomize`].
#[derive(Clone, Debug, Eq, PartialEq)]
pub enum Selector {
    /// All devices on the user's account.
    All,
    /// Specifies a device with the given label.
    Label(String),
    /// Specifies a device with the given ID/serial number.
    Id(String),
    /// Specifies a collection of devices based on the given group ID.
    GroupId(String),
    /// Specifies a collection of devices based on a group with the given label.
    Group(String),
    /// Specifies a collection of devices based on a location with the given ID.
    LocationId(String),
    /// Specifies a collection of devices based on a location with the given label.
    Location(String),
    /// Specifies a collection of devices from a scene with the given ID.
    SceneId(String),
}

/// What a [`Selector`] is to the contracts: its variant and the characters it holds.
pub enum SelectorView {
    All,
    Label(Seq<char>),
    Id(Seq<char>),
    GroupId(Seq<char>),
    Group(Seq<char>),
    LocationId(Seq<char>),
    Location(Seq<char>),
    SceneId(Seq<char>),
}

impl View for Selector {
    type V = SelectorView;

    open spec fn view(&self) -> SelectorView {
        match self {
            Selector::All => SelectorView::All,
            Selector::Label(v) => SelectorView::Label(v@),
            Selector::Id(v) => SelectorView::Id(v@),
            Selector::GroupId(v) => SelectorView::GroupId(v@),
            Selector::Group(v) => SelectorView::Group(v@),
            Selector::LocationId(v) => SelectorView::LocationId(v@),
            Selector::Location(v) => SelectorView::Location(v@),
            Selector::SceneId(v) => SelectorView::SceneId(v@),
        }
    }
}

impl SelectorView {
    /// The text of the selector: `all`, or a label, a colon and the value.
    pub open spec fn rendered(self) -> Seq<char> {
        match self {
            SelectorView::All => "all"@,
            SelectorView::Label(v) => "label:"@ + v,
            SelectorView::Id(v) => "id:"@ + v,
            SelectorView::GroupId(v) => "group_id:"@ + v,
            SelectorView::Group(v) => "group:"@ + v,
            SelectorView::LocationId(v) => "location_id:"@ + v,
            SelectorView::Location(v) => "location:"@ + v,
            SelectorView::SceneId(v) => "scene_id:"@ + v,
        }
    }

    /// The value that follows the label; `all` has none.
    pub open spec fn value(self) -> Seq<char> {
        match self {
            SelectorView::All => Seq::empty(),
            SelectorView::Label(v) => v,
            SelectorView::Id(v) => v,
            SelectorView::GroupId(v) => v,
            SelectorView::Group(v) => v,
            SelectorView::LocationId(v) => v,
            SelectorView::Location(v) => v,
            SelectorView::SceneId(v) => v,
        }
    }
}

/// Represents a failure to read a selector from text.
#[derive(Clone, Copy, Debug, Eq, PartialEq)]
pub enum SelectorParseError {
    /// The selector was neither "all" nor prefixed with a label.
    NoLabel,
    /// The selector contained a label but no following value.
    NoValue,
    /// The selector contained an unknown label.
    UnknownLabel,
}

impl SelectorParseError {
    /// What went wrong, in words.
    pub open spec fn words(self) -> Seq<char> {
        match self {
            SelectorParseError::NoLabel => "Unrecognized selector."@,
            SelectorParseError::NoValue => "No value given for label."@,
            SelectorParseError::UnknownLabel => "Unrecognized label."@,
        }
    }

    /// What went wrong, in words.
    pub fn message(&self) -> (message: &'static str)
        ensures
            message@ == self.words(),
    {
        match self {
            SelectorParseError::NoLabel => "Unrecognized selector.",
            SelectorParseError::NoValue => "No value given for label.",
            SelectorParseError::UnknownLabel => "Unrecognized label.",
        }
    }
}

impl std::str::FromStr for Selector {
    type Err = SelectorParseError;

    fn from_str(s: &str) -> (r: Result<Selector, SelectorParseError>)
        ensures
            reads_as(r, parsed(s@)),
    {
        Selector::parse(s)
    }
}

/// What a text reads as: `all`, or what stands before the first colon as the
/// label and everything after that colon as the value.
pub open spec fn parsed(s: Seq<char>) -> Result<SelectorView, SelectorParseError> {
    if s == "all"@ {
        Ok(SelectorView::All)
    } else if !occurs(s, ':') {
        Err(SelectorParseError::NoLabel)
    } else if after(s, ':').len() == 0 {
        Err(SelectorParseError::NoValue)
    } else if before(s, ':') == "label"@ {
        Ok(SelectorView::Label(after(s, ':')))
    } else if before(s, ':') == "id"@ {
        Ok(SelectorView::Id(after(s, ':')))
    } else if before(s, ':') == "group_id"@ {
        Ok(SelectorView::GroupId(after(s, ':')))
    } else if before(s, ':') == "group"@ {
        Ok(SelectorView::Group(after(s, ':')))
    } else if before(s, ':') == "location_id"@ {
        Ok(SelectorView::LocationId(after(s, ':')))
    } else if before(s, ':') == "location"@ {
        Ok(SelectorView::Location(after(s, ':')))
    } else if before(s, ':') == "scene_id"@ {
        Ok(SelectorView::SceneId(after(s, ':')))
    } else {
        Err(SelectorParseError::UnknownLabel)
    }
}

/// Whether `r` is the reading `expected`, the selector taken by its view.
pub open spec fn reads_as(
    r: Result<Selector, SelectorParseError>,
    expected: Result<SelectorView, SelectorParseError>,
) -> bool {
    match expected {
        Ok(v) => r is Ok && r->Ok_0@ == v,
        Err(e) => r == Err::<Selector, SelectorParseError>(e),
    }
}

/// Marker trait indicating the potential for use in identifying devices: what
/// can be written into the path of a request.
pub trait Select {
    /// The text that stands for the selector in a request.
    spec fn rendered(&self) -> Seq<char>;

    /// Writes the selector as the API reads it.
    fn render(&self) -> (text: String)
        ensures
            text@ == self.rendered(),
    ;
}

/// Marker trait for non-randomized selectors.
pub trait PureSelect: Select {

}

fn labelled(label: &str, value: &String) -> (text: String)
    ensures
        text@ == label@ + value@,
{
    let mut text = String::from_str(label);
    text.append(value.as_str());
    text
}

impl Select for Selector {
    open spec fn rendered(&self) -> Seq<char> {
        self@.rendered()
    }

    fn render(&self) -> (text: String)
        ensures
            text@ == self.rendered(),
    {
        match self {
            Selector::All => String::from_str("all"),
            Selector::Label(v) => labelled("label:", v),
            Selector::Id(v) => labelled("id:", v),
            Selector::GroupId(v) => labelled("group_id:", v),
            Selector::Group(v) => labelled("group:", v),
            Selector::LocationId(v) => labelled("location_id:", v),
            Selector::Location(v) => labelled("location:", v),
            Selector::SceneId(v) => labelled("scene_id:", v),
        }
    }
}

impl PureSelect for Selector {

}

/// Reading what was written gives the selector back: for `all`, and for every
/// other selector whose value is not empty.
pub proof fn lemma_parse_render(v: SelectorView)
    requires
        v is All || v.value().len() > 0,
    ensures
        parsed(v.rendered()) == Ok::<SelectorView, SelectorParseError>(v),
{
    reveal_strlit("all");
    reveal_strlit("label");
    reveal_strlit("id");
    reveal_strlit("group_id");
    reveal_strlit("group");
    reveal_strlit("location_id");
    reveal_strlit("location");
    reveal_strlit("scene_id");
    reveal_strlit("label:");
    reveal_strlit("id:");
    reveal_strlit("group_id:");
    reveal_strlit("group:");
    reveal_strlit("location_id:");
    reveal_strlit("location:");
    reveal_strlit("scene_id:");
    let s = v.rendered();
    if !(v is All) {
        let value = v.value();
        let label = s.subrange(0, s.len() - value.len() - 1);
        assert(s =~= label + seq![':'] + value);
        lemma_absent(label, ':');
        lemma_cut(label, ':', value);
        assert(s != "all"@) by {
            lemma_position(s, ':');
            if s == "all"@ {
                assert(s[position(s, ':')] == ':');
            }
        }
        match v {
            SelectorView::All => {},
            SelectorView::Label(_) => assert(label =~= "label"@),
            SelectorView::Id(_) => assert(label =~= "id"@),
            SelectorView::GroupId(_) => assert(label =~= "group_id"@),
            SelectorView::Group(_) => assert(label =~= "group"@),
            SelectorView::LocationId(_) => assert(label =~= "location_id"@),
            SelectorView::Location(_) => assert(label =~= "location"@),
            SelectorView::SceneId(_) => assert(label =~= "scene_id"@),
        }
    }
}

impl Selector {
    /// Reads a selector from its text.
    pub fn parse(s: &str) -> (r: Result<Selector, SelectorParseError>)
        ensures
            reads_as(r, parsed(s@)),
    {
        if same(s, "all") {
            return Ok(Selector::All);
        }
        let (label, value, found) = cut(s, ':');
        if !found {
            return Err(SelectorParseError::NoLabel);
        }
        if value.unicode_len() == 0 {
            return Err(SelectorParseError::NoValue);
        }
        let value = value.to_owned();
        if same(label, "label") {
            Ok(Selector::Label(value))
        } else if same(label, "id") {
            Ok(Selector::Id(value))
        } else if same(label, "group_id") {
            Ok(Selector::GroupId(value))
        } else if same(label, "group") {
            Ok(Selector::Group(value))
        } else if same(label, "location_id") {
            Ok(Selector::LocationId(value))
        } else if same(label, "location") {
            Ok(Selector::Location(value))
        } else if same(label, "scene_id") {
            Ok(Selector::SceneId(value))
        } else {
            Err(SelectorParseError::UnknownLabel)
        }
    }
}

/// The zones from `lo` up to, but without, `hi`, in ascending order.
pub open spec fn ascending(lo: int, hi: int) -> Seq<u8> {
    Seq::new(
        if hi > lo {
            (hi - lo) as nat
        } else {
            0
        },
        |i: int| (lo + i) as u8,
    )
}

/// Represents a set of zones. Used to constrain selectors further.
pub struct Zones {
    /// The zones in the order in which they will be written.
    pub list: Vec<u8>,
}

impl View for Zones {
    type V = Seq<u8>;

    open spec fn view(&self) -> Seq<u8> {
        self.list@
    }
}

impl Zones {
    /// The zones from `lo` up to, but without, `hi`.
    fn span(lo: u16, hi: u16) -> (zones: Zones)
        requires
            hi <= 256,
        ensures
            zones@ == ascending(lo as int, hi as int),
    {
        let mut list: Vec<u8> = Vec::new();
        let mut z: u16 = lo;
        while z < hi
            invariant
                hi <= 256,
                lo <= z,
                z <= hi || z == lo,
                list@ == ascending(lo as int, z as int),
            decreases hi - z,
        {
            list.push(z as u8);
            z += 1;
            assert(list@ =~= ascending(lo as int, z as int));
        }
        assert(list@ =~= ascending(lo as int, hi as int));
        Zones { list }
    }
}

impl From<Vec<u8>> for Zones {
    fn from(list: Vec<u8>) -> (zones: Zones)
        ensures
            zones@ == list@,
    {
        Zones { list }
    }
}

impl vstd::std_specs::convert::FromSpecImpl<Vec<u8>> for Zones {
    open spec fn obeys_from_spec() -> bool {
        true
    }

    open spec fn from_spec(list: Vec<u8>) -> Zones {
        Zones { list }
    }
}

impl std::iter::FromIterator<u8> for Zones {
    /// Gathers the zones that `iter` hands out, in its order, with
    /// `Iterator::collect`. What an iterator of any type hands out is not
    /// known to the contracts, so nothing is claimed of the result.
    #[verifier::external_body]
    fn from_iter<I: IntoIterator<Item = u8>>(iter: I) -> (zones: Zones) {
        Zones { list: iter.into_iter().collect() }
    }
}

impl<'a> std::iter::FromIterator<&'a u8> for Zones {
    /// Gathers copies of the zones that `iter` points at, in its order, with
    /// `Iterator::collect`. Nothing is claimed of the result.
    #[verifier::external_body]
    fn from_iter<I: IntoIterator<Item = &'a u8>>(iter: I) -> (zones: Zones) {
        Zones { list: iter.into_iter().cloned().collect() }
    }
}

impl From<std::ops::Range<u8>> for Zones {
    fn from(from: std::ops::Range<u8>) -> (zones: Zones)
        ensures
            zones@ == ascending(from.start as int, from.end as int),
    {
        Zones::span(from.start as u16, from.end as u16)
    }
}

impl vstd::std_specs::convert::FromSpecImpl<std::ops::Range<u8>> for Zones {
    open spec fn obeys_from_spec() -> bool {
        false
    }

    open spec fn from_spec(from: std::ops::Range<u8>) -> Zones {
        arbitrary()
    }
}

/// `RangeInclusive::start` of std: the lower bound that the range holds now.
#[verifier::external_body]
fn inclusive_start(range: &std::ops::RangeInclusive<u8>) -> (start: u8)
    ensures
        start == range@.start,
{
    *range.start()
}

/// `RangeInclusive::end` of std: the upper bound, which belongs to the range.
#[verifier::external_body]
fn inclusive_end(range: &std::ops::RangeInclusive<u8>) -> (end: u8)
    ensures
        end == range@.end,
{
    *range.end()
}

/// `RangeInclusive::is_empty` of std: true when the lower bound lies above the
/// upper one, and after an iteration has run the range to its end.
#[verifier::external_body]
fn inclusive_is_empty(range: &std::ops::RangeInclusive<u8>) -> (empty: bool)
    ensures
        empty == (range@.exhausted || range@.start > range@.end),
{
    range.is_empty()
}

/// The zones that an inclusive range still holds.
pub open spec fn inclusive(range: std::ops::RangeInclusive<u8>) -> Seq<u8> {
    if range@.exhausted {
        Seq::empty()
    } else {
        ascending(range@.start as int, range@.end + 1)
    }
}

impl From<std::ops::RangeInclusive<u8>> for Zones {
    fn from(from: std::ops::RangeInclusive<u8>) -> (zones: Zones)
        ensures
            zones@ == inclusive(from),
    {
        if inclusive_is_empty(&from) {
            let zones = Zones { list: Vec::new() };
            assert(zones@ =~= inclusive(from));
            zones
        } else {
            Zones::span(inclusive_start(&from) as u16, inclusive_end(&from) as u16 + 1)
        }
    }
}

impl vstd::std_specs::convert::FromSpecImpl<std::ops::RangeInclusive<u8>> for Zones {
    open spec fn obeys_from_spec() -> bool {
        false
    }

    open spec fn from_spec(from: std::ops::RangeInclusive<u8>) -> Zones {
        arbitrary()
    }
}

/// `RangeFrom` of std, the range `start..`: one public field, its lower bound.
#[verifier::external_type_specification]
#[verifier::reject_recursive_types(Idx)]
pub struct ExRangeFrom<Idx>(std::ops::RangeFrom<Idx>);

/// `RangeTo` of std, the range `..end`: one public field, the bound that it
/// stops short of.
#[verifier::external_type_specification]
#[verifier::reject_recursive_types(Idx)]
pub struct ExRangeTo<Idx>(std::ops::RangeTo<Idx>);

/// `RangeToInclusive` of std, the range `..=end`: one public field, its upper
/// bound, which belongs to it.
#[verifier::external_type_specification]
#[verifier::reject_recursive_types(Idx)]
pub struct ExRangeToInclusive<Idx>(std::ops::RangeToInclusive<Idx>);

impl From<std::ops::RangeFrom<u8>> for Zones {
    fn from(from: std::ops::RangeFrom<u8>) -> (zones: Zones)
        ensures
            zones@ == ascending(from.start as int, 256),
    {
        Zones::span(from.start as u16, 256)
    }
}

impl vstd::std_specs::convert::FromSpecImpl<std::ops::RangeFrom<u8>> for Zones {
    open spec fn obeys_from_spec() -> bool {
        false
    }

    open spec fn from_spec(from: std::ops::RangeFrom<u8>) -> Zones {
        arbitrary()
    }
}

impl From<std::ops::RangeTo<u8>> for Zones {
    fn from(from: std::ops::RangeTo<u8>) -> (zones: Zones)
        ensures
            zones@ == ascending(0, from.end as int),
    {
        Zones::span(0, from.end as u16)
    }
}

impl vstd::std_specs::convert::FromSpecImpl<std::ops::RangeTo<u8>> for Zones {
    open spec fn obeys_from_spec() -> bool {
        false
    }

    open spec fn from_spec(from: std::ops::RangeTo<u8>) -> Zones {
        arbitrary()
    }
}

impl From<std::ops::RangeToInclusive<u8>> for Zones {
    fn from(from: std::ops::RangeToInclusive<u8>) -> (zones: Zones)
        ensures
            zones@ == ascending(0, from.end + 1),
    {
        Zones::span(0, from.end as u16 + 1)
    }
}

impl vstd::std_specs::convert::FromSpecImpl<std::ops::RangeToInclusive<u8>> for Zones {
    open spec fn obeys_from_spec() -> bool {
        false
    }

    open spec fn from_spec(from: std::ops::RangeToInclusive<u8>) -> Zones {
        arbitrary()
    }
}

impl From<u8> for Zones {
    fn from(from: u8) -> (zones: Zones)
        ensures
            zones@ == seq![from],
    {
        let mut list: Vec<u8> = Vec::new();
        list.push(from);
        Zones { list }
    }
}

impl vstd::std_specs::convert::FromSpecImpl<u8> for Zones {
    open spec fn obeys_from_spec() -> bool {
        false
    }

    open spec fn from_spec(from: u8) -> Zones {
        arbitrary()
    }
}

/// What the zones add to the text of a selector: a bar and the zone's decimal
/// writing for each zone, in the order given.
pub open spec fn zone_suffix(zones: Seq<u8>) -> Seq<char>
    decreases zones.len(),
{
    if zones.len() == 0 {
        Seq::empty()
    } else {
        zone_suffix(zones.drop_last()) + seq!['|'] + decimal(zones.last() as nat)
    }
}

/// A selector that has been constrained to specific zones.
pub struct Zoned {
    /// The selector that is constrained.
    pub selector: Selector,
    /// The zones it is constrained to.
    pub zoning: Zones,
}

impl Select for Zoned {
    open spec fn rendered(&self) -> Seq<char> {
        self.selector@.rendered() + zone_suffix(self.zoning@)
    }

    fn render(&self) -> (text: String)
        ensures
            text@ == self.rendered(),
    {
        let mut text = self.selector.render();
        let ghost base = text@;
        let n = self.zoning.list.len();
        let mut i: usize = 0;
        while i < n
            invariant
                i <= n,
                n == self.zoning.list.len(),
                text@ == base + zone_suffix(self.zoning@.take(i as int)),
            decreases n - i,
        {
            proof {
                reveal_strlit("|");
                assert(self.zoning@.take(i + 1).drop_last() =~= self.zoning@.take(i as int));
            }
            text.append("|");
            push_decimal(&mut text, self.zoning.list[i] as u64);
            i += 1;
            assert(text@ =~= base + zone_suffix(self.zoning@.take(i as int)));
        }
        assert(self.zoning@.take(n as int) =~= self.zoning@);
        text
    }
}

impl PureSelect for Zoned {

}

impl Selector {
    /// Constrains the selector to only match the given zone(s): what `z`
    /// converts to, be it one zone, a list, or a range of zones.
    pub fn zoned<T: Into<Zones>>(self, z: T) -> (zoned: Zoned)
        ensures
            zoned.selector == self,
            call_ensures(<T as Into<Zones>>::into, (z,), zoned.zoning),
    {
        Zoned { selector: self, zoning: z.into() }
    }
}

/// A selector that randomly chooses a device from the resultant list.
pub struct Random<T: PureSelect>(pub T);

impl<T: PureSelect> Select for Random<T> {
    open spec fn rendered(&self) -> Seq<char> {
        self.0.rendered() + ":random"@
    }

    fn render(&self) -> (text: String)
        ensures
            text@ == self.rendered(),
    {
        let mut text = self.0.render();
        text.append(":random");
        text
    }
}

/// Enables randomization of non-randomized selectors.
pub trait Randomize<T: PureSelect> {
    /// Chooses a random element from the set of matching devices.
    fn random(self) -> Random<T>;
}

impl<T: PureSelect> Randomize<T> for T {
    /// Creates a selector which will choose a random device from the list.
    fn random(self) -> (random: Random<T>)
        ensures
            random.0 == self,
    {
        Random(self)
    }
}

/// Zones written after a selector come out as the selector's own text
/// followed by a bar and a number for each zone: for the zones from 3 to 5,
/// by `|3|4|5`, whatever the base selector.
pub proof fn lemma_zoned_three_to_five(zoned: Zoned)
    requires
        zoned.zoning@ == ascending(3, 6),
    ensures
        zoned.rendered() == zoned.selector.rendered() + "|3|4|5"@,
{
    reveal_strlit("|3|4|5");
    reveal_with_fuel(zone_suffix, 4);
    let z = zoned.zoning@;
    assert(z.drop_last() =~= seq![3u8, 4u8]);
    assert(z.drop_last().drop_last() =~= seq![3u8]);
    assert(z.drop_last().drop_last().drop_last() =~= Seq::<u8>::empty());
    assert(zone_suffix(z) =~= "|3|4|5"@);
}

} // verus!
