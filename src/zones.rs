//! Regions of the stick plane, and the colouring of the plane by region.

use vstd::prelude::*;

verus! {

/// Something that can say whether a stick position lies inside it.
pub trait ZoneTrait {
    /// Whether `pos` lies inside the zone.
    spec fn covers(&self, pos: (i8, i8)) -> bool;

    /// The zone's name.
    spec fn label(&self) -> Seq<char>;

    fn in_zone(&self, pos: (i8, i8)) -> (r: bool)
        ensures
            r == self.covers(pos),
    ;

    fn get_name(&self) -> (r: &'static str)
        ensures
            r@ == self.label(),
    ;
}

/// An axis-aligned rectangle of stick positions, bounds inclusive.
#[derive(Debug, PartialEq, Hash, Eq, Clone, Copy)]
pub struct SquareZone {
    pub min_x: i8,
    pub max_x: i8,
    pub min_y: i8,
    pub max_y: i8,
    pub name: &'static str,
}

/// A named zone of the stick plane.
#[derive(Debug, PartialEq, Hash, Eq, Clone, Copy)]
pub enum Zone {
    SquareZone(SquareZone),
}

impl ZoneTrait for SquareZone {
    open spec fn covers(&self, pos: (i8, i8)) -> bool {
        self.min_x <= pos.0 <= self.max_x && self.min_y <= pos.1 <= self.max_y
    }

    open spec fn label(&self) -> Seq<char> {
        self.name@
    }

    fn in_zone(&self, pos: (i8, i8)) -> (r: bool) {
        pos.0 >= self.min_x && pos.0 <= self.max_x && pos.1 >= self.min_y && pos.1 <= self.max_y
    }

    fn get_name(&self) -> (r: &'static str) {
        self.name
    }
}

impl ZoneTrait for Zone {
    open spec fn covers(&self, pos: (i8, i8)) -> bool {
        match self {
            Zone::SquareZone(zone) => zone.covers(pos),
        }
    }

    open spec fn label(&self) -> Seq<char> {
        match self {
            Zone::SquareZone(zone) => zone.label(),
        }
    }

    fn in_zone(&self, pos: (i8, i8)) -> (r: bool) {
        match self {
            Zone::SquareZone(zone) => zone.in_zone(pos),
        }
    }

    fn get_name(&self) -> (r: &'static str) {
        match self {
            Zone::SquareZone(zone) => zone.get_name(),
        }
    }
}

impl SquareZone {
    pub fn new(min_x: i8, max_x: i8, min_y: i8, max_y: i8, name: &'static str) -> (z: SquareZone)
        ensures
            z == (SquareZone { min_x, max_x, min_y, max_y, name }),
    {
        SquareZone { min_x, max_x, min_y, max_y, name }
    }
}

/// The neutral region around the stick's rest position.
pub fn deadzone() -> (z: SquareZone)
    ensures
        z == deadzone_spec(),
{
    SquareZone::new(-23, 23, -23, 23, "deadzone")
}

/// The whole stick plane.
pub fn everything() -> (z: SquareZone)
    ensures
        z == everything_spec(),
{
    SquareZone::new(-128, 127, -128, 127, "everything")
}

/// Far enough right for a forward smash.
pub fn right_smash() -> (z: SquareZone)
    ensures
        z == right_smash_spec(),
{
    SquareZone::new(64, 127, -128, 127, "f smash left")
}

/// Far enough left for a forward smash.
pub fn left_smash() -> (z: SquareZone)
    ensures
        z == left_smash_spec(),
{
    SquareZone::new(-128, -64, -128, 127, "f smash right")
}

/// Far enough up for an up smash.
pub fn up_smash() -> (z: SquareZone)
    ensures
        z == up_smash_spec(),
{
    SquareZone::new(-128, 127, 53, 127, "up smash")
}

/// Far enough down for a down smash.
pub fn down_smash() -> (z: SquareZone)
    ensures
        z == down_smash_spec(),
{
    SquareZone::new(-128, 127, -128, -53, "down smash")
}

/// The zones whose entering and leaving are reported as actions.
pub fn get_some_zones() -> (r: Vec<Zone>)
    ensures
        r@ == seq![
            Zone::SquareZone(deadzone_spec()),
            Zone::SquareZone(left_smash_spec()),
            Zone::SquareZone(right_smash_spec()),
            Zone::SquareZone(up_smash_spec()),
            Zone::SquareZone(down_smash_spec()),
        ],
{
    let r = vec![
        Zone::SquareZone(deadzone()),
        Zone::SquareZone(left_smash()),
        Zone::SquareZone(right_smash()),
        Zone::SquareZone(up_smash()),
        Zone::SquareZone(down_smash()),
    ];
    assert(r@ =~= seq![
        Zone::SquareZone(deadzone_spec()),
        Zone::SquareZone(left_smash_spec()),
        Zone::SquareZone(right_smash_spec()),
        Zone::SquareZone(up_smash_spec()),
        Zone::SquareZone(down_smash_spec()),
    ]);
    r
}

pub open spec fn deadzone_spec() -> SquareZone {
    SquareZone { min_x: -23i8, max_x: 23i8, min_y: -23i8, max_y: 23i8, name: "deadzone" }
}

pub open spec fn everything_spec() -> SquareZone {
    SquareZone { min_x: -128i8, max_x: 127i8, min_y: -128i8, max_y: 127i8, name: "everything" }
}

pub open spec fn left_smash_spec() -> SquareZone {
    SquareZone { min_x: -128i8, max_x: -64i8, min_y: -128i8, max_y: 127i8, name: "f smash right" }
}

pub open spec fn right_smash_spec() -> SquareZone {
    SquareZone { min_x: 64i8, max_x: 127i8, min_y: -128i8, max_y: 127i8, name: "f smash left" }
}

pub open spec fn up_smash_spec() -> SquareZone {
    SquareZone { min_x: -128i8, max_x: 127i8, min_y: 53i8, max_y: 127i8, name: "up smash" }
}

pub open spec fn down_smash_spec() -> SquareZone {
    SquareZone { min_x: -128i8, max_x: 127i8, min_y: -128i8, max_y: -53i8, name: "down smash" }
}

/// A region's name and its background and foreground colours (RGB).
#[derive(PartialEq, Debug)]
pub struct ZoneColor {
    pub name: String,
    pub bg_color: (u8, u8, u8),
    pub fg_color: (u8, u8, u8),
}

/// The name and colours of a region, as values.
pub type ColorView = (Seq<char>, (u8, u8, u8), (u8, u8, u8));

impl View for ZoneColor {
    type V = ColorView;

    open spec fn view(&self) -> ColorView {
        (self.name@, self.bg_color, self.fg_color)
    }
}

impl ZoneColor {
    /// A copy of this colouring.
    pub fn duplicate(&self) -> (r: ZoneColor)
        ensures
            r@ == self@,
    {
        ZoneColor { name: self.name.clone(), bg_color: self.bg_color, fg_color: self.fg_color }
    }
}

impl Clone for ZoneColor {
    fn clone(&self) -> (r: ZoneColor) {
        self.duplicate()
    }
}

fn color(name: &str, bg_color: (u8, u8, u8), fg_color: (u8, u8, u8)) -> (r: ZoneColor)
    ensures
        r@ == (name@, bg_color, fg_color),
{
    ZoneColor { name: name.to_owned(), bg_color, fg_color }
}

pub const WHITE: (u8, u8, u8) = (0xff, 0xff, 0xff);

/// A colouring of the stick plane by region.
pub trait Plane {
    /// The region that `point` lies in.
    spec fn region(&self, point: (i8, i8)) -> ColorView;

    /// The colouring's name.
    spec fn title(&self) -> Seq<char>;

    fn get_zone(&self, point: (i8, i8)) -> (r: ZoneColor)
        ensures
            r@ == self.region(point),
    ;

    fn get_name(&self) -> (r: String)
        ensures
            r@ == self.title(),
    ;
}

/// The colouring of points that no listed zone holds.
pub open spec fn unzoned() -> ColorView {
    ("idk lol"@, (0x70u8, 0x70u8, 0x70u8), WHITE)
}

/// The colour of the first of `zones[from..]` that holds `point`.
pub open spec fn first_zone_color(zones: Seq<(Zone, ZoneColor)>, point: (i8, i8), from: int) -> ColorView
    decreases zones.len() - from,
{
    if from < 0 || from >= zones.len() {
        unzoned()
    } else if zones[from].0.covers(point) {
        zones[from].1@
    } else {
        first_zone_color(zones, point, from + 1)
    }
}

/// A colouring given by a list of zones; the first zone holding a point
/// decides its colour.
pub struct PlaneWithZones {
    pub zones: Vec<(Zone, ZoneColor)>,
}

impl PlaneWithZones {
    pub fn new() -> (r: Self)
        ensures
            r.zones@.len() == 0,
    {
        Self { zones: Vec::new() }
    }

    /// Adds a zone after those already listed.
    pub fn add_zone(&mut self, zone: Zone, color: ZoneColor)
        ensures
            final(self).zones@ == old(self).zones@.push((zone, color)),
    {
        self.zones.push((zone, color));
    }

    /// The dead zone and the four smash zones.
    pub fn default_plane() -> (r: Self)
        ensures
            r.zones@.len() == 5,
            r.zones@[0].0 == Zone::SquareZone(deadzone_spec()),
            r.zones@[1].0 == Zone::SquareZone(left_smash_spec()),
            r.zones@[2].0 == Zone::SquareZone(right_smash_spec()),
            r.zones@[3].0 == Zone::SquareZone(up_smash_spec()),
            r.zones@[4].0 == Zone::SquareZone(down_smash_spec()),
            r.zones@[0].1@ == ("deadzone"@, (0x40u8, 0x40u8, 0x40u8), (0xc0u8, 0xc0u8, 0xc0u8)),
            r.zones@[1].1@ == ("f smash"@, (0x40u8, 0x00u8, 0x40u8), (0x80u8, 0x00u8, 0xffu8)),
            r.zones@[2].1@ == ("f smash"@, (0x40u8, 0x00u8, 0x40u8), (0x80u8, 0x00u8, 0xffu8)),
            r.zones@[3].1@ == ("up smash"@, (0x40u8, 0x00u8, 0x40u8), (0x80u8, 0x00u8, 0xffu8)),
            r.zones@[4].1@ == ("d smash"@, (0x40u8, 0x00u8, 0x40u8), (0x80u8, 0x00u8, 0xffu8)),
    {
        let mut plane = PlaneWithZones::new();
        plane.add_zone(Zone::SquareZone(deadzone()), color("deadzone", (0x40, 0x40, 0x40), (0xc0, 0xc0, 0xc0)));
        plane.add_zone(Zone::SquareZone(left_smash()), color("f smash", (0x40, 0x00, 0x40), (0x80, 0x00, 0xff)));
        plane.add_zone(Zone::SquareZone(right_smash()), color("f smash", (0x40, 0x00, 0x40), (0x80, 0x00, 0xff)));
        plane.add_zone(Zone::SquareZone(up_smash()), color("up smash", (0x40, 0x00, 0x40), (0x80, 0x00, 0xff)));
        plane.add_zone(Zone::SquareZone(down_smash()), color("d smash", (0x40, 0x00, 0x40), (0x80, 0x00, 0xff)));
        plane
    }
}

impl Plane for PlaneWithZones {
    open spec fn region(&self, point: (i8, i8)) -> ColorView {
        first_zone_color(self.zones@, point, 0)
    }

    open spec fn title(&self) -> Seq<char> {
        "zones"@
    }

    fn get_zone(&self, point: (i8, i8)) -> (r: ZoneColor) {
        let mut i: usize = 0;
        while i < self.zones.len()
            invariant
                i <= self.zones@.len(),
                first_zone_color(self.zones@, point, 0) == first_zone_color(self.zones@, point, i as int),
            decreases self.zones@.len() - i,
        {
            if self.zones[i].0.in_zone(point) {
                return self.zones[i].1.duplicate();
            }
            i = i + 1;
        }
        color("idk lol", (0x70, 0x70, 0x70), WHITE)
    }

    fn get_name(&self) -> (r: String) {
        "zones".to_owned()
    }
}

pub open spec fn abs(v: int) -> int {
    if v < 0 {
        -v
    } else {
        v
    }
}

fn abs_i8(v: i8) -> (r: i16)
    ensures
        r == abs(v as int),
{
    if v < 0 {
        -(v as i16)
    } else {
        v as i16
    }
}

/// Whether `point` lies outside the circle of radius 80 that clamping keeps.
pub open spec fn outside_circle(point: (i8, i8)) -> bool {
    point.0 * point.0 + point.1 * point.1 > crate::controller::CLAMP_RADIUS_SQUARED
}

/// Whether clamping moves `point`: exactly when it lies outside the circle.
fn moved_by_clamp(point: (i8, i8)) -> (r: bool)
    ensures
        r == outside_circle(point),
{
    let c = crate::controller::clamp(point.0, point.1);
    let r = c.0 != point.0 || c.1 != point.1;
    proof {
        let n = point.0 * point.0 + point.1 * point.1;
        if outside_circle(point) && !r {
            assert(point.0 * point.0 * n <= 6400 * point.0 * point.0);
            assert(point.0 * point.0 == 0) by (nonlinear_arith)
                requires point.0 * point.0 * n <= 6400 * point.0 * point.0, n > 6400;
            assert(point.1 * point.1 == 0) by (nonlinear_arith)
                requires point.1 * point.1 * n <= 6400 * point.1 * point.1, n > 6400;
        }
    }
    r
}

/// A colouring with only the dead zone marked.
pub struct Test1 {}

/// A colouring by the attack that a stick position selects.
pub struct Test2 {}

/// A colouring for the C stick: dead zone or live.
pub struct CStick {}

/// Whether both axes of `point` lie strictly within 23 of the centre.
pub open spec fn in_dead_square(point: (i8, i8)) -> bool {
    abs(point.0 as int) < 23 && abs(point.1 as int) < 23
}

impl Plane for Test1 {
    open spec fn region(&self, point: (i8, i8)) -> ColorView {
        if in_dead_square(point) {
            ("deadzone"@, (0x40u8, 0x40u8, 0x40u8), (0xc0u8, 0xc0u8, 0xc0u8))
        } else {
            ("live"@, (0x70u8, 0x70u8, 0x70u8), WHITE)
        }
    }

    open spec fn title(&self) -> Seq<char> {
        "test1"@
    }

    fn get_zone(&self, point: (i8, i8)) -> (r: ZoneColor) {
        if abs_i8(point.0) < 23 && abs_i8(point.1) < 23 {
            return color("deadzone", (0x40, 0x40, 0x40), (0xc0, 0xc0, 0xc0));
        }
        color("live", (0x70, 0x70, 0x70), WHITE)
    }

    fn get_name(&self) -> (r: String) {
        "test1".to_owned()
    }
}

impl Plane for Test2 {
    open spec fn region(&self, point: (i8, i8)) -> ColorView {
        let x = point.0 as int;
        let y = point.1 as int;
        if outside_circle(point) {
            ("out of bounds"@, (0x00u8, 0x00u8, 0x00u8), (0x30u8, 0x00u8, 0x00u8))
        } else if in_dead_square(point) {
            ("deadzone"@, (0x40u8, 0x40u8, 0x40u8), (0xc0u8, 0xc0u8, 0xc0u8))
        } else if abs(x) >= 64 {
            ("f smash"@, (0x40u8, 0x00u8, 0x40u8), (0x80u8, 0x00u8, 0xffu8))
        } else if y >= 53 {
            ("up smash"@, (0x40u8, 0x00u8, 0x40u8), (0x80u8, 0x00u8, 0xffu8))
        } else if y <= -53 {
            ("d smash"@, (0x40u8, 0x00u8, 0x40u8), (0x80u8, 0x00u8, 0xffu8))
        } else if abs(y) < 23 {
            ("f tilt"@, (0x00u8, 0x00u8, 0x60u8), (0x00u8, 0x00u8, 0xffu8))
        } else if abs(x) < 23 && y > 0 {
            ("up tilt"@, (0x00u8, 0x60u8, 0x00u8), (0x00u8, 0xffu8, 0x00u8))
        } else if abs(x) < 23 && y < 0 {
            ("d tilt"@, (0x60u8, 0x00u8, 0x00u8), (0xffu8, 0x00u8, 0x00u8))
        } else {
            unzoned()
        }
    }

    open spec fn title(&self) -> Seq<char> {
        "test2"@
    }

    fn get_zone(&self, point: (i8, i8)) -> (r: ZoneColor) {
        if moved_by_clamp(point) {
            return color("out of bounds", (0x00, 0x00, 0x00), (0x30, 0x00, 0x00));
        }
        let ax = abs_i8(point.0);
        let ay = abs_i8(point.1);
        if ax < 23 && ay < 23 {
            return color("deadzone", (0x40, 0x40, 0x40), (0xc0, 0xc0, 0xc0));
        }
        if ax >= 64 {
            return color("f smash", (0x40, 0x00, 0x40), (0x80, 0x00, 0xff));
        }
        if point.1 >= 53 {
            return color("up smash", (0x40, 0x00, 0x40), (0x80, 0x00, 0xff));
        }
        if point.1 <= -53 {
            return color("d smash", (0x40, 0x00, 0x40), (0x80, 0x00, 0xff));
        }
        if ay < 23 {
            return color("f tilt", (0x00, 0x00, 0x60), (0x00, 0x00, 0xff));
        }
        if ax < 23 && point.1 > 0 {
            return color("up tilt", (0x00, 0x60, 0x00), (0x00, 0xff, 0x00));
        }
        if ax < 23 && point.1 < 0 {
            return color("d tilt", (0x60, 0x00, 0x00), (0xff, 0x00, 0x00));
        }
        color("idk lol", (0x70, 0x70, 0x70), WHITE)
    }

    fn get_name(&self) -> (r: String) {
        "test2".to_owned()
    }
}

impl Plane for CStick {
    open spec fn region(&self, point: (i8, i8)) -> ColorView {
        if outside_circle(point) {
            ("out of bounds"@, (0x00u8, 0x00u8, 0x00u8), (0x50u8, 0x00u8, 0x00u8))
        } else if in_dead_square(point) {
            ("deadzone"@, (0x30u8, 0x30u8, 0x00u8), (0x70u8, 0x70u8, 0x00u8))
        } else {
            ("yellow"@, (0x80u8, 0x80u8, 0x00u8), (0xffu8, 0xffu8, 0x00u8))
        }
    }

    open spec fn title(&self) -> Seq<char> {
        "c stick"@
    }

    fn get_zone(&self, point: (i8, i8)) -> (r: ZoneColor) {
        if moved_by_clamp(point) {
            return color("out of bounds", (0x00, 0x00, 0x00), (0x50, 0x00, 0x00));
        }
        if abs_i8(point.0) < 23 && abs_i8(point.1) < 23 {
            return color("deadzone", (0x30, 0x30, 0x00), (0x70, 0x70, 0x00));
        }
        color("yellow", (0x80, 0x80, 0x00), (0xff, 0xff, 0x00))
    }

    fn get_name(&self) -> (r: String) {
        "c stick".to_owned()
    }
}

/// The enter and leave actions for the zones of `zones` whose membership of
/// `pos` changed, in the order of `zones`; records the new memberships.
pub open spec fn zone_changes(zones: Seq<(Zone, bool)>, pos: (i8, i8), k: int) -> Seq<crate::input_sequence::ControllerAction>
    decreases k,
{
    if k <= 0 {
        seq![]
    } else {
        let (zone, was_in) = zones[k - 1];
        let now_in = zone.covers(pos);
        let before = zone_changes(zones, pos, k - 1);
        if now_in && !was_in {
            before.push(crate::input_sequence::ControllerAction::Enter(zone))
        } else if !now_in && was_in {
            before.push(crate::input_sequence::ControllerAction::Leave(zone))
        } else {
            before
        }
    }
}

/// Compares the stick position `pos` with the last known membership of each
/// zone: returns an `Enter` or `Leave` action for each zone whose membership
/// changed, and records the new memberships.
pub fn track_zones(zones: &mut Vec<(Zone, bool)>, pos: (i8, i8)) -> (r: Vec<crate::input_sequence::ControllerAction>)
    ensures
        r@ == zone_changes(old(zones)@, pos, old(zones)@.len() as int),
        final(zones)@.len() == old(zones)@.len(),
        forall|i: int|
            0 <= i < old(zones)@.len() ==> #[trigger] final(zones)@[i] == (
                old(zones)@[i].0,
                old(zones)@[i].0.covers(pos),
            ),
{
    let ghost start = zones@;
    let mut actions: Vec<crate::input_sequence::ControllerAction> = Vec::new();
    let n = zones.len();
    let mut i: usize = 0;
    while i < n
        invariant
            n == zones@.len() == start.len(),
            start == old(zones)@,
            i <= n,
            actions@ == zone_changes(start, pos, i as int),
            forall|j: int| 0 <= j < i ==> #[trigger] zones@[j] == (start[j].0, start[j].0.covers(pos)),
            forall|j: int| i <= j < n ==> #[trigger] zones@[j] == start[j],
        decreases n - i,
    {
        let (zone, was_in) = zones[i];
        let now_in = zone.in_zone(pos);
        if now_in && !was_in {
            actions.push(crate::input_sequence::ControllerAction::Enter(zone));
        } else if !now_in && was_in {
            actions.push(crate::input_sequence::ControllerAction::Leave(zone));
        }
        zones.set(i, (zone, now_in));
        i = i + 1;
    }
    actions
}

} // verus!
