//! The galaxy map: how the display waits for the two maps the server
//! sends, when the map opens or closes, what each destination is drawn as,
//! and the texts shown over it.

use vstd::prelude::*;
use crate::text::{push_signed_decimal, push_str, signed_decimal};

verus! {

/// A sector's coordinates in the universe.
#[derive(Debug, Clone, Copy, PartialEq, Eq, Structural)]
pub struct Sector {
    /// The x coordinate.
    pub x: i64,
    /// The y coordinate.
    pub y: i64,
    /// The z coordinate.
    pub z: i64,
}

/// Whether adding two sectors stays within the coordinates' range.
pub open spec fn sector_add_fits(a: Sector, b: Sector) -> bool {
    &&& i64::MIN <= a.x + b.x <= i64::MAX
    &&& i64::MIN <= a.y + b.y <= i64::MAX
    &&& i64::MIN <= a.z + b.z <= i64::MAX
}

/// The sum of two sectors, coordinate by coordinate.
pub open spec fn sector_sum(a: Sector, b: Sector) -> Sector {
    Sector { x: (a.x + b.x) as i64, y: (a.y + b.y) as i64, z: (a.z + b.z) as i64 }
}

impl Sector {
    /// The sector at the origin.
    pub fn zero() -> (s: Sector)
        ensures
            s == (Sector { x: 0, y: 0, z: 0 }),
    {
        Sector { x: 0, y: 0, z: 0 }
    }

    /// The sum of two sectors, coordinate by coordinate.
    pub fn add(self, other: Sector) -> (s: Sector)
        requires
            sector_add_fits(self, other),
        ensures
            s == sector_sum(self, other),
    {
        Sector { x: self.x + other.x, y: self.y + other.y, z: self.z + other.z }
    }
}

// ---------------------------------------------------------------------------
// Waiting for the maps
// ---------------------------------------------------------------------------

/// What the map display has received so far of the galaxy map `G` and the
/// map of the player's system `S`.
#[derive(Debug)]
pub enum GalaxyMapDisplay<G, S> {
    /// Nothing yet.
    Loading,
    /// The system map came; the galaxy map is awaited.
    WaitingGalaxy(S),
    /// The galaxy map came; the system map is awaited.
    WaitingSystem(G),
    /// Both came: the map can be drawn.
    Ready {
        /// The galaxy map.
        galaxy_map: G,
        /// The system map.
        system_map: S,
    },
}

impl<G, S> GalaxyMapDisplay<G, S> {
    /// The display after a galaxy map arrives.
    pub open spec fn spec_with_galaxy(self, g: G) -> Self {
        match self {
            GalaxyMapDisplay::WaitingGalaxy(s) => GalaxyMapDisplay::Ready { galaxy_map: g, system_map: s },
            GalaxyMapDisplay::Ready { galaxy_map: _, system_map } => GalaxyMapDisplay::Ready { galaxy_map: g, system_map },
            _ => GalaxyMapDisplay::WaitingSystem(g),
        }
    }

    /// The display after a system map arrives.
    pub open spec fn spec_with_system(self, s: S) -> Self {
        match self {
            GalaxyMapDisplay::WaitingSystem(g) => GalaxyMapDisplay::Ready { galaxy_map: g, system_map: s },
            GalaxyMapDisplay::Ready { galaxy_map, system_map: _ } => GalaxyMapDisplay::Ready { galaxy_map, system_map: s },
            _ => GalaxyMapDisplay::WaitingGalaxy(s),
        }
    }

    /// Takes in a galaxy map sent by the server.
    pub fn with_galaxy_map(self, g: G) -> (r: Self)
        ensures
            r == self.spec_with_galaxy(g),
    {
        match self {
            GalaxyMapDisplay::WaitingGalaxy(s) => GalaxyMapDisplay::Ready { galaxy_map: g, system_map: s },
            GalaxyMapDisplay::Ready { galaxy_map: _, system_map } => GalaxyMapDisplay::Ready { galaxy_map: g, system_map },
            _ => GalaxyMapDisplay::WaitingSystem(g),
        }
    }

    /// Takes in a system map sent by the server.
    pub fn with_system_map(self, s: S) -> (r: Self)
        ensures
            r == self.spec_with_system(s),
    {
        match self {
            GalaxyMapDisplay::WaitingSystem(g) => GalaxyMapDisplay::Ready { galaxy_map: g, system_map: s },
            GalaxyMapDisplay::Ready { galaxy_map, system_map: _ } => GalaxyMapDisplay::Ready { galaxy_map, system_map: s },
            _ => GalaxyMapDisplay::WaitingGalaxy(s),
        }
    }

    /// Whether both maps came and the map can be drawn.
    pub fn is_ready(&self) -> (r: bool)
        ensures
            r == (*self is Ready),
    {
        match self {
            GalaxyMapDisplay::Ready { .. } => true,
            _ => false,
        }
    }
}

/// Whatever the display held, once a galaxy map and a system map arrive,
/// in either order, it shows exactly those two.
pub proof fn law_maps_arrive_in_any_order<G, S>(d: GalaxyMapDisplay<G, S>, g: G, s: S)
    ensures
        d.spec_with_galaxy(g).spec_with_system(s) == (GalaxyMapDisplay::Ready { galaxy_map: g, system_map: s }),
        d.spec_with_system(s).spec_with_galaxy(g) == (GalaxyMapDisplay::Ready { galaxy_map: g, system_map: s }),
{
}

/// A map that arrives replaces the one of its kind that came before.
pub proof fn law_latest_map_wins<G, S>(d: GalaxyMapDisplay<G, S>, g1: G, g2: G, s1: S, s2: S)
    ensures
        d.spec_with_galaxy(g1).spec_with_galaxy(g2) == d.spec_with_galaxy(g2),
        d.spec_with_system(s1).spec_with_system(s2) == d.spec_with_system(s2),
{
}

// ---------------------------------------------------------------------------
// Opening and closing
// ---------------------------------------------------------------------------

/// What pressing the map key does.
#[derive(Debug, Clone, Copy, PartialEq, Eq, Structural)]
pub enum MapToggle {
    /// Nothing.
    Ignore,
    /// The open map closes.
    Close,
    /// The map opens, centred on the player's system, and both maps are
    /// requested from the server.
    Open,
}

/// What the map key does this frame.
pub open spec fn spec_map_toggle(
    pressed: bool,
    has_map_camera: bool,
    map_open: bool,
    other_menu_open: bool,
    has_player: bool,
) -> MapToggle {
    if !pressed || !has_map_camera {
        MapToggle::Ignore
    } else if map_open {
        MapToggle::Close
    } else if other_menu_open || !has_player {
        MapToggle::Ignore
    } else {
        MapToggle::Open
    }
}

/// What the map key does this frame: nothing unless it was just pressed and
/// the map camera exists; an open map closes; otherwise the map opens,
/// unless another menu is open or there is no local player.
pub fn map_toggle(
    pressed: bool,
    has_map_camera: bool,
    map_open: bool,
    other_menu_open: bool,
    has_player: bool,
) -> (t: MapToggle)
    ensures
        t == spec_map_toggle(pressed, has_map_camera, map_open, other_menu_open, has_player),
{
    if !pressed || !has_map_camera {
        MapToggle::Ignore
    } else if map_open {
        MapToggle::Close
    } else if other_menu_open || !has_player {
        MapToggle::Ignore
    } else {
        MapToggle::Open
    }
}

/// What the waypoint key does on an open map.
#[derive(Debug, Clone, Copy, PartialEq, Eq, Structural)]
pub enum WaypointToggle {
    /// Nothing.
    Ignore,
    /// The waypoint there is removed.
    Remove,
    /// A waypoint is placed at the sector the map camera looks at.
    Place(Sector),
}

/// What the waypoint key does: on an open map, it removes the waypoint if
/// there is one, and otherwise places one at the camera's sector.
pub fn waypoint_toggle(map_open: bool, pressed: bool, has_waypoint: bool, camera_sector: Option<Sector>) -> (t: WaypointToggle)
    ensures
        !map_open || !pressed ==> t == WaypointToggle::Ignore,
        map_open && pressed && has_waypoint ==> t == WaypointToggle::Remove,
        map_open && pressed && !has_waypoint ==> t == (match camera_sector {
            Some(s) => WaypointToggle::Place(s),
            None => WaypointToggle::Ignore,
        }),
{
    if !map_open || !pressed {
        WaypointToggle::Ignore
    } else if has_waypoint {
        WaypointToggle::Remove
    } else {
        match camera_sector {
            Some(s) => WaypointToggle::Place(s),
            None => WaypointToggle::Ignore,
        }
    }
}

// ---------------------------------------------------------------------------
// What is drawn
// ---------------------------------------------------------------------------

/// The kind of a destination shown on the map, with what decides how a
/// station is drawn.
#[derive(Debug, Clone, Copy, PartialEq, Eq, Structural)]
pub enum DestinationKind {
    /// A star.
    Star,
    /// A planet.
    Planet,
    /// A player.
    Player,
    /// An asteroid.
    Asteroid,
    /// Something not yet identified.
    Unknown,
    /// A ship.
    Ship,
    /// A station.
    Station {
        /// How many shops it has.
        shop_count: u32,
        /// Whether its faction is an enemy of the player's.
        enemy: bool,
    },
}

/// How a destination is coloured.
#[derive(Debug, Clone, Copy, PartialEq, Eq, Structural)]
pub enum MarkerColor {
    /// The star's own colour.
    StarColor,
    /// The colour of the planet's biosphere (hot pink when it has none).
    BiosphereColor,
    /// Green.
    Green,
    /// Grey.
    Grey,
    /// White.
    White,
    /// Orange.
    Orange,
    /// Purple: a station that trades with the player.
    Purple,
    /// Blue: a station without shops that is no enemy.
    Blue,
    /// Red: an enemy station.
    Red,
}

/// The shape a destination is drawn with.
#[derive(Debug, Clone, Copy, PartialEq, Eq, Structural)]
pub enum MarkerShape {
    /// A large sphere (stars).
    LargeSphere,
    /// A half-sector cube (planets).
    LargeCube,
    /// A capsule (players).
    Capsule,
    /// A quarter-sector cube (asteroids and ships).
    SmallCube,
    /// A small sphere (unknown things).
    SmallSphere,
    /// A cube a little larger than a ship's (stations).
    MediumCube,
}

/// How a destination is coloured: a station is purple when it has shops
/// and is no enemy, blue when it is no enemy, and red otherwise.
pub open spec fn spec_marker_color(k: DestinationKind) -> MarkerColor {
    match k {
        DestinationKind::Star => MarkerColor::StarColor,
        DestinationKind::Planet => MarkerColor::BiosphereColor,
        DestinationKind::Player => MarkerColor::Green,
        DestinationKind::Asteroid => MarkerColor::Grey,
        DestinationKind::Unknown => MarkerColor::White,
        DestinationKind::Ship => MarkerColor::Orange,
        DestinationKind::Station { shop_count, enemy } => if shop_count > 0 && !enemy {
            MarkerColor::Purple
        } else if !enemy {
            MarkerColor::Blue
        } else {
            MarkerColor::Red
        },
    }
}

/// How a destination is coloured.
pub fn marker_color(k: DestinationKind) -> (c: MarkerColor)
    ensures
        c == spec_marker_color(k),
{
    match k {
        DestinationKind::Star => MarkerColor::StarColor,
        DestinationKind::Planet => MarkerColor::BiosphereColor,
        DestinationKind::Player => MarkerColor::Green,
        DestinationKind::Asteroid => MarkerColor::Grey,
        DestinationKind::Unknown => MarkerColor::White,
        DestinationKind::Ship => MarkerColor::Orange,
        DestinationKind::Station { shop_count, enemy } => {
            if shop_count > 0 && !enemy {
                MarkerColor::Purple
            } else if !enemy {
                MarkerColor::Blue
            } else {
                MarkerColor::Red
            }
        },
    }
}

/// The shape a destination is drawn with.
pub fn marker_shape(k: DestinationKind) -> (s: MarkerShape)
    ensures
        s == (match k {
            DestinationKind::Star => MarkerShape::LargeSphere,
            DestinationKind::Planet => MarkerShape::LargeCube,
            DestinationKind::Player => MarkerShape::Capsule,
            DestinationKind::Asteroid => MarkerShape::SmallCube,
            DestinationKind::Unknown => MarkerShape::SmallSphere,
            DestinationKind::Ship => MarkerShape::SmallCube,
            DestinationKind::Station { .. } => MarkerShape::MediumCube,
        }),
{
    match k {
        DestinationKind::Star => MarkerShape::LargeSphere,
        DestinationKind::Planet => MarkerShape::LargeCube,
        DestinationKind::Player => MarkerShape::Capsule,
        DestinationKind::Asteroid => MarkerShape::SmallCube,
        DestinationKind::Unknown => MarkerShape::SmallSphere,
        DestinationKind::Ship => MarkerShape::SmallCube,
        DestinationKind::Station { .. } => MarkerShape::MediumCube,
    }
}

/// Enemy stations are always red, whatever they sell.
pub proof fn law_enemy_stations_are_red(shop_count: u32)
    ensures
        spec_marker_color(DestinationKind::Station { shop_count, enemy: true }) == MarkerColor::Red,
{
}

/// One destination drawn on the map.
#[derive(Debug, Clone, Copy, PartialEq, Eq, Structural)]
pub struct MapMarker {
    /// The sector, in galaxy coordinates, where it is drawn.
    pub sector: Sector,
    /// Whether it comes from the galaxy map (else from the system map).
    pub from_galaxy: bool,
    /// Its index among the destinations of the map it comes from.
    pub index: usize,
    /// Whether it grows as the camera zooms out (stars).
    pub scale_with_zoom: bool,
}

/// The markers for a system map's destinations, whose sectors count from
/// `origin`: all but the stars, which the galaxy map already shows.
pub open spec fn system_markers(dests: Seq<(Sector, DestinationKind)>, origin: Sector) -> Seq<MapMarker>
    decreases dests.len(),
{
    if dests.len() == 0 {
        Seq::empty()
    } else {
        let rest = system_markers(dests.drop_last(), origin);
        let (sector, kind) = dests.last();
        if kind is Star {
            rest
        } else {
            rest.push(
                MapMarker {
                    sector: sector_sum(sector, origin),
                    from_galaxy: false,
                    index: (dests.len() - 1) as usize,
                    scale_with_zoom: false,
                },
            )
        }
    }
}

/// The marker a system map's destination `i` gets when it is drawn.
pub open spec fn system_marker(dests: Seq<(Sector, DestinationKind)>, origin: Sector, i: int) -> MapMarker {
    MapMarker { sector: sector_sum(dests[i].0, origin), from_galaxy: false, index: i as usize, scale_with_zoom: false }
}

/// Every marker of a system map is that of a destination that is no star,
/// moved by `origin`, and the markers come in the order of their
/// destinations, so that no destination is drawn twice; there are as many
/// as there are destinations that are no star.
pub proof fn law_system_markers_are_non_stars(dests: Seq<(Sector, DestinationKind)>, origin: Sector)
    requires
        dests.len() <= usize::MAX,
    ensures
        system_markers(dests, origin).len() == dests.filter(|d: (Sector, DestinationKind)| !(d.1 is Star)).len(),
        forall|k: int| 0 <= k < system_markers(dests, origin).len() ==> {
            let m = #[trigger] system_markers(dests, origin)[k];
            &&& m.index < dests.len()
            &&& !(dests[m.index as int].1 is Star)
            &&& m == system_marker(dests, origin, m.index as int)
        },
        forall|k1: int, k2: int| 0 <= k1 < k2 < system_markers(dests, origin).len() ==> #[trigger] system_markers(
            dests,
            origin,
        )[k1].index < #[trigger] system_markers(dests, origin)[k2].index,
    decreases dests.len(),
{
    reveal_with_fuel(Seq::filter, 1);
    if dests.len() > 0 {
        let d = dests.drop_last();
        law_system_markers_are_non_stars(d, origin);
        let rest = system_markers(d, origin);
        assert forall|k: int| 0 <= k < rest.len() implies (#[trigger] rest[k]).index < d.len() && system_marker(
            d,
            origin,
            rest[k].index as int,
        ) == system_marker(dests, origin, rest[k].index as int) by {
            assert(d[rest[k].index as int] == dests[rest[k].index as int]);
        }
        if !(dests.last().1 is Star) {
            let all = system_markers(dests, origin);
            assert(all == rest.push(system_marker(dests, origin, dests.len() - 1)));
        }
    }
}

/// Every destination of a system map that is no star is drawn, with its
/// sector moved by `origin`; a star is not drawn from the system map.
pub proof fn law_non_stars_are_drawn(dests: Seq<(Sector, DestinationKind)>, origin: Sector, i: int)
    requires
        dests.len() <= usize::MAX,
        0 <= i < dests.len(),
    ensures
        !(dests[i].1 is Star) ==> system_markers(dests, origin).contains(system_marker(dests, origin, i)),
        dests[i].1 is Star ==> forall|k: int| 0 <= k < system_markers(dests, origin).len() ==> (
        #[trigger] system_markers(dests, origin)[k]).index != i,
    decreases dests.len(),
{
    law_system_markers_are_non_stars(dests, origin);
    let d = dests.drop_last();
    let rest = system_markers(d, origin);
    if i < dests.len() - 1 {
        law_non_stars_are_drawn(d, origin, i);
        assert(d[i] == dests[i]);
        if !(dests[i].1 is Star) {
            let k = choose|k: int| 0 <= k < rest.len() && #[trigger] rest[k] == system_marker(d, origin, i);
            assert(system_marker(d, origin, i) == system_marker(dests, origin, i));
            if !(dests.last().1 is Star) {
                assert(system_markers(dests, origin)[k] == rest[k]);
            }
        }
    } else if !(dests[i].1 is Star) {
        let all = system_markers(dests, origin);
        assert(all[all.len() - 1] == system_marker(dests, origin, i));
    }
}

/// The marker for a galaxy map's destination.
pub open spec fn galaxy_marker(dests: Seq<(Sector, DestinationKind)>, i: int) -> MapMarker {
    MapMarker { sector: dests[i].0, from_galaxy: true, index: i as usize, scale_with_zoom: dests[i].1 is Star }
}

/// The markers for a galaxy map's destinations: all of them, in order.
pub open spec fn galaxy_markers(dests: Seq<(Sector, DestinationKind)>) -> Seq<MapMarker> {
    Seq::new(dests.len(), |i: int| galaxy_marker(dests, i))
}

/// Whether every destination of a system map but the stars can be moved by
/// `origin` without leaving the coordinates' range.
pub open spec fn system_fits(dests: Seq<(Sector, DestinationKind)>, origin: Sector) -> bool {
    forall|i: int| 0 <= i < dests.len() && !(#[trigger] dests[i].1 is Star) ==> sector_add_fits(dests[i].0, origin)
}

/// The markers drawn for a system map whose sectors count from `origin`,
/// followed by those of the galaxy map.
pub fn map_markers(
    system: &Vec<(Sector, DestinationKind)>,
    origin: Sector,
    galaxy: &Vec<(Sector, DestinationKind)>,
) -> (m: Vec<MapMarker>)
    requires
        system_fits(system@, origin),
    ensures
        m@ == system_markers(system@, origin) + galaxy_markers(galaxy@),
{
    let mut m: Vec<MapMarker> = Vec::new();
    let mut i: usize = 0;
    while i < system.len()
        invariant
            i <= system.len(),
            system_fits(system@, origin),
            m@ == system_markers(system@.subrange(0, i as int), origin),
        decreases system.len() - i,
    {
        assert(system@.subrange(0, i as int + 1).drop_last() =~= system@.subrange(0, i as int));
        let (sector, kind) = system[i];
        match kind {
            DestinationKind::Star => {},
            _ => {
                assert(!(system@[i as int].1 is Star));
                m.push(MapMarker { sector: sector.add(origin), from_galaxy: false, index: i, scale_with_zoom: false });
            },
        }
        i = i + 1;
    }
    assert(system@.subrange(0, system.len() as int) =~= system@);
    let ghost sys = m@;
    let mut j: usize = 0;
    while j < galaxy.len()
        invariant
            j <= galaxy.len(),
            m@ == sys + galaxy_markers(galaxy@).subrange(0, j as int),
        decreases galaxy.len() - j,
    {
        let (sector, kind) = galaxy[j];
        let star = match kind {
            DestinationKind::Star => true,
            _ => false,
        };
        m.push(MapMarker { sector, from_galaxy: true, index: j, scale_with_zoom: star });
        j = j + 1;
        assert(m@ =~= sys + galaxy_markers(galaxy@).subrange(0, j as int));
    }
    assert(galaxy_markers(galaxy@).subrange(0, galaxy.len() as int) =~= galaxy_markers(galaxy@));
    m
}

// ---------------------------------------------------------------------------
// Texts
// ---------------------------------------------------------------------------

/// A sector written as `x, y, z`.
pub open spec fn spec_sector_text(s: Sector) -> Seq<char> {
    signed_decimal(s.x as int) + seq![',', ' '] + signed_decimal(s.y as int) + seq![',', ' '] + signed_decimal(s.z as int)
}

/// Appends a sector written as `x, y, z`.
pub fn push_sector(out: &mut String, s: Sector)
    ensures
        final(out)@ == old(out)@ + spec_sector_text(s),
{
    let ghost start = out@;
    push_signed_decimal(out, s.x);
    push_str(out, ", ");
    push_signed_decimal(out, s.y);
    push_str(out, ", ");
    push_signed_decimal(out, s.z);
    proof {
        reveal_strlit(", ");
        assert(out@ =~= start + spec_sector_text(s));
    }
}

/// The text naming a sector, `x, y, z`, shown over the sector the camera
/// looks at and over the waypoint.
pub fn sector_text(s: Sector) -> (t: String)
    ensures
        t@ == spec_sector_text(s),
{
    let mut t = String::new();
    push_sector(&mut t, s);
    proof {
        assert(t@ =~= spec_sector_text(s));
    }
    t
}

/// The name of a control, or `[None]` when nothing is bound to it.
pub open spec fn control_name(control: Option<Seq<char>>) -> Seq<char> {
    match control {
        Some(c) => c,
        None => seq!['[', 'N', 'o', 'n', 'e', ']'],
    }
}

/// Appends the name of a control, or `[None]`.
pub fn push_control(out: &mut String, control: &Option<String>)
    ensures
        final(out)@ == old(out)@ + control_name(match control {
            Some(c) => Some(c@),
            None => None,
        }),
{
    match control {
        Some(c) => push_str(out, c.as_str()),
        None => {
            push_str(out, "[None]");
            proof {
                reveal_strlit("[None]");
                assert("[None]"@ =~= seq!['[', 'N', 'o', 'n', 'e', ']']);
            }
        },
    }
}

/// The view of an optional owned string.
pub open spec fn opt_view(o: Option<String>) -> Option<Seq<char>> {
    match o {
        Some(c) => Some(c@),
        None => None,
    }
}

/// The waypoint line: `Waypoint: ` and the waypoint's sector, or
/// `<… to set>` with the control that sets one.
pub open spec fn spec_waypoint_text(waypoint: Option<Sector>, set_control: Option<Seq<char>>) -> Seq<char> {
    seq!['W', 'a', 'y', 'p', 'o', 'i', 'n', 't', ':', ' '] + match waypoint {
        Some(s) => spec_sector_text(s),
        None => seq!['<'] + control_name(set_control) + seq![' ', 't', 'o', ' ', 's', 'e', 't', '>'],
    }
}

/// The waypoint line shown on the map.
pub fn waypoint_text(waypoint: Option<Sector>, set_control: &Option<String>) -> (t: String)
    ensures
        t@ == spec_waypoint_text(waypoint, opt_view(*set_control)),
{
    let mut t = String::new();
    push_str(&mut t, "Waypoint: ");
    proof {
        reveal_strlit("Waypoint: ");
    }
    match waypoint {
        Some(s) => push_sector(&mut t, s),
        None => {
            push_str(&mut t, "<");
            push_control(&mut t, set_control);
            push_str(&mut t, " to set>");
            proof {
                reveal_strlit("<");
                reveal_strlit(" to set>");
            }
        },
    }
    proof {
        assert(t@ =~= spec_waypoint_text(waypoint, opt_view(*set_control)));
    }
    t
}

/// The line telling which six controls move the camera, then ` to Move`.
pub fn movement_controls_text(controls: &Vec<Option<String>>) -> (t: String)
    requires
        controls.len() == 6,
    ensures
        t@ == control_name(opt_view(controls[0])) + control_name(opt_view(controls[1])) + control_name(
            opt_view(controls[2]),
        ) + control_name(opt_view(controls[3])) + control_name(opt_view(controls[4])) + control_name(
            opt_view(controls[5]),
        ) + seq![' ', 't', 'o', ' ', 'M', 'o', 'v', 'e'],
{
    let mut t = String::new();
    push_control(&mut t, &controls[0]);
    push_control(&mut t, &controls[1]);
    push_control(&mut t, &controls[2]);
    push_control(&mut t, &controls[3]);
    push_control(&mut t, &controls[4]);
    push_control(&mut t, &controls[5]);
    push_str(&mut t, " to Move");
    proof {
        reveal_strlit(" to Move");
        assert(t@ =~= control_name(opt_view(controls[0])) + control_name(opt_view(controls[1]))
            + control_name(opt_view(controls[2])) + control_name(opt_view(controls[3]))
            + control_name(opt_view(controls[4])) + control_name(opt_view(controls[5]))
            + seq![' ', 't', 'o', ' ', 'M', 'o', 'v', 'e']);
    }
    t
}

/// A control's name followed by what it does: `{control} to Reset to Your
/// Sector` or `{control} to Set/Unset Waypoint`.
pub fn control_hint(control: &Option<String>, action: &str) -> (t: String)
    ensures
        t@ == control_name(opt_view(*control)) + action@,
{
    let mut t = String::new();
    push_control(&mut t, control);
    push_str(&mut t, action);
    proof {
        assert(t@ =~= control_name(opt_view(*control)) + action@);
    }
    t
}

} // verus!
