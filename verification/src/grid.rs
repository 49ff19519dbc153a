//! Map zones: each zone is a map cell group with its own 16x16 tactical grid,
//! ownership, resource pool, and zone type with fixed stat tables.

use vstd::prelude::*;

verus! {

/// Grid side length of a zone's tactical grid.
pub const GRID_SIDE: usize = 16;

/// Number of cells in a zone's tactical grid.
pub const GRID_CELLS: usize = 256;

/// Cap on zone-local energy, antibody and nutrient counters.
pub const ZONE_RESOURCE_CAP: u32 = 1000;

/// Cap on the zone-local stem-cell counter when produced at end of turn.
pub const ZONE_STEM_CAP: u32 = 100;

/// Fixed maximum number of zones a match may ever create.
pub const MAX_ZONES: u32 = 64;

#[derive(Clone, Copy, Debug, PartialEq, Eq, Structural)]
pub enum ZoneType {
    Circulatory,
    Tissue,
    Lymphatic,
    Barrier,
    Organ,
}

#[derive(Clone, Copy, Debug, PartialEq, Eq, Structural)]
pub enum ResourceType {
    Energy,
    Antibodies,
    StemCells,
    Nutrients,
}

/// What occupies one grid cell: at most one occupant per cell.
#[derive(Clone, Copy, Debug, PartialEq, Eq, Structural)]
pub enum CellContent {
    ImmuneCell { unit_id: u32, health: u16 },
    Pathogen { unit_id: u32, health: u16 },
    Resource { resource_type: ResourceType, amount: u16 },
    Obstacle,
}

/// One map zone. The grid holds `GRID_CELLS` cells in row-major order:
/// the cell at `(x, y)` sits at index `x * GRID_SIDE + y`. `connected_zones`
/// is topology metadata (N/E/S/W neighbour ids) that the expansion rules do
/// not consult: adjacency is computed from the `(x, y)` coordinates.
#[derive(Clone, Debug, PartialEq)]
pub struct Zone {
    pub zone_id: u32,
    pub zone_type: ZoneType,
    pub x: u8,
    pub y: u8,
    pub owner: Option<u64>,
    pub grid: Vec<Option<CellContent>>,
    pub energy: u32,
    pub antibodies: u32,
    pub stem_cells: u32,
    pub nutrients: u32,
    pub unit_count: u16,
    pub is_border_zone: bool,
    pub is_controlled: bool,
    pub connected_zones: Vec<Option<u32>>,
}

impl ZoneType {
    pub open spec fn spec_movement_cost(self) -> u8 {
        match self {
            ZoneType::Circulatory => 1,
            ZoneType::Tissue => 3,
            ZoneType::Lymphatic => 2,
            ZoneType::Barrier => 4,
            ZoneType::Organ => 2,
        }
    }

    pub fn get_movement_cost(&self) -> (r: u8)
        ensures
            r == self.spec_movement_cost(),
    {
        match self {
            ZoneType::Circulatory => 1,
            ZoneType::Tissue => 3,
            ZoneType::Lymphatic => 2,
            ZoneType::Barrier => 4,
            ZoneType::Organ => 2,
        }
    }

    /// Per-turn yield as `(energy, antibodies, stem_cells, nutrients)`.
    pub open spec fn spec_resource_generation(self) -> (u32, u32, u32, u32) {
        match self {
            ZoneType::Circulatory => (10u32, 5u32, 2u32, 8u32),
            ZoneType::Tissue => (5u32, 15u32, 1u32, 10u32),
            ZoneType::Lymphatic => (8u32, 20u32, 5u32, 5u32),
            ZoneType::Barrier => (3u32, 25u32, 1u32, 3u32),
            ZoneType::Organ => (15u32, 10u32, 3u32, 15u32),
        }
    }

    /// Per-turn resource yield, `(energy, antibodies, stem_cells, nutrients)`.
    pub fn get_resource_generation(&self) -> (r: (u32, u32, u32, u32))
        ensures
            r == self.spec_resource_generation(),
    {
        match self {
            ZoneType::Circulatory => (10, 5, 2, 8),
            ZoneType::Tissue => (5, 15, 1, 10),
            ZoneType::Lymphatic => (8, 20, 5, 5),
            ZoneType::Barrier => (3, 25, 1, 3),
            ZoneType::Organ => (15, 10, 3, 15),
        }
    }

    pub open spec fn spec_defense_bonus(self) -> u16 {
        match self {
            ZoneType::Circulatory => 0,
            ZoneType::Tissue => 2,
            ZoneType::Lymphatic => 3,
            ZoneType::Barrier => 5,
            ZoneType::Organ => 1,
        }
    }

    /// Flat damage reduction granted to anything attacked inside the zone.
    pub fn get_defense_bonus(&self) -> (r: u16)
        ensures
            r == self.spec_defense_bonus(),
    {
        match self {
            ZoneType::Circulatory => 0,
            ZoneType::Tissue => 2,
            ZoneType::Lymphatic => 3,
            ZoneType::Barrier => 5,
            ZoneType::Organ => 1,
        }
    }
}

/// Index of the cell at `(x, y)` inside the flat grid vector.
pub open spec fn spec_cell_index(x: int, y: int) -> int {
    x * 16 + y
}

impl Zone {
    /// Well-formedness: the grid and neighbour table have their fixed sizes,
    /// the zone id stays under the map capacity, and the local resource
    /// counters stay under their cap. Every constructor establishes it and
    /// every operation preserves it.
    pub open spec fn wf(self) -> bool {
        &&& self.grid@.len() == 256
        &&& self.connected_zones@.len() == 4
        &&& self.zone_id < 64
        &&& self.energy <= 1000
        &&& self.antibodies <= 1000
        &&& self.stem_cells <= 1000
        &&& self.nutrients <= 1000
    }

    pub open spec fn spec_cell(self, x: int, y: int) -> Option<CellContent> {
        self.grid@[spec_cell_index(x, y)]
    }

    /// The content of the cell at `(x, y)`.
    pub fn cell(&self, x: u8, y: u8) -> (r: Option<CellContent>)
        requires
            self.wf(),
            x < 16,
            y < 16,
        ensures
            r == self.spec_cell(x as int, y as int),
    {
        let i: usize = (x as usize) * 16 + (y as usize);
        self.grid[i]
    }

    /// Writes the cell at `(x, y)`; the single accessor through which every
    /// rule mutates the grid.
    pub fn set_cell(&mut self, x: u8, y: u8, content: Option<CellContent>)
        requires
            old(self).wf(),
            x < 16,
            y < 16,
        ensures
            final(self).grid@ == old(self).grid@.update(spec_cell_index(x as int, y as int), content),
            *final(self) == (Zone { grid: final(self).grid, ..*old(self) }),
            final(self).wf(),
    {
        let i: usize = (x as usize) * 16 + (y as usize);
        let slot = &mut self.grid[i];
        *slot = content;
    }

    /// What a dormant pre-allocated zone looks like: unowned tissue with an
    /// empty grid and the small initial resource pool.
    pub open spec fn spec_is_default_zone(r: Zone) -> bool {
        &&& r.zone_id == 0
        &&& r.zone_type == ZoneType::Tissue
        &&& r.x == 0 && r.y == 0
        &&& r.owner is None
        &&& r.grid@.len() == 256
        &&& (forall|i: int| 0 <= i < 256 ==> r.grid@[i] is None)
        &&& r.energy == 100
        &&& r.antibodies == 50
        &&& r.stem_cells == 10
        &&& r.nutrients == 75
        &&& r.unit_count == 0
        &&& !r.is_border_zone
        &&& !r.is_controlled
        &&& r.connected_zones@.len() == 4
        &&& (forall|i: int| 0 <= i < 4 ==> r.connected_zones@[i] is None)
    }

    /// A dormant pre-allocated zone: unowned infected-free tissue with the
    /// small initial resource pool.
    pub fn default_zone() -> (r: Zone)
        ensures
            r.wf(),
            Zone::spec_is_default_zone(r),
    {
        let mut grid: Vec<Option<CellContent>> = Vec::new();
        while grid.len() < 256
            invariant
                grid.len() <= 256,
                forall|i: int| 0 <= i < grid.len() ==> grid@[i] is None,
            decreases 256 - grid.len(),
        {
            grid.push(None);
        }
        let mut connected_zones: Vec<Option<u32>> = Vec::new();
        while connected_zones.len() < 4
            invariant
                connected_zones.len() <= 4,
                forall|i: int| 0 <= i < connected_zones.len() ==> connected_zones@[i] is None,
            decreases 4 - connected_zones.len(),
        {
            connected_zones.push(None);
        }
        Zone {
            zone_id: 0,
            zone_type: ZoneType::Tissue,
            x: 0,
            y: 0,
            owner: None,
            grid,
            energy: 100,
            antibodies: 50,
            stem_cells: 10,
            nutrients: 75,
            unit_count: 0,
            is_border_zone: false,
            is_controlled: false,
            connected_zones,
        }
    }
}

impl Default for Zone {
    fn default() -> (r: Zone)
        ensures
            r.wf(),
            Zone::spec_is_default_zone(r),
    {
        Zone::default_zone()
    }
}

} // verus!
