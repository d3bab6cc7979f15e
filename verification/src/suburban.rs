//! The catalogue of suburban buildings, and the selection of the building
//! that is about to be placed.

use crate::assets::{Assets, Gltf, GltfHandle, MaterialId, SceneHandle, StandardMaterial};
use vstd::prelude::*;
use vstd::string::StringExecFns;

verus! {

/// Number of building types, and so of entries in the full catalogue.
pub const CATALOGUE_SIZE: usize = 40;

/// Diffuse transmission given to the material of a selected building, in
/// millionths.
pub const PREVIEW_DIFFUSE_TRANSMISSION: i64 = 400_000;

/// A residential building, by the letter of its model.
#[derive(Clone, Copy, Debug, PartialEq, Eq, Structural)]
pub enum ResidentialType {
    A,
    B,
    C,
    D,
    E,
    F,
    G,
    H,
    I,
    J,
    K,
    L,
    M,
    N,
    O,
    P,
    Q,
    R,
    S,
    T,
    U,
}

impl ResidentialType {
    /// Place of the variant within its kind, from zero.
    pub open spec fn ordinal(self) -> int {
        match self {
            ResidentialType::A => 0,
            ResidentialType::B => 1,
            ResidentialType::C => 2,
            ResidentialType::D => 3,
            ResidentialType::E => 4,
            ResidentialType::F => 5,
            ResidentialType::G => 6,
            ResidentialType::H => 7,
            ResidentialType::I => 8,
            ResidentialType::J => 9,
            ResidentialType::K => 10,
            ResidentialType::L => 11,
            ResidentialType::M => 12,
            ResidentialType::N => 13,
            ResidentialType::O => 14,
            ResidentialType::P => 15,
            ResidentialType::Q => 16,
            ResidentialType::R => 17,
            ResidentialType::S => 18,
            ResidentialType::T => 19,
            ResidentialType::U => 20,
        }
    }

    /// Name of the variant's model.
    pub open spec fn asset_name(self) -> Seq<char> {
        match self {
            ResidentialType::A => "building-type-a"@,
            ResidentialType::B => "building-type-b"@,
            ResidentialType::C => "building-type-c"@,
            ResidentialType::D => "building-type-d"@,
            ResidentialType::E => "building-type-e"@,
            ResidentialType::F => "building-type-f"@,
            ResidentialType::G => "building-type-g"@,
            ResidentialType::H => "building-type-h"@,
            ResidentialType::I => "building-type-i"@,
            ResidentialType::J => "building-type-j"@,
            ResidentialType::K => "building-type-k"@,
            ResidentialType::L => "building-type-l"@,
            ResidentialType::M => "building-type-m"@,
            ResidentialType::N => "building-type-n"@,
            ResidentialType::O => "building-type-o"@,
            ResidentialType::P => "building-type-p"@,
            ResidentialType::Q => "building-type-q"@,
            ResidentialType::R => "building-type-r"@,
            ResidentialType::S => "building-type-s"@,
            ResidentialType::T => "building-type-t"@,
            ResidentialType::U => "building-type-u"@,
        }
    }

    /// The variant at place `ordinal` within its kind.
    pub fn from_ordinal(ordinal: usize) -> (found: Option<ResidentialType>)
        ensures
            found is Some <==> ordinal < 21,
            found matches Some(variant) ==> variant.ordinal() == ordinal,
    {
        match ordinal {
            0 => Some(ResidentialType::A),
            1 => Some(ResidentialType::B),
            2 => Some(ResidentialType::C),
            3 => Some(ResidentialType::D),
            4 => Some(ResidentialType::E),
            5 => Some(ResidentialType::F),
            6 => Some(ResidentialType::G),
            7 => Some(ResidentialType::H),
            8 => Some(ResidentialType::I),
            9 => Some(ResidentialType::J),
            10 => Some(ResidentialType::K),
            11 => Some(ResidentialType::L),
            12 => Some(ResidentialType::M),
            13 => Some(ResidentialType::N),
            14 => Some(ResidentialType::O),
            15 => Some(ResidentialType::P),
            16 => Some(ResidentialType::Q),
            17 => Some(ResidentialType::R),
            18 => Some(ResidentialType::S),
            19 => Some(ResidentialType::T),
            20 => Some(ResidentialType::U),
            _ => None,
        }
    }

    /// Name of the variant's model.
    pub fn name(&self) -> (name: &'static str)
        ensures
            name@ == self.asset_name(),
    {
        match self {
            ResidentialType::A => "building-type-a",
            ResidentialType::B => "building-type-b",
            ResidentialType::C => "building-type-c",
            ResidentialType::D => "building-type-d",
            ResidentialType::E => "building-type-e",
            ResidentialType::F => "building-type-f",
            ResidentialType::G => "building-type-g",
            ResidentialType::H => "building-type-h",
            ResidentialType::I => "building-type-i",
            ResidentialType::J => "building-type-j",
            ResidentialType::K => "building-type-k",
            ResidentialType::L => "building-type-l",
            ResidentialType::M => "building-type-m",
            ResidentialType::N => "building-type-n",
            ResidentialType::O => "building-type-o",
            ResidentialType::P => "building-type-p",
            ResidentialType::Q => "building-type-q",
            ResidentialType::R => "building-type-r",
            ResidentialType::S => "building-type-s",
            ResidentialType::T => "building-type-t",
            ResidentialType::U => "building-type-u",
        }
    }
}

/// A driveway, by its length.
#[derive(Clone, Copy, Debug, PartialEq, Eq, Structural)]
pub enum DrivewayType {
    Long,
    Short,
}

impl DrivewayType {
    /// Place of the variant within its kind, from zero.
    pub open spec fn ordinal(self) -> int {
        match self {
            DrivewayType::Long => 0,
            DrivewayType::Short => 1,
        }
    }

    /// Name of the variant's model.
    pub open spec fn asset_name(self) -> Seq<char> {
        match self {
            DrivewayType::Long => "driveway-long"@,
            DrivewayType::Short => "driveway-short"@,
        }
    }

    /// The variant at place `ordinal` within its kind.
    pub fn from_ordinal(ordinal: usize) -> (found: Option<DrivewayType>)
        ensures
            found is Some <==> ordinal < 2,
            found matches Some(variant) ==> variant.ordinal() == ordinal,
    {
        match ordinal {
            0 => Some(DrivewayType::Long),
            1 => Some(DrivewayType::Short),
            _ => None,
        }
    }

    /// Name of the variant's model.
    pub fn name(&self) -> (name: &'static str)
        ensures
            name@ == self.asset_name(),
    {
        match self {
            DrivewayType::Long => "driveway-long",
            DrivewayType::Short => "driveway-short",
        }
    }
}

/// A fence, by the plot it encloses or by its height.
#[derive(Clone, Copy, Debug, PartialEq, Eq, Structural)]
pub enum FenceType {
    OneByTwo,
    OneByThree,
    OneByFour,
    TwoByTwo,
    TwoByThree,
    ThreeByTwo,
    ThreeByThree,
    Low,
    Regular,
}

impl FenceType {
    /// Place of the variant within its kind, from zero.
    pub open spec fn ordinal(self) -> int {
        match self {
            FenceType::OneByTwo => 0,
            FenceType::OneByThree => 1,
            FenceType::OneByFour => 2,
            FenceType::TwoByTwo => 3,
            FenceType::TwoByThree => 4,
            FenceType::ThreeByTwo => 5,
            FenceType::ThreeByThree => 6,
            FenceType::Low => 7,
            FenceType::Regular => 8,
        }
    }

    /// Name of the variant's model.
    pub open spec fn asset_name(self) -> Seq<char> {
        match self {
            FenceType::OneByTwo => "fence-1x2"@,
            FenceType::OneByThree => "fence-1x3"@,
            FenceType::OneByFour => "fence-1x4"@,
            FenceType::TwoByTwo => "fence-2x2"@,
            FenceType::TwoByThree => "fence-2x3"@,
            FenceType::ThreeByTwo => "fence-3x2"@,
            FenceType::ThreeByThree => "fence-3x3"@,
            FenceType::Low => "fence-low"@,
            FenceType::Regular => "fence"@,
        }
    }

    /// The variant at place `ordinal` within its kind.
    pub fn from_ordinal(ordinal: usize) -> (found: Option<FenceType>)
        ensures
            found is Some <==> ordinal < 9,
            found matches Some(variant) ==> variant.ordinal() == ordinal,
    {
        match ordinal {
            0 => Some(FenceType::OneByTwo),
            1 => Some(FenceType::OneByThree),
            2 => Some(FenceType::OneByFour),
            3 => Some(FenceType::TwoByTwo),
            4 => Some(FenceType::TwoByThree),
            5 => Some(FenceType::ThreeByTwo),
            6 => Some(FenceType::ThreeByThree),
            7 => Some(FenceType::Low),
            8 => Some(FenceType::Regular),
            _ => None,
        }
    }

    /// Name of the variant's model.
    pub fn name(&self) -> (name: &'static str)
        ensures
            name@ == self.asset_name(),
    {
        match self {
            FenceType::OneByTwo => "fence-1x2",
            FenceType::OneByThree => "fence-1x3",
            FenceType::OneByFour => "fence-1x4",
            FenceType::TwoByTwo => "fence-2x2",
            FenceType::TwoByThree => "fence-2x3",
            FenceType::ThreeByTwo => "fence-3x2",
            FenceType::ThreeByThree => "fence-3x3",
            FenceType::Low => "fence-low",
            FenceType::Regular => "fence",
        }
    }
}

/// A path, by its length and paving.
#[derive(Clone, Copy, Debug, PartialEq, Eq, Structural)]
pub enum PathType {
    Long,
    Short,
    StonesLong,
    StonesMessy,
    StonesShort,
}

impl PathType {
    /// Place of the variant within its kind, from zero.
    pub open spec fn ordinal(self) -> int {
        match self {
            PathType::Long => 0,
            PathType::Short => 1,
            PathType::StonesLong => 2,
            PathType::StonesMessy => 3,
            PathType::StonesShort => 4,
        }
    }

    /// Name of the variant's model.
    pub open spec fn asset_name(self) -> Seq<char> {
        match self {
            PathType::Long => "path-long"@,
            PathType::Short => "path-short"@,
            PathType::StonesLong => "path-stones-long"@,
            PathType::StonesMessy => "path-stones-messy"@,
            PathType::StonesShort => "path-stones-short"@,
        }
    }

    /// The variant at place `ordinal` within its kind.
    pub fn from_ordinal(ordinal: usize) -> (found: Option<PathType>)
        ensures
            found is Some <==> ordinal < 5,
            found matches Some(variant) ==> variant.ordinal() == ordinal,
    {
        match ordinal {
            0 => Some(PathType::Long),
            1 => Some(PathType::Short),
            2 => Some(PathType::StonesLong),
            3 => Some(PathType::StonesMessy),
            4 => Some(PathType::StonesShort),
            _ => None,
        }
    }

    /// Name of the variant's model.
    pub fn name(&self) -> (name: &'static str)
        ensures
            name@ == self.asset_name(),
    {
        match self {
            PathType::Long => "path-long",
            PathType::Short => "path-short",
            PathType::StonesLong => "path-stones-long",
            PathType::StonesMessy => "path-stones-messy",
            PathType::StonesShort => "path-stones-short",
        }
    }
}

/// A tree, by its size.
#[derive(Clone, Copy, Debug, PartialEq, Eq, Structural)]
pub enum TreeType {
    Large,
    Small,
}

impl TreeType {
    /// Place of the variant within its kind, from zero.
    pub open spec fn ordinal(self) -> int {
        match self {
            TreeType::Large => 0,
            TreeType::Small => 1,
        }
    }

    /// Name of the variant's model.
    pub open spec fn asset_name(self) -> Seq<char> {
        match self {
            TreeType::Large => "tree-large"@,
            TreeType::Small => "tree-small"@,
        }
    }

    /// The variant at place `ordinal` within its kind.
    pub fn from_ordinal(ordinal: usize) -> (found: Option<TreeType>)
        ensures
            found is Some <==> ordinal < 2,
            found matches Some(variant) ==> variant.ordinal() == ordinal,
    {
        match ordinal {
            0 => Some(TreeType::Large),
            1 => Some(TreeType::Small),
            _ => None,
        }
    }

    /// Name of the variant's model.
    pub fn name(&self) -> (name: &'static str)
        ensures
            name@ == self.asset_name(),
    {
        match self {
            TreeType::Large => "tree-large",
            TreeType::Small => "tree-small",
        }
    }
}

/// What can be built.
#[derive(Clone, Copy, Debug, PartialEq, Eq, Structural)]
pub enum BuildingType {
    Residential(ResidentialType),
    Driveway(DrivewayType),
    Fence(FenceType),
    Path(PathType),
    Planter,
    Tree(TreeType),
}

impl BuildingType {
    /// Place of the building type in the full catalogue, from zero: the
    /// kinds follow one another, and within a kind its variants.
    pub open spec fn position(self) -> int {
        match self {
            BuildingType::Residential(kind) => kind.ordinal(),
            BuildingType::Driveway(kind) => 21 + kind.ordinal(),
            BuildingType::Fence(kind) => 23 + kind.ordinal(),
            BuildingType::Path(kind) => 32 + kind.ordinal(),
            BuildingType::Planter => 37,
            BuildingType::Tree(kind) => 38 + kind.ordinal(),
        }
    }

    /// Name of the building type's model.
    pub open spec fn asset_name(self) -> Seq<char> {
        match self {
            BuildingType::Residential(kind) => kind.asset_name(),
            BuildingType::Driveway(kind) => kind.asset_name(),
            BuildingType::Fence(kind) => kind.asset_name(),
            BuildingType::Path(kind) => kind.asset_name(),
            BuildingType::Planter => "planter"@,
            BuildingType::Tree(kind) => kind.asset_name(),
        }
    }

    /// Where the building type's model is stored: the models' directory,
    /// the model's name, and the extension of a binary model file.
    pub open spec fn asset_path(self) -> Seq<char> {
        "models/buildings/"@ + self.asset_name() + ".glb"@
    }

    /// The building type at `position` in the full catalogue.
    pub fn at_position(position: usize) -> (found: Option<BuildingType>)
        ensures
            found is Some <==> position < CATALOGUE_SIZE,
            found matches Some(ty) ==> ty.position() == position,
    {
        if position < 21 {
            match ResidentialType::from_ordinal(position) {
                Some(kind) => Some(BuildingType::Residential(kind)),
                None => None,
            }
        } else if position < 23 {
            match DrivewayType::from_ordinal(position - 21) {
                Some(kind) => Some(BuildingType::Driveway(kind)),
                None => None,
            }
        } else if position < 32 {
            match FenceType::from_ordinal(position - 23) {
                Some(kind) => Some(BuildingType::Fence(kind)),
                None => None,
            }
        } else if position < 37 {
            match PathType::from_ordinal(position - 32) {
                Some(kind) => Some(BuildingType::Path(kind)),
                None => None,
            }
        } else if position == 37 {
            Some(BuildingType::Planter)
        } else if position < 40 {
            match TreeType::from_ordinal(position - 38) {
                Some(kind) => Some(BuildingType::Tree(kind)),
                None => None,
            }
        } else {
            None
        }
    }

    /// Name of the building type's model.
    pub fn name(&self) -> (name: &'static str)
        ensures
            name@ == self.asset_name(),
    {
        match self {
            BuildingType::Residential(kind) => kind.name(),
            BuildingType::Driveway(kind) => kind.name(),
            BuildingType::Fence(kind) => kind.name(),
            BuildingType::Path(kind) => kind.name(),
            BuildingType::Planter => "planter",
            BuildingType::Tree(kind) => kind.name(),
        }
    }

    /// Path of the building type's model file.
    pub fn model_path(&self) -> (path: String)
        ensures
            path@ == self.asset_path(),
    {
        let mut path = String::from_str("models/buildings/");
        path.append(self.name());
        path.append(".glb");
        path
    }
}

/// Every building type has a place in the full catalogue, and no two share
/// one.
pub proof fn lemma_positions_are_distinct(first: BuildingType, second: BuildingType)
    ensures
        0 <= first.position() < CATALOGUE_SIZE,
        first.position() == second.position() ==> first == second,
{
    lemma_position_in_range(first);
    lemma_position_in_range(second);
    if first.position() == second.position() {
        match (first, second) {
            (BuildingType::Residential(a), BuildingType::Residential(b)) => {
                assert(a.ordinal() == b.ordinal());
                assert(a == b);
            },
            (BuildingType::Driveway(a), BuildingType::Driveway(b)) => {
                assert(a == b);
            },
            (BuildingType::Fence(a), BuildingType::Fence(b)) => {
                assert(a.ordinal() == b.ordinal());
                assert(a == b);
            },
            (BuildingType::Path(a), BuildingType::Path(b)) => {
                assert(a.ordinal() == b.ordinal());
                assert(a == b);
            },
            (BuildingType::Tree(a), BuildingType::Tree(b)) => {
                assert(a == b);
            },
            _ => {},
        }
    }
}

proof fn lemma_position_in_range(ty: BuildingType)
    ensures
        match ty {
            BuildingType::Residential(_) => 0 <= ty.position() < 21,
            BuildingType::Driveway(_) => 21 <= ty.position() < 23,
            BuildingType::Fence(_) => 23 <= ty.position() < 32,
            BuildingType::Path(_) => 32 <= ty.position() < 37,
            BuildingType::Planter => ty.position() == 37,
            BuildingType::Tree(_) => 38 <= ty.position() < 40,
        },
{
}

/// The value of a catalogue entry's handle: the model's name and the slot
/// of the model.
pub struct BuildingHandleView {
    pub name: Seq<char>,
    pub handle: GltfHandle,
}

/// A named handle to the model of one building type.
#[derive(Clone, Debug, PartialEq, Eq)]
pub struct BuildingHandle {
    name: String,
    handle: GltfHandle,
}

impl View for BuildingHandle {
    type V = BuildingHandleView;

    closed spec fn view(&self) -> BuildingHandleView {
        BuildingHandleView { name: self.name@, handle: self.handle }
    }
}

impl BuildingHandle {
    pub fn new(name: &str, handle: GltfHandle) -> (entry: BuildingHandle)
        ensures
            entry@ == (BuildingHandleView { name: name@, handle }),
    {
        BuildingHandle { name: name.to_owned(), handle }
    }

    pub fn name(&self) -> (name: &str)
        ensures
            name@ == self@.name,
    {
        self.name.as_str()
    }

    pub fn handle(&self) -> (handle: &GltfHandle)
        ensures
            *handle == self@.handle,
    {
        &self.handle
    }
}

/// The catalogue: building types, each with the handle to its model. Where
/// a type occurs more than once, its first entry counts.
#[derive(Clone, Debug, PartialEq, Eq)]
pub struct SuburbanBuildings {
    pub buildings: Vec<(BuildingType, BuildingHandle)>,
}

impl SuburbanBuildings {
    /// Whether entry `index` is the first one for `building_type`.
    pub open spec fn first_match(self, building_type: BuildingType, index: int) -> bool {
        &&& 0 <= index < self.buildings@.len()
        &&& self.buildings@[index].0 == building_type
        &&& forall|earlier: int|
            0 <= earlier < index ==> (#[trigger] self.buildings@[earlier]).0 != building_type
    }

    /// Whether the catalogue has an entry for `building_type`.
    pub open spec fn registered(self, building_type: BuildingType) -> bool {
        exists|index: int| self.first_match(building_type, index)
    }

    /// The handle that the catalogue gives for `building_type`.
    pub open spec fn entry(self, building_type: BuildingType) -> BuildingHandle
        recommends
            self.registered(building_type),
    {
        self.buildings@[choose|index: int| self.first_match(building_type, index)].1
    }

    /// Whether this is the full catalogue over `handles`: one entry for each
    /// building type, in the order of their places, named after the type's
    /// model and holding the handle at the same place in `handles`.
    pub open spec fn is_full_over(self, handles: Seq<GltfHandle>) -> bool {
        &&& handles.len() == CATALOGUE_SIZE
        &&& self.buildings@.len() == CATALOGUE_SIZE
        &&& forall|index: int|
            0 <= index < CATALOGUE_SIZE ==> {
                let entry = #[trigger] self.buildings@[index];
                &&& entry.0.position() == index
                &&& entry.1@.name == entry.0.asset_name()
                &&& entry.1@.handle == handles[index]
            }
    }

    /// Builds the full catalogue from the handles of the forty models, given
    /// in the order of the building types' places. Any other number of
    /// handles is refused.
    pub fn from_handles(handles: &Vec<GltfHandle>) -> (catalogue: Option<SuburbanBuildings>)
        ensures
            catalogue is Some <==> handles@.len() == CATALOGUE_SIZE,
            catalogue matches Some(full) ==> full.is_full_over(handles@),
    {
        if handles.len() != CATALOGUE_SIZE {
            return None;
        }
        let mut buildings: Vec<(BuildingType, BuildingHandle)> = Vec::new();
        let mut index: usize = 0;
        while index < CATALOGUE_SIZE
            invariant
                handles@.len() == CATALOGUE_SIZE,
                index <= CATALOGUE_SIZE,
                buildings@.len() == index,
                forall|at: int|
                    0 <= at < index ==> {
                        let entry = #[trigger] buildings@[at];
                        &&& entry.0.position() == at
                        &&& entry.1@.name == entry.0.asset_name()
                        &&& entry.1@.handle == handles@[at]
                    },
            decreases CATALOGUE_SIZE - index,
        {
            match BuildingType::at_position(index) {
                Some(ty) => {
                    buildings.push((ty, BuildingHandle::new(ty.name(), handles[index])));
                },
                None => {},
            }
            index += 1;
        }
        Some(SuburbanBuildings { buildings })
    }

    /// Looks up the handle for `building_type`: that of its first entry.
    pub fn get(&self, building_type: &BuildingType) -> (found: Option<&BuildingHandle>)
        ensures
            found is Some <==> self.registered(*building_type),
            found matches Some(handle) ==> *handle == self.entry(*building_type),
    {
        let mut index: usize = 0;
        while index < self.buildings.len()
            invariant
                index <= self.buildings@.len(),
                forall|earlier: int|
                    0 <= earlier < index ==> (#[trigger] self.buildings@[earlier]).0
                        != *building_type,
            decreases self.buildings@.len() - index,
        {
            if self.buildings[index].0 == *building_type {
                proof {
                    assert(self.first_match(*building_type, index as int));
                    self.lemma_first_match_is_unique(
                        *building_type,
                        index as int,
                        choose|at: int| self.first_match(*building_type, at),
                    );
                }
                return Some(&self.buildings[index].1);
            }
            index += 1;
        }
        None
    }

    /// A building type has at most one first entry.
    pub proof fn lemma_first_match_is_unique(self, building_type: BuildingType, a: int, b: int)
        requires
            self.first_match(building_type, a),
            self.first_match(building_type, b),
        ensures
            a == b,
    {
        if a < b {
            assert(self.buildings@[a].0 != building_type);
        } else if b < a {
            assert(self.buildings@[b].0 != building_type);
        }
    }

    /// A building type with any entry at all is registered.
    pub proof fn lemma_any_entry_registers(self, building_type: BuildingType, index: int)
        requires
            0 <= index < self.buildings@.len(),
            self.buildings@[index].0 == building_type,
        ensures
            self.registered(building_type),
        decreases index,
    {
        if exists|earlier: int|
            0 <= earlier < index && (#[trigger] self.buildings@[earlier]).0 == building_type {
            let earlier = choose|earlier: int|
                0 <= earlier < index && (#[trigger] self.buildings@[earlier]).0 == building_type;
            self.lemma_any_entry_registers(building_type, earlier);
        } else {
            assert(self.first_match(building_type, index));
        }
    }

    /// The full catalogue has every building type, under the name of its
    /// model and with the handle at the type's place.
    pub proof fn lemma_full_catalogue_is_total(
        self,
        handles: Seq<GltfHandle>,
        building_type: BuildingType,
    )
        requires
            self.is_full_over(handles),
        ensures
            self.registered(building_type),
            self.entry(building_type)@.name == building_type.asset_name(),
            self.entry(building_type)@.handle == handles[building_type.position()],
    {
        let place = building_type.position();
        lemma_positions_are_distinct(building_type, building_type);
        let here = self.buildings@[place];
        lemma_positions_are_distinct(here.0, building_type);
        assert forall|earlier: int| 0 <= earlier < place implies (#[trigger] self.buildings@[earlier]).0
            != building_type by {
            assert(self.buildings@[earlier].0.position() == earlier);
        }
        assert(self.first_match(building_type, place));
        self.lemma_first_match_is_unique(
            building_type,
            place,
            choose|at: int| self.first_match(building_type, at),
        );
    }
}

/// Looks up the slot of the model for `ty`.
pub fn get_handle_from_building_type(ty: &BuildingType, buildings: &SuburbanBuildings) -> (found:
    Option<GltfHandle>)
    ensures
        found is Some <==> buildings.registered(*ty),
        found matches Some(handle) ==> handle == buildings.entry(*ty)@.handle,
{
    match buildings.get(ty) {
        Some(entry) => Some(*entry.handle()),
        None => None,
    }
}

/// Why a building could not be selected.
#[derive(Clone, Copy, Debug, PartialEq, Eq, Structural)]
pub enum CurrentBuildingError {
    /// The catalogue has no entry for the building type.
    Handle { ty: BuildingType },
    /// The entry's slot holds no loaded model.
    GltfAsset { ty: BuildingType, id: GltfHandle },
    /// The model has no scene.
    Scenes { model: GltfHandle },
    /// The model has no material.
    Materials { model: GltfHandle },
}

/// The value of a selection.
pub struct CurrentBuildingView {
    pub ty: BuildingType,
    pub model: GltfHandle,
    pub scene: SceneHandle,
    pub mat_id: MaterialId,
}

/// The building that is about to be placed: its type, its model, and the
/// first scene and the first material of that model. A selection exists
/// only for a model that was loaded and had both.
#[derive(Clone, Copy, Debug, PartialEq, Eq)]
pub struct CurrentBuilding {
    ty: BuildingType,
    model: GltfHandle,
    scene: SceneHandle,
    mat_id: MaterialId,
}

impl View for CurrentBuilding {
    type V = CurrentBuildingView;

    closed spec fn view(&self) -> CurrentBuildingView {
        CurrentBuildingView {
            ty: self.ty,
            model: self.model,
            scene: self.scene,
            mat_id: self.mat_id,
        }
    }
}

/// The selection for `ty`, or the first thing that stands in its way: no
/// entry in the catalogue, no loaded model in the entry's slot, a model
/// without scenes, a model without materials.
pub open spec fn selection(ty: BuildingType, buildings: SuburbanBuildings, gltf: Assets<Gltf>)
    -> Result<CurrentBuildingView, CurrentBuildingError> {
    let model = buildings.entry(ty)@.handle;
    if !buildings.registered(ty) {
        Err(CurrentBuildingError::Handle { ty })
    } else if !gltf.contains(model.index as int) {
        Err(CurrentBuildingError::GltfAsset { ty, id: model })
    } else if gltf.asset(model.index as int).scenes@.len() == 0 {
        Err(CurrentBuildingError::Scenes { model })
    } else if gltf.asset(model.index as int).materials@.len() == 0 {
        Err(CurrentBuildingError::Materials { model })
    } else {
        Ok(
            CurrentBuildingView {
                ty,
                model,
                scene: gltf.asset(model.index as int).scenes@[0],
                mat_id: gltf.asset(model.index as int).materials@[0],
            },
        )
    }
}

/// The table of materials after an attempt at a selection. A selection
/// that came about sets the diffuse transmission of its material, if the
/// table holds that material. Nothing else changes, and a refused selection
/// changes nothing.
pub open spec fn previewed(
    materials: Assets<StandardMaterial>,
    outcome: Result<CurrentBuildingView, CurrentBuildingError>,
) -> Seq<Option<StandardMaterial>> {
    match outcome {
        Ok(building) => {
            let slot = building.mat_id.index as int;
            if materials.contains(slot) {
                materials.slots@.update(
                    slot,
                    Some(
                        StandardMaterial {
                            diffuse_transmission: PREVIEW_DIFFUSE_TRANSMISSION,
                            ..materials.asset(slot)
                        },
                    ),
                )
            } else {
                materials.slots@
            }
        },
        Err(_) => materials.slots@,
    }
}

impl CurrentBuilding {
    /// Selects the building of type `ty`.
    pub fn new(
        ty: &BuildingType,
        buildings: &SuburbanBuildings,
        gltf: &Assets<Gltf>,
        materials: &mut Assets<StandardMaterial>,
    ) -> (result: Result<CurrentBuilding, CurrentBuildingError>)
        ensures
            match result {
                Ok(building) => selection(*ty, *buildings, *gltf) == Ok::<
                    CurrentBuildingView,
                    CurrentBuildingError,
                >(building@),
                Err(error) => selection(*ty, *buildings, *gltf) == Err::<
                    CurrentBuildingView,
                    CurrentBuildingError,
                >(error),
            },
            final(materials).slots@ == previewed(*old(materials), selection(*ty, *buildings, *gltf)),
    {
        let handle = match get_handle_from_building_type(ty, buildings) {
            Some(handle) => handle,
            None => {
                return Err(CurrentBuildingError::Handle { ty: *ty });
            },
        };
        let model = match gltf.get(handle.index) {
            Some(model) => model,
            None => {
                return Err(CurrentBuildingError::GltfAsset { ty: *ty, id: handle });
            },
        };
        if model.scenes.len() == 0 {
            return Err(CurrentBuildingError::Scenes { model: handle });
        }
        if model.materials.len() == 0 {
            return Err(CurrentBuildingError::Materials { model: handle });
        }
        let scene = model.scenes[0];
        let mat_id = model.materials[0];
        let held = match materials.get(mat_id.index) {
            Some(material) => Some(*material),
            None => None,
        };
        match held {
            Some(material) => {
                let mut changed = material;
                changed.diffuse_transmission = PREVIEW_DIFFUSE_TRANSMISSION;
                materials.set(mat_id.index, changed);
            },
            None => {},
        }
        Ok(CurrentBuilding { ty: *ty, model: handle, scene, mat_id })
    }

    pub fn ty(&self) -> (ty: &BuildingType)
        ensures
            *ty == self@.ty,
    {
        &self.ty
    }

    pub fn model(&self) -> (model: &GltfHandle)
        ensures
            *model == self@.model,
    {
        &self.model
    }

    pub fn scene(&self) -> (scene: &SceneHandle)
        ensures
            *scene == self@.scene,
    {
        &self.scene
    }

    pub fn mat_id(&self) -> (mat_id: MaterialId)
        ensures
            mat_id == self@.mat_id,
    {
        self.mat_id
    }
}

} // verus!
