//! Materials: a name and the texture maps that model an appearance.

use std::collections::HashMap;
use vstd::prelude::*;

verus! {

/// Key of the diffuse color map, also known as albedo or basecolor.
pub open spec fn diffuse_color_map_key() -> Seq<char> {
    "map_Kd"@
}

/// Key of the ambient color map.
pub open spec fn ambient_color_map_key() -> Seq<char> {
    "map_Ka"@
}

/// Key of the specular color map.
pub open spec fn specular_color_map_key() -> Seq<char> {
    "map_Ks"@
}

/// Key of the scalar bump map.
pub open spec fn bump_map_key() -> Seq<char> {
    "bump"@
}

/// Key of the scalar displacement map with midpoint at 0.5.
pub open spec fn displacement_map_key() -> Seq<char> {
    "disp"@
}

/// Key of the tangent-space normal map.
/// Inofficial in MTL format, only supported by some target applications.
pub open spec fn normal_map_key() -> Seq<char> {
    "norm"@
}

/// Key of the scalar roughness map.
/// Inofficial in MTL format, only supported by some target applications.
pub open spec fn roughness_map_key() -> Seq<char> {
    "map_Pr"@
}

/// Key of the scalar metallicity map.
/// Inofficial in MTL format, only supported by some target applications.
pub open spec fn metallic_map_key() -> Seq<char> {
    "map_Pm"@
}

/// Key of the scalar sheen map.
/// Inofficial in MTL format, only supported by some target applications.
pub open spec fn sheen_map_key() -> Seq<char> {
    "map_Ps"@
}

/// Key of the emission map.
/// Inofficial in MTL format, only supported by some target applications.
pub open spec fn emissive_map_key() -> Seq<char> {
    "map_Ke"@
}

/// The keys that a material can hold a map for, in the order in which
/// `Material::maps` lists them.
pub open spec fn map_keys() -> Seq<Seq<char>> {
    seq![
        diffuse_color_map_key(),
        ambient_color_map_key(),
        specular_color_map_key(),
        bump_map_key(),
        displacement_map_key(),
        normal_map_key(),
        roughness_map_key(),
        metallic_map_key(),
        sheen_map_key(),
        emissive_map_key(),
    ]
}

/// The first `upto` keys of `map_keys()` that `maps` holds, each with its
/// path.
pub open spec fn listing(maps: Map<Seq<char>, Seq<char>>, upto: int) -> Seq<
    (Seq<char>, Seq<char>),
>
    decreases upto,
{
    if upto <= 0 {
        Seq::empty()
    } else {
        let key = map_keys()[upto - 1];
        if maps.contains_key(key) {
            listing(maps, upto - 1).push((key, maps[key]))
        } else {
            listing(maps, upto - 1)
        }
    }
}

/// What a material is: its name, and its texture maps as paths by key.
pub struct MaterialView {
    pub name: Seq<char>,
    pub maps: Map<Seq<char>, Seq<char>>,
}

const DIFFUSE_COLOR_MAP: u64 = 0;

const AMBIENT_COLOR_MAP: u64 = 1;

const SPECULAR_COLOR_MAP: u64 = 2;

const BUMP_MAP: u64 = 3;

const DISPLACEMENT_MAP: u64 = 4;

const NORMAL_MAP: u64 = 5;

const ROUGHNESS_MAP: u64 = 6;

const METALLIC_MAP: u64 = 7;

const SHEEN_MAP: u64 = 8;

const EMISSIVE_MAP: u64 = 9;

const MAP_COUNT: u64 = 10;

/// The place of `key` in `map_keys()`, or `MAP_COUNT` for any other string.
spec fn slot_of(key: Seq<char>) -> int {
    if key == diffuse_color_map_key() {
        0
    } else if key == ambient_color_map_key() {
        1
    } else if key == specular_color_map_key() {
        2
    } else if key == bump_map_key() {
        3
    } else if key == displacement_map_key() {
        4
    } else if key == normal_map_key() {
        5
    } else if key == roughness_map_key() {
        6
    } else if key == metallic_map_key() {
        7
    } else if key == sheen_map_key() {
        8
    } else if key == emissive_map_key() {
        9
    } else {
        10
    }
}

/// The keys of `map_keys()` are ten different strings.
pub proof fn lemma_map_keys_differ()
    ensures
        map_keys().len() == 10,
        forall|i: int, j: int|
            0 <= i < j < map_keys().len() ==> #[trigger] map_keys()[i] != #[trigger] map_keys()[j],
{
    reveal_strlit("map_Kd");
    reveal_strlit("map_Ka");
    reveal_strlit("map_Ks");
    reveal_strlit("bump");
    reveal_strlit("disp");
    reveal_strlit("norm");
    reveal_strlit("map_Pr");
    reveal_strlit("map_Pm");
    reveal_strlit("map_Ps");
    reveal_strlit("map_Ke");
    assert("map_Kd"@[5] == 'd');
    assert("map_Ka"@[5] == 'a');
    assert("map_Ks"@[5] == 's');
    assert("bump"@[0] == 'b');
    assert("disp"@[0] == 'd');
    assert("norm"@[0] == 'n');
    assert("map_Pr"@[5] == 'r');
    assert("map_Pm"@[5] == 'm');
    assert("map_Ps"@[5] == 's');
    assert("map_Ks"@[4] == 'K');
    assert("map_Ps"@[4] == 'P');
    assert("map_Ke"@[4] == 'K');
    assert("map_Ke"@[5] == 'e');
}

/// Each key has its own place in `map_keys()`, and `slot_of` finds it.
proof fn lemma_slot_of_key(slot: int)
    requires
        0 <= slot < MAP_COUNT,
    ensures
        slot_of(map_keys()[slot]) == slot,
{
    lemma_map_keys_differ();
    let key = map_keys()[slot];
    assert forall|i: int| 0 <= i < slot implies key != map_keys()[i] by {}
}

/// The paths by key that a store of paths by slot stands for.
spec fn maps_of(store: Map<u64, String>) -> Map<Seq<char>, Seq<char>> {
    Map::new(
        |key: Seq<char>| slot_of(key) < MAP_COUNT && store.contains_key(slot_of(key) as u64),
        |key: Seq<char>| store[slot_of(key) as u64]@,
    )
}

/// The MTL name of the map in `slot`.
fn key_name(slot: u64) -> (name: &'static str)
    requires
        slot < MAP_COUNT,
    ensures
        name@ == map_keys()[slot as int],
{
    if slot == DIFFUSE_COLOR_MAP {
        "map_Kd"
    } else if slot == AMBIENT_COLOR_MAP {
        "map_Ka"
    } else if slot == SPECULAR_COLOR_MAP {
        "map_Ks"
    } else if slot == BUMP_MAP {
        "bump"
    } else if slot == DISPLACEMENT_MAP {
        "disp"
    } else if slot == NORMAL_MAP {
        "norm"
    } else if slot == ROUGHNESS_MAP {
        "map_Pr"
    } else if slot == METALLIC_MAP {
        "map_Pm"
    } else if slot == SHEEN_MAP {
        "map_Ps"
    } else {
        "map_Ke"
    }
}

/// Models the appearance of an entity using paths to texture maps.
///
/// Where possible, the maps adhere to a subset of the inofficial MTL
/// conventions:
///
/// | Method Name           | Associated MTL map       | Alternative names |
/// | --------------------- | ------------------------ | ----------------- |
/// | `diffuse_color_map`   | `map_Kd`, Diffuse color  | Albedo, Basecolor |
/// | `ambient_color_map`   | `map_Ka`, Ambient color  | —                 |
/// | `specular_color_map`  | `map_Ks`, Specular color | —                 |
/// | `bump_map`            | `bump`, Bump map         | —                 |
/// | `displacement_map`    | `disp`, Displacement map | —                 |
///
/// Further, some proposed additions for physically-based rendering can be
/// used:
///
/// | Method Name     | Associated MTL map           | Alternative names     |
/// | --------------- | ---------------------------- | --------------------- |
/// | `normal_map`    | `norm`, Tangent-space normal | —                     |
/// | `roughness_map` | `map_Pr`, Roughness          | —                     |
/// | `metallic_map`  | `map_Pm`, Metallic           | Metallicity           |
/// | `sheen_map`     | `map_Ps`, Sheen              | —                     |
/// | `emissive_map`  | `map_Ke`, Emissive           | Emission              |
///
/// A material does not change once it is built. Two materials are equal when
/// their names and all their maps are.
#[derive(Debug, Eq)]
pub struct Material {
    name: String,
    /// The path of each map that is set, by the place of its key in
    /// `map_keys()`.
    maps: HashMap<u64, String>,
}

impl View for Material {
    type V = MaterialView;

    closed spec fn view(&self) -> MaterialView {
        MaterialView { name: self.name@, maps: maps_of(self.maps@) }
    }
}

impl Clone for Material {
    fn clone(&self) -> (copy: Self)
        ensures
            copy@ == self@,
    {
        Material { name: self.name.clone(), maps: self.maps.clone() }
    }
}

impl PartialEq for Material {
    /// Compares the names, and for each key whether the map is set and what
    /// its path is.
    fn eq(&self, other: &Material) -> (equal: bool) {
        if !(self.name == other.name) {
            return false;
        }
        let mut slot: u64 = 0;
        while slot < MAP_COUNT
            invariant
                slot <= MAP_COUNT,
                forall|s: int|
                    0 <= s < slot ==> (self@.maps.contains_key(#[trigger] map_keys()[s])
                        <==> other@.maps.contains_key(map_keys()[s])),
                forall|s: int|
                    0 <= s < slot && self@.maps.contains_key(#[trigger] map_keys()[s])
                        ==> self@.maps[map_keys()[s]] == other@.maps[map_keys()[s]],
            decreases MAP_COUNT - slot,
        {
            let same = match (self.map_at(slot), other.map_at(slot)) {
                (Some(mine), Some(theirs)) => *mine == *theirs,
                (None, None) => true,
                _ => false,
            };
            if !same {
                return false;
            }
            slot = slot + 1;
        }
        proof {
            let mine = self@.maps;
            let theirs = other@.maps;
            assert forall|key: Seq<char>| mine.dom().contains(key) == theirs.dom().contains(
                key,
            ) by {
                if mine.contains_key(key) || theirs.contains_key(key) {
                    assert(key == map_keys()[slot_of(key)]);
                }
            }
            assert forall|key: Seq<char>| #[trigger] mine.dom().contains(key) implies mine[key]
                == theirs[key] by {
                assert(key == map_keys()[slot_of(key)]);
            }
            assert(self@.maps =~= other@.maps);
        }
        true
    }
}

impl vstd::std_specs::cmp::PartialEqSpecImpl for Material {
    open spec fn obeys_eq_spec() -> bool {
        true
    }

    /// Two materials are equal when their names and all their maps are.
    open spec fn eq_spec(&self, other: &Material) -> bool {
        self@.name == other@.name && self@.maps == other@.maps
    }
}

impl Material {
    /// The path of the map in `slot`, if it is set.
    fn map_at(&self, slot: u64) -> (path: Option<&String>)
        requires
            slot < MAP_COUNT,
        ensures
            path is Some <==> self@.maps.contains_key(map_keys()[slot as int]),
            path is Some ==> path->0@ == self@.maps[map_keys()[slot as int]],
    {
        proof {
            lemma_slot_of_key(slot as int);
        }
        self.maps.get(&slot)
    }

    pub fn name(&self) -> (name: &String)
        ensures
            name@ == self@.name,
    {
        &self.name
    }

    /// Diffuse color, also known as albedo or basecolor.
    pub fn diffuse_color_map(&self) -> (path: Option<&String>)
        ensures
            path is Some <==> self@.maps.contains_key(diffuse_color_map_key()),
            path is Some ==> path->0@ == self@.maps[diffuse_color_map_key()],
    {
        self.map_at(DIFFUSE_COLOR_MAP)
    }

    /// Ambient color map.
    pub fn ambient_color_map(&self) -> (path: Option<&String>)
        ensures
            path is Some <==> self@.maps.contains_key(ambient_color_map_key()),
            path is Some ==> path->0@ == self@.maps[ambient_color_map_key()],
    {
        self.map_at(AMBIENT_COLOR_MAP)
    }

    /// Specular color map.
    pub fn specular_color_map(&self) -> (path: Option<&String>)
        ensures
            path is Some <==> self@.maps.contains_key(specular_color_map_key()),
            path is Some ==> path->0@ == self@.maps[specular_color_map_key()],
    {
        self.map_at(SPECULAR_COLOR_MAP)
    }

    /// Gets the scalar bump map.
    pub fn bump_map(&self) -> (path: Option<&String>)
        ensures
            path is Some <==> self@.maps.contains_key(bump_map_key()),
            path is Some ==> path->0@ == self@.maps[bump_map_key()],
    {
        self.map_at(BUMP_MAP)
    }

    /// Scalar displacment map with midpoint at 0.5.
    pub fn displacement_map(&self) -> (path: Option<&String>)
        ensures
            path is Some <==> self@.maps.contains_key(displacement_map_key()),
            path is Some ==> path->0@ == self@.maps[displacement_map_key()],
    {
        self.map_at(DISPLACEMENT_MAP)
    }

    /// Tangent-space normal map in any format supported by the target application.
    /// Inofficial in MTL format, only supported by some target applications.
    pub fn normal_map(&self) -> (path: Option<&String>)
        ensures
            path is Some <==> self@.maps.contains_key(normal_map_key()),
            path is Some ==> path->0@ == self@.maps[normal_map_key()],
    {
        self.map_at(NORMAL_MAP)
    }

    /// Scalar roughness map.
    /// Inofficial in MTL format, only supported by some target applications.
    pub fn roughness_map(&self) -> (path: Option<&String>)
        ensures
            path is Some <==> self@.maps.contains_key(roughness_map_key()),
            path is Some ==> path->0@ == self@.maps[roughness_map_key()],
    {
        self.map_at(ROUGHNESS_MAP)
    }

    /// Scalar metallicity map.
    /// Inofficial in MTL format, only supported by some target applications.
    pub fn metallic_map(&self) -> (path: Option<&String>)
        ensures
            path is Some <==> self@.maps.contains_key(metallic_map_key()),
            path is Some ==> path->0@ == self@.maps[metallic_map_key()],
    {
        self.map_at(METALLIC_MAP)
    }

    /// Scalar sheen map.
    /// Inofficial in MTL format, only supported by some target applications.
    pub fn sheen_map(&self) -> (path: Option<&String>)
        ensures
            path is Some <==> self@.maps.contains_key(sheen_map_key()),
            path is Some ==> path->0@ == self@.maps[sheen_map_key()],
    {
        self.map_at(SHEEN_MAP)
    }

    /// Emission map.
    /// Inofficial in MTL format, only supported by some target applications.
    pub fn emissive_map(&self) -> (path: Option<&String>)
        ensures
            path is Some <==> self@.maps.contains_key(emissive_map_key()),
            path is Some ==> path->0@ == self@.maps[emissive_map_key()],
    {
        self.map_at(EMISSIVE_MAP)
    }

    /// Gets map names in MTL format with their paths, in the order of
    /// `map_keys()`. Useful for export of MTL files.
    pub fn maps(&self) -> (entries: Vec<(String, String)>)
        ensures
            entries@.map_values(|e: (String, String)| (e.0@, e.1@)) == listing(
                self@.maps,
                map_keys().len() as int,
            ),
    {
        let mut entries: Vec<(String, String)> = Vec::new();
        let mut slot: u64 = 0;
        assert(entries@.map_values(|e: (String, String)| (e.0@, e.1@)) =~= listing(
            self@.maps,
            0,
        ));
        while slot < MAP_COUNT
            invariant
                slot <= MAP_COUNT,
                entries@.map_values(|e: (String, String)| (e.0@, e.1@)) == listing(
                    self@.maps,
                    slot as int,
                ),
            decreases MAP_COUNT - slot,
        {
            let ghost before = entries@;
            match self.map_at(slot) {
                Some(path) => {
                    let name = key_name(slot).to_owned();
                    entries.push((name, path.clone()));
                    assert(entries@.map_values(|e: (String, String)| (e.0@, e.1@))
                        =~= before.map_values(|e: (String, String)| (e.0@, e.1@)).push(
                        (map_keys()[slot as int], self@.maps[map_keys()[slot as int]]),
                    ));
                },
                None => {},
            }
            slot = slot + 1;
        }
        entries
    }
}

/// Creates new and derived materials.
///
/// A builder starts from an empty material, or from an existing one that it
/// takes over or copies, and replaces the name and single maps of it.
pub struct MaterialBuilder {
    mat: Material,
}

impl View for MaterialBuilder {
    type V = MaterialView;

    /// The material as it would be built now.
    closed spec fn view(&self) -> MaterialView {
        self.mat@
    }
}

impl MaterialBuilder {
    /// A builder of a material with an empty name and no maps.
    pub fn new() -> (builder: Self)
        ensures
            builder@.name == Seq::<char>::empty(),
            builder@.maps == Map::<Seq<char>, Seq<char>>::empty(),
    {
        let builder = MaterialBuilder { mat: Material { name: String::new(), maps: HashMap::new() } };
        assert(builder@.maps =~= Map::<Seq<char>, Seq<char>>::empty());
        builder
    }

    /// Sets the path of the map in `slot`.
    fn with_map(self, slot: u64, path: &str) -> (builder: Self)
        requires
            slot < MAP_COUNT,
        ensures
            builder@.name == self@.name,
            builder@.maps == self@.maps.insert(map_keys()[slot as int], path@),
    {
        let mut builder = self;
        builder.mat.maps.insert(slot, path.to_owned());
        proof {
            lemma_slot_of_key(slot as int);
            assert(builder@.maps =~= self@.maps.insert(map_keys()[slot as int], path@));
        }
        builder
    }

    pub fn name(self, name: &str) -> (builder: Self)
        ensures
            builder@.name == name@,
            builder@.maps == self@.maps,
    {
        let mut builder = self;
        builder.mat.name = name.to_owned();
        builder
    }

    /// Sets the diffuse color, also known as albedo or basecolor.
    pub fn diffuse_color_map(self, path: &str) -> (builder: Self)
        ensures
            builder@.name == self@.name,
            builder@.maps == self@.maps.insert(diffuse_color_map_key(), path@),
    {
        self.with_map(DIFFUSE_COLOR_MAP, path)
    }

    /// Sets the ambient color map.
    pub fn ambient_color_map(self, path: &str) -> (builder: Self)
        ensures
            builder@.name == self@.name,
            builder@.maps == self@.maps.insert(ambient_color_map_key(), path@),
    {
        self.with_map(AMBIENT_COLOR_MAP, path)
    }

    /// Sets the specular color map.
    pub fn specular_color_map(self, path: &str) -> (builder: Self)
        ensures
            builder@.name == self@.name,
            builder@.maps == self@.maps.insert(specular_color_map_key(), path@),
    {
        self.with_map(SPECULAR_COLOR_MAP, path)
    }

    /// Sets the scalar bump map.
    pub fn bump_map(self, path: &str) -> (builder: Self)
        ensures
            builder@.name == self@.name,
            builder@.maps == self@.maps.insert(bump_map_key(), path@),
    {
        self.with_map(BUMP_MAP, path)
    }

    /// Sets the scalar displacement map with midpoint at 0.5.
    pub fn displacement_map(self, path: &str) -> (builder: Self)
        ensures
            builder@.name == self@.name,
            builder@.maps == self@.maps.insert(displacement_map_key(), path@),
    {
        self.with_map(DISPLACEMENT_MAP, path)
    }

    /// Sets the tangent-space normal map in any format supported by the target application.
    /// Inofficial in MTL format, only supported by some target applications.
    pub fn normal_map(self, path: &str) -> (builder: Self)
        ensures
            builder@.name == self@.name,
            builder@.maps == self@.maps.insert(normal_map_key(), path@),
    {
        self.with_map(NORMAL_MAP, path)
    }

    /// Sets the scalar roughness map.
    /// Inofficial in MTL format, only supported by some target applications.
    pub fn roughness_map(self, path: &str) -> (builder: Self)
        ensures
            builder@.name == self@.name,
            builder@.maps == self@.maps.insert(roughness_map_key(), path@),
    {
        self.with_map(ROUGHNESS_MAP, path)
    }

    /// Sets the scalar metallicity map.
    /// Inofficial in MTL format, only supported by some target applications.
    pub fn metallic_map(self, path: &str) -> (builder: Self)
        ensures
            builder@.name == self@.name,
            builder@.maps == self@.maps.insert(metallic_map_key(), path@),
    {
        self.with_map(METALLIC_MAP, path)
    }

    /// Sets the scalar sheen map.
    /// Inofficial in MTL format, only supported by some target applications.
    pub fn sheen_map(self, path: &str) -> (builder: Self)
        ensures
            builder@.name == self@.name,
            builder@.maps == self@.maps.insert(sheen_map_key(), path@),
    {
        self.with_map(SHEEN_MAP, path)
    }

    /// Sets the emission map.
    /// Inofficial in MTL format, only supported by some target applications.
    pub fn emissive_map(self, path: &str) -> (builder: Self)
        ensures
            builder@.name == self@.name,
            builder@.maps == self@.maps.insert(emissive_map_key(), path@),
    {
        self.with_map(EMISSIVE_MAP, path)
    }

    /// The material as it stands.
    pub fn build(self) -> (material: Material)
        ensures
            material@ == self@,
    {
        self.mat
    }
}

/// Creates a new material builder, consuming the given existing material.
impl From<Material> for MaterialBuilder {
    fn from(mat: Material) -> (builder: MaterialBuilder)
        ensures
            builder@ == mat@,
    {
        MaterialBuilder { mat }
    }
}

impl vstd::std_specs::convert::FromSpecImpl<Material> for MaterialBuilder {
    open spec fn obeys_from_spec() -> bool {
        true
    }

    closed spec fn from_spec(mat: Material) -> MaterialBuilder {
        MaterialBuilder { mat }
    }
}

/// Creates a new material builder by cloning the given existing material.
impl<'a> From<&'a Material> for MaterialBuilder {
    fn from(from: &'a Material) -> (builder: MaterialBuilder)
        ensures
            builder@ == from@,
    {
        MaterialBuilder { mat: from.clone() }
    }
}

impl<'a> vstd::std_specs::convert::FromSpecImpl<&'a Material> for MaterialBuilder {
    /// The copy stands for the same material as `from`, which is what `from`
    /// ensures; it need not be the same value down to its storage.
    open spec fn obeys_from_spec() -> bool {
        false
    }

    closed spec fn from_spec(from: &'a Material) -> MaterialBuilder {
        MaterialBuilder { mat: *from }
    }
}

} // verus!
